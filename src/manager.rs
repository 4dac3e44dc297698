use vstd::prelude::*;

use tokio::sync::broadcast;

use crate::config::{AppConfig, EdgeDetect, PinConfig};
use crate::error::AppError;
use crate::events::{event_bus, bounded_push, newest, rx_from, EventCallbackHandler};
use crate::gpio::{
    capability_allows, capability_matches, settings_of, validate_pin_settings, EdgeEvent, GpioBackend, PinDescriptor,
    PinSettings,
};

verus! {

/// The manager façade: validates requests against the declared pins and
/// their capabilities, drives the backend, and keeps and fans out edge events.
pub struct GenericGpioManager<B: GpioBackend> {
    config: AppConfig,
    backend: B,
    event_handler: EventCallbackHandler,
}

pub type GpioManager<B> = GenericGpioManager<B>;

impl<B: GpioBackend> GenericGpioManager<B> {
    pub closed spec fn wf(&self) -> bool {
        &&& self.config.wf()
        &&& self.backend.inv()
        &&& self.event_handler.capacity() == self.config.event_history_capacity
        &&& forall|p: u32| #[trigger] self.event_handler.tracks(p) == self.config.declares(p)
    }

    /// The configuration the manager was built from.
    pub closed spec fn config_view(&self) -> AppConfig {
        self.config
    }

    /// The backend, as it stands.
    pub closed spec fn backend_view(&self) -> B {
        self.backend
    }

    /// The retained events of `pin`, oldest first.
    pub closed spec fn history(&self, pin: u32) -> Seq<EdgeEvent> {
        self.event_handler.history(pin)
    }

    /// The edge events sent to subscribers so far.
    pub closed spec fn sent(&self) -> Seq<EdgeEvent> {
        self.event_handler.sent()
    }

    /// Whether `settings` passes the manager's own checks for `pin`: the pin is
    /// declared, the state among its capabilities, and the settings valid.
    pub open spec fn admits(&self, pin: u32, settings: PinSettings) -> bool {
        &&& self.config_view().declares(pin)
        &&& capability_allows(settings.state, self.config_view().pin_cfg(pin).capabilities@)
        &&& settings.valid()
    }

    /// Settings the backend reports for `pin`.
    pub open spec fn current_settings(&self, pin: u32) -> PinSettings {
        settings_of(self.backend_view().settings_view(), pin)
    }

    /// A manager of the pins that `config` declares, each with an empty event
    /// history, on `backend`.
    pub fn new(config: AppConfig, backend: B) -> (r: Self)
        requires
            config.wf(),
            backend.inv(),
            0 < config.broadcast_capacity <= usize::MAX / 2,
        ensures
            r.wf(),
            r.config_view() == config,
            r.backend_view() == backend,
            r.sent() == Seq::<EdgeEvent>::empty(),
            forall|p: u32| #[trigger] r.history(p) == Seq::<EdgeEvent>::empty(),
    {
        let mut ids: Vec<u32> = Vec::new();
        let mut i: usize = 0;
        while i < config.gpios.len()
            invariant
                config.wf(),
                i <= config.gpios@.len(),
                ids@.len() == i,
                forall|k: int| 0 <= k < i ==> #[trigger] ids@[k] == config.gpios@[k].0,
            decreases config.gpios@.len() - i,
        {
            ids.push(config.gpios[i].0);
            i = i + 1;
        }
        proof {
            assert forall|a: int, b: int|
                0 <= a < ids@.len() && 0 <= b < ids@.len() && a != b implies ids@[a] != ids@[b] by {
                if a < b {
                    assert(config.gpios@[a].0 != config.gpios@[b].0);
                } else {
                    assert(config.gpios@[b].0 != config.gpios@[a].0);
                }
            }
        }
        let tx = event_bus(config.broadcast_capacity);
        let ghost id_seq = ids@;
        let event_handler = EventCallbackHandler::new(tx, ids, config.event_history_capacity);
        let r = GenericGpioManager { config, backend, event_handler };
        proof {
            assert forall|p: u32| #[trigger] r.event_handler.tracks(p) == r.config.declares(p) by {
                if id_seq.contains(p) {
                    let k = id_seq.index_of(p);
                    assert(r.config.gpios@[k].0 == p);
                }
                if r.config.declares(p) {
                    let k = choose|k: int|
                        0 <= k < r.config.gpios@.len() && #[trigger] r.config.gpios@[k].0 == p;
                    assert(id_seq[k] == p);
                }
            }
        }
        r
    }

    fn pin_config(&self, pin_id: u32) -> (r: Result<&PinConfig, AppError>)
        requires
            self.wf(),
        ensures
            r is Err <==> !self.config.declares(pin_id),
            r matches Err(e) ==> e is NotFoundPin,
            r matches Ok(c) ==> *c == self.config.pin_cfg(pin_id),
    {
        match self.config.find_pin(pin_id) {
            Some(i) => Ok(&self.config.gpios[i].1),
            None => Err(AppError::NotFoundPin(pin_id.to_string())),
        }
    }

    /// Every declared pin with its declaration and current settings, in the
    /// order of the configuration.
    pub fn list_pins(&self) -> (r: Vec<(u32, PinDescriptor)>)
        requires
            self.wf(),
        ensures
            r@.len() == self.config_view().gpios@.len(),
            forall|i: int|
                0 <= i < r@.len() ==> {
                    &&& (#[trigger] r@[i]).0 == self.config_view().gpios@[i].0
                    &&& r@[i].1.info@ == self.config_view().gpios@[i].1@
                    &&& r@[i].1.settings == self.current_settings(r@[i].0)
                },
    {
        let mut out: Vec<(u32, PinDescriptor)> = Vec::new();
        let mut i: usize = 0;
        while i < self.config.gpios.len()
            invariant
                self.wf(),
                i <= self.config.gpios@.len(),
                out@.len() == i,
                forall|k: int|
                    0 <= k < i ==> {
                        &&& (#[trigger] out@[k]).0 == self.config.gpios@[k].0
                        &&& out@[k].1.info@ == self.config.gpios@[k].1@
                        &&& out@[k].1.settings == self.current_settings(out@[k].0)
                    },
            decreases self.config.gpios@.len() - i,
        {
            let id = self.config.gpios[i].0;
            let settings = match self.backend.get_settings(id) {
                Ok(s) => s,
                Err(_) => PinSettings::default(),
            };
            let info = self.config.gpios[i].1.duplicate();
            out.push((id, PinDescriptor { info, settings }));
            i = i + 1;
        }
        out
    }

    /// The declaration and current settings of `pin_id`.
    pub fn get_pin_descriptor(&self, pin_id: u32) -> (r: Result<PinDescriptor, AppError>)
        requires
            self.wf(),
        ensures
            !self.config_view().declares(pin_id) ==> r matches Err(AppError::NotFoundPin(_)),
            self.config_view().declares(pin_id) ==> (r matches Ok(d) && d.info@
                == self.config_view().pin_cfg(pin_id)@ && d.settings == self.current_settings(
                pin_id,
            )),
    {
        let cfg = self.pin_config(pin_id)?;
        let info = cfg.duplicate();
        let settings = match self.backend.get_settings(pin_id) {
            Ok(s) => s,
            Err(_) => PinSettings::default(),
        };
        Ok(PinDescriptor { info, settings })
    }

    /// The declaration of `pin_id`.
    pub fn get_pin_info(&self, pin_id: u32) -> (r: Result<PinConfig, AppError>)
        requires
            self.wf(),
        ensures
            !self.config_view().declares(pin_id) ==> r matches Err(AppError::NotFoundPin(_)),
            self.config_view().declares(pin_id) ==> (r matches Ok(c) && c@
                == self.config_view().pin_cfg(pin_id)@),
    {
        let cfg = self.pin_config(pin_id)?;
        Ok(cfg.duplicate())
    }

    /// The current settings of `pin_id`.
    pub fn get_pin_settings(&self, pin_id: u32) -> (r: Result<PinSettings, AppError>)
        requires
            self.wf(),
        ensures
            !self.config_view().declares(pin_id) ==> r matches Err(AppError::NotFoundPin(_)),
            self.config_view().declares(pin_id) ==> r == Ok::<PinSettings, AppError>(
                self.current_settings(pin_id),
            ),
    {
        self.pin_config(pin_id)?;
        self.backend.get_settings(pin_id)
    }

    /// Applies `settings` to `pin_id`: the pin must be declared, its state among
    /// the declared capabilities (disabled always is, the error sentinel never),
    /// and the settings valid. A request that passes goes to the backend, with
    /// edges handed out exactly when edge detection is on, and its result is the
    /// backend's; a refused one leaves the backend as it was.
    pub fn set_pin_settings(&mut self, pin_id: u32, settings: &PinSettings) -> (r: Result<
        (),
        AppError,
    >)
        requires
            old(self).wf(),
        ensures
            final(self).wf(),
            final(self).config_view() == old(self).config_view(),
            final(self).sent() == old(self).sent(),
            forall|p: u32| #[trigger] final(self).history(p) == old(self).history(p),
            final(self).backend_view().infallible() == old(self).backend_view().infallible(),
            !old(self).config_view().declares(pin_id) <==> r matches Err(AppError::NotFoundPin(_)),
            old(self).config_view().declares(pin_id) && !old(self).admits(pin_id, *settings) ==> r matches Err(
                AppError::InvalidState(_),
            ),
            r matches Err(AppError::InvalidState(_)) ==> !old(self).admits(pin_id, *settings),
            !old(self).admits(pin_id, *settings) ==> final(self).backend_view() == old(
                self,
            ).backend_view(),
            old(self).admits(pin_id, *settings) && settings.state is Disabled ==> r is Ok,
            old(self).admits(pin_id, *settings) && old(self).backend_view().infallible() ==> r is Ok,
            r is Ok ==> final(self).backend_view().settings_view() == crate::gpio::applied(
                old(self).backend_view().settings_view(),
                pin_id,
                *settings,
            ),
            r is Err ==> final(self).backend_view().settings_view() == old(
                self,
            ).backend_view().settings_view(),
            r is Ok ==> final(self).backend_view().sink_view() == if settings.state is Disabled
                || settings.edge is NoEdge {
                old(self).backend_view().sink_view().remove(pin_id)
            } else {
                old(self).backend_view().sink_view().insert(pin_id)
            },
            r is Err ==> final(self).backend_view().sink_view() == old(
                self,
            ).backend_view().sink_view(),
    {
        let idx = match self.config.find_pin(pin_id) {
            Some(i) => i,
            None => {
                return Err(AppError::NotFoundPin(pin_id.to_string()));
            },
        };
        if !capability_matches(settings.state, &self.config.gpios[idx].1.capabilities) {
            return Err(AppError::InvalidState("state not supported by pin".to_string()));
        }
        validate_pin_settings(settings)?;
        let attach = settings.edge != EdgeDetect::NoEdge;
        self.backend.set_settings(pin_id, &self.config.gpios[idx].1, settings, attach)
    }

    /// The level of `pin_id`, which must be declared and configured.
    pub fn read_value(&self, pin_id: u32) -> (r: Result<u8, AppError>)
        requires
            self.wf(),
        ensures
            !self.config_view().declares(pin_id) <==> r matches Err(AppError::NotFoundPin(_)),
            self.config_view().declares(pin_id) && !self.backend_view().settings_view().contains_key(
                pin_id,
            ) ==> r matches Err(AppError::InvalidState(_)),
            r matches Err(AppError::InvalidState(_)) ==> !self.backend_view().settings_view().contains_key(
                pin_id,
            ),
            !(r matches Err(AppError::InvalidValue(_))),
            self.config_view().declares(pin_id) && self.backend_view().settings_view().contains_key(
                pin_id,
            ) && self.backend_view().infallible() ==> r == Ok::<u8, AppError>(
                self.backend_view().level_view()[pin_id],
            ),
            r matches Ok(v) ==> v <= 1 && v == self.backend_view().level_view()[pin_id],
    {
        self.pin_config(pin_id)?;
        self.backend.read_value(pin_id)
    }

    /// Drives `value` (0 or 1) onto `pin_id`, which must be declared and in a
    /// writable state; an edge that the write produces is dispatched.
    pub fn write_value(&mut self, pin_id: u32, value: u8) -> (r: Result<(), AppError>)
        requires
            old(self).wf(),
        ensures
            final(self).wf(),
            final(self).config_view() == old(self).config_view(),
            final(self).backend_view().infallible() == old(self).backend_view().infallible(),
            value > 1 <==> r matches Err(AppError::InvalidValue(_)),
            value <= 1 && !old(self).config_view().declares(pin_id) <==> r matches Err(
                AppError::NotFoundPin(_),
            ),
            value > 1 || !old(self).config_view().declares(pin_id) ==> final(self).backend_view()
                == old(self).backend_view(),
            value <= 1 && old(self).config_view().declares(pin_id) && !old(
                self,
            ).backend_view().writable(pin_id) ==> r matches Err(AppError::InvalidState(_)),
            r matches Err(AppError::InvalidState(_)) ==> !old(self).backend_view().writable(pin_id),
            value <= 1 && old(self).config_view().declares(pin_id) && old(
                self,
            ).backend_view().writable(pin_id) && old(self).backend_view().infallible() ==> r is Ok,
            final(self).backend_view().settings_view() == old(self).backend_view().settings_view(),
            r is Ok ==> final(self).backend_view().level_view() == old(
                self,
            ).backend_view().level_view().insert(pin_id, value),
            r is Err ==> final(self).backend_view().level_view() == old(
                self,
            ).backend_view().level_view(),
            r is Err ==> final(self).sent() == old(self).sent(),
            r is Err ==> forall|p: u32| #[trigger] final(self).history(p) == old(self).history(p),
            forall|p: u32| p != pin_id ==> #[trigger] final(self).history(p) == old(self).history(p),
            (final(self).history(pin_id) == old(self).history(pin_id) && final(self).sent() == old(
                self,
            ).sent()) || exists|e: EdgeEvent|
                e.pin_id == pin_id && final(self).sent() == old(self).sent().push(e) && #[trigger] bounded_push(
                    old(self).history(pin_id),
                    e,
                    old(self).config_view().event_history_capacity as nat,
                ) == final(self).history(pin_id),
    {
        if value > 1 {
            return Err(AppError::InvalidValue("value must be 0 or 1".to_string()));
        }
        self.pin_config(pin_id)?;
        match self.backend.write_value(pin_id, value) {
            Err(e) => Err(e),
            Ok(None) => Ok(()),
            Ok(Some(event)) => {
                self.event_handler.dispatch(event);
                Ok(())
            },
        }
    }

    /// Hands an edge observed on a pin to the dispatcher: it joins the pin's
    /// history and goes to every subscriber; one of an undeclared pin is dropped.
    pub fn dispatch_event(&mut self, event: EdgeEvent)
        requires
            old(self).wf(),
        ensures
            final(self).wf(),
            final(self).config_view() == old(self).config_view(),
            final(self).backend_view() == old(self).backend_view(),
            final(self).sent() == if old(self).config_view().declares(event.pin_id) {
                old(self).sent().push(event)
            } else {
                old(self).sent()
            },
            forall|p: u32|
                #[trigger] final(self).history(p) == if p == event.pin_id && old(
                    self,
                ).config_view().declares(p) {
                    bounded_push(
                        old(self).history(p),
                        event,
                        old(self).config_view().event_history_capacity as nat,
                    )
                } else {
                    old(self).history(p)
                },
    {
        self.event_handler.dispatch(event);
    }

    /// A receiver of every edge event dispatched from now on.
    pub fn subscribe_events(&self) -> (r: broadcast::Receiver<EdgeEvent>)
        requires
            self.wf(),
        ensures
            rx_from(r) == self.sent().len(),
    {
        self.event_handler.subscribe()
    }

    /// The retained events of `pin_id`, oldest first; with a limit, only that
    /// many of the newest.
    pub fn get_events(&self, pin_id: u32, limit: Option<usize>) -> (r: Result<
        Vec<EdgeEvent>,
        AppError,
    >)
        requires
            self.wf(),
        ensures
            !self.config_view().declares(pin_id) ==> r matches Err(AppError::NotFoundPin(_)),
            self.config_view().declares(pin_id) ==> (r matches Ok(v) && v@ == match limit {
                Some(n) => newest(self.history(pin_id), n as nat),
                None => self.history(pin_id),
            }),
    {
        self.pin_config(pin_id)?;
        Ok(self.event_handler.events_of(pin_id, limit))
    }

    /// The newest retained event of `pin_id`, if any.
    pub fn get_last_event(&self, pin_id: u32) -> (r: Result<Option<EdgeEvent>, AppError>)
        requires
            self.wf(),
        ensures
            !self.config_view().declares(pin_id) ==> r matches Err(AppError::NotFoundPin(_)),
            self.config_view().declares(pin_id) ==> r == Ok::<Option<EdgeEvent>, AppError>(
                if self.history(pin_id).len() == 0 {
                    None
                } else {
                    Some(self.history(pin_id).last())
                },
            ),
    {
        self.pin_config(pin_id)?;
        Ok(self.event_handler.last_of(pin_id))
    }
}

} // verus!
