use vstd::prelude::*;

use crate::config::{EdgeDetect, GpioCapability, PinConfig};
use crate::error::AppError;

verus! {

/// The state a pin is in shares the value space of its capabilities.
pub type GpioState = GpioCapability;

impl GpioState {
    pub open spec fn spec_is_writable(&self) -> bool {
        self is PushPull || self is OpenDrain || self is OpenSource
    }

    pub open spec fn spec_is_edge_detectable(&self) -> bool {
        self is Floating || self is PullUp || self is PullDown
    }

    /// Whether a value can be driven onto a pin in this state.
    #[verifier::when_used_as_spec(spec_is_writable)]
    pub fn is_writable(&self) -> (r: bool)
        ensures
            r == self.spec_is_writable(),
    {
        match self {
            GpioCapability::PushPull | GpioCapability::OpenDrain | GpioCapability::OpenSource => true,
            _ => false,
        }
    }

    /// Whether a pin in this state is an input whose edges can be detected.
    #[verifier::when_used_as_spec(spec_is_edge_detectable)]
    pub fn is_edge_detectable(&self) -> (r: bool)
        ensures
            r == self.spec_is_edge_detectable(),
    {
        match self {
            GpioCapability::Floating | GpioCapability::PullUp | GpioCapability::PullDown => true,
            _ => false,
        }
    }
}

/// One observed level transition of a pin.
#[derive(Debug, Clone, Copy, PartialEq, Eq, Structural)]
pub struct EdgeEvent {
    pub pin_id: u32,
    pub edge: EdgeDetect,
    pub timestamp_ms: u64,
}

/// The mutable configuration of one pin.
#[derive(Debug, Clone, Copy, PartialEq, Eq, Structural)]
pub struct PinSettings {
    pub state: GpioState,
    pub edge: EdgeDetect,
    pub debounce_ms: u64,
}

impl PinSettings {
    pub open spec fn spec_default() -> PinSettings {
        PinSettings { state: GpioCapability::Disabled, edge: EdgeDetect::NoEdge, debounce_ms: 0 }
    }

    /// The settings invariants: a disabled pin has no edge detection and no
    /// debounce, edge detection needs an input state, debounce needs edge
    /// detection, and the error sentinel is never a target.
    pub open spec fn valid(self) -> bool {
        &&& !(self.state is Error)
        &&& self.state is Disabled ==> self.edge is NoEdge && self.debounce_ms == 0
        &&& !(self.edge is NoEdge) ==> self.state.spec_is_edge_detectable()
        &&& self.debounce_ms != 0 ==> !(self.edge is NoEdge)
    }
}

impl Default for PinSettings {
    fn default() -> (r: Self)
        ensures
            r == PinSettings::spec_default(),
    {
        PinSettings { state: GpioCapability::Disabled, edge: EdgeDetect::NoEdge, debounce_ms: 0 }
    }
}

/// A declared pin together with its current settings.
#[derive(Debug, Clone)]
pub struct PinDescriptor {
    pub info: PinConfig,
    pub settings: PinSettings,
}

/// The settings a backend reports for `pin`: the last applied, else the default.
pub open spec fn settings_of(m: Map<u32, PinSettings>, pin: u32) -> PinSettings {
    if m.contains_key(pin) {
        m[pin]
    } else {
        PinSettings::spec_default()
    }
}

/// The configured pins after `s` is applied to `pin`: disabling releases the
/// pin, any other state (re)configures it.
pub open spec fn applied(m: Map<u32, PinSettings>, pin: u32, s: PinSettings) -> Map<
    u32,
    PinSettings,
> {
    if s.state is Disabled {
        m.remove(pin)
    } else {
        m.insert(pin, s)
    }
}

/// Disabling a pin leaves it unconfigured with the default settings, so that
/// reads and writes of it are refused as an invalid state.
pub proof fn lemma_disable_resets(m: Map<u32, PinSettings>, pin: u32, s: PinSettings)
    requires
        s.state is Disabled,
    ensures
        !applied(m, pin, s).contains_key(pin),
        settings_of(applied(m, pin, s), pin) == PinSettings::spec_default(),
{
}

/// A pin that no settings were applied to reports the default settings.
pub proof fn lemma_unconfigured_default(m: Map<u32, PinSettings>, pin: u32)
    requires
        !m.contains_key(pin),
    ensures
        settings_of(m, pin) == PinSettings::spec_default(),
        settings_of(m, pin).valid(),
{
}

/// Checks the settings invariants, as every backend does before it touches a line.
pub fn validate_pin_settings(settings: &PinSettings) -> (r: Result<(), AppError>)
    ensures
        r is Ok <==> settings.valid(),
        r matches Err(e) ==> e is InvalidState,
{
    match settings.state {
        GpioCapability::Error => Err(AppError::InvalidState("cannot set pin to error state".to_string())),
        GpioCapability::Disabled => {
            if settings.edge != EdgeDetect::NoEdge {
                return Err(
                    AppError::InvalidState("cannot set edge detection on disabled pin".to_string()),
                );
            }
            if settings.debounce_ms != 0 {
                return Err(
                    AppError::InvalidState("cannot set debounce on disabled pin".to_string()),
                );
            }
            Ok(())
        },
        _ => {
            match settings.edge {
                EdgeDetect::NoEdge => {
                    if settings.debounce_ms != 0 {
                        return Err(
                            AppError::InvalidState(
                                "debouncing requires edge detection to be enabled".to_string(),
                            ),
                        );
                    }
                },
                _ => {
                    if !settings.state.is_edge_detectable() {
                        return Err(
                            AppError::InvalidState(
                                "edge detection requires an input-capable state".to_string(),
                            ),
                        );
                    }
                },
            }
            Ok(())
        },
    }
}

/// Whether a pin declared with `caps` may be put in `state`: the error
/// sentinel never, disabled always, any other state when declared.
pub open spec fn capability_allows(state: GpioState, caps: Seq<GpioCapability>) -> bool {
    !(state is Error) && (state is Disabled || caps.contains(state))
}

/// Whether a pin declared with `caps` may be put in `state`.
pub fn capability_matches(state: GpioState, caps: &Vec<GpioCapability>) -> (r: bool)
    ensures
        r == capability_allows(state, caps@),
{
    match state {
        GpioCapability::Error => false,
        GpioCapability::Disabled => true,
        _ => {
            let mut i: usize = 0;
            while i < caps.len()
                invariant
                    i <= caps@.len(),
                    !(state is Error),
                    forall|k: int| 0 <= k < i ==> caps@[k] != state,
                decreases caps@.len() - i,
            {
                if caps[i] == state {
                    assert(caps@[i as int] == state);
                    assert(caps@.contains(state));
                    return true;
                }
                i = i + 1;
            }
            false
        },
    }
}

/// The line backend: programs lines, reads and drives levels.
///
/// `settings_view` holds the settings last applied to each configured pin (a
/// disabled pin is not configured); `level_view` the level of each configured
/// pin, as a read reports it. With `attach_sink` a backend hands out the edges
/// that a configured pin observes.
pub trait GpioBackend: Sized {
    spec fn inv(&self) -> bool;

    spec fn settings_view(&self) -> Map<u32, PinSettings>;

    spec fn level_view(&self) -> Map<u32, u8>;

    /// The pins whose edges are handed out.
    spec fn sink_view(&self) -> Set<u32>;

    /// Whether no line operation can fail for a reason of the backend's own
    /// (as for a software line with no driver below it).
    spec fn infallible(&self) -> bool;

    /// Whether `pin` is configured in a state that can be driven.
    open spec fn writable(&self, pin: u32) -> bool {
        self.settings_view().contains_key(pin) && self.settings_view()[pin].state.spec_is_writable()
    }

    /// The settings last applied to `pin_id`, or the default if it was never
    /// configured.
    fn get_settings(&self, pin_id: u32) -> (r: Result<PinSettings, AppError>)
        requires
            self.inv(),
        ensures
            r == Ok::<PinSettings, AppError>(settings_of(self.settings_view(), pin_id)),
    ;

    /// (Re)programs the line of `pin_id` after checking the settings invariants.
    fn set_settings(
        &mut self,
        pin_id: u32,
        pin: &PinConfig,
        settings: &PinSettings,
        attach_sink: bool,
    ) -> (r: Result<(), AppError>)
        requires
            old(self).inv(),
        ensures
            final(self).inv(),
            final(self).infallible() == old(self).infallible(),
            !settings.valid() ==> r matches Err(AppError::InvalidState(_)),
            r matches Err(AppError::InvalidState(_)) ==> !settings.valid(),
            !(r matches Err(AppError::NotFoundPin(_))),
            !(r matches Err(AppError::InvalidValue(_))),
            settings.valid() && settings.state is Disabled ==> r is Ok,
            settings.valid() && old(self).infallible() ==> r is Ok,
            r is Ok ==> final(self).settings_view() == applied(
                old(self).settings_view(),
                pin_id,
                *settings,
            ),
            r is Err ==> final(self).settings_view() == old(self).settings_view(),
            r is Ok ==> final(self).sink_view() == if settings.state is Disabled || settings.edge is NoEdge
                || !attach_sink {
                old(self).sink_view().remove(pin_id)
            } else {
                old(self).sink_view().insert(pin_id)
            },
            r is Err ==> final(self).sink_view() == old(self).sink_view(),
    ;

    /// The level of `pin_id`, 0 or 1; a pin that is not configured cannot be read.
    fn read_value(&self, pin_id: u32) -> (r: Result<u8, AppError>)
        requires
            self.inv(),
        ensures
            !self.settings_view().contains_key(pin_id) ==> r matches Err(AppError::InvalidState(_)),
            r matches Err(AppError::InvalidState(_)) ==> !self.settings_view().contains_key(pin_id),
            !(r matches Err(AppError::NotFoundPin(_))),
            !(r matches Err(AppError::InvalidValue(_))),
            self.settings_view().contains_key(pin_id) && self.infallible() ==> r == Ok::<
                u8,
                AppError,
            >(self.level_view()[pin_id]),
            r matches Ok(v) ==> self.level_view().contains_key(pin_id) && v == self.level_view()[pin_id]
                && v <= 1,
    ;

    /// Drives `value` onto `pin_id`, which must be configured in a writable
    /// state; returns the edge event that the change produced, if any.
    fn write_value(&mut self, pin_id: u32, value: u8) -> (r: Result<Option<EdgeEvent>, AppError>)
        requires
            old(self).inv(),
            value <= 1,
        ensures
            final(self).inv(),
            final(self).infallible() == old(self).infallible(),
            final(self).settings_view() == old(self).settings_view(),
            !old(self).writable(pin_id) ==> r matches Err(AppError::InvalidState(_)),
            r matches Err(AppError::InvalidState(_)) ==> !old(self).writable(pin_id),
            !(r matches Err(AppError::NotFoundPin(_))),
            !(r matches Err(AppError::InvalidValue(_))),
            old(self).writable(pin_id) && old(self).infallible() ==> r is Ok,
            r is Ok ==> final(self).level_view() == old(self).level_view().insert(pin_id, value),
            r is Err ==> final(self).level_view() == old(self).level_view(),
            final(self).sink_view() == old(self).sink_view(),
            r matches Ok(Some(e)) ==> e.pin_id == pin_id && old(self).sink_view().contains(pin_id),
    ;
}

} // verus!
