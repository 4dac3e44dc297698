use vstd::prelude::*;

use std::collections::HashMap;
use std::time::{Instant, SystemTime, UNIX_EPOCH};

use crate::config::{EdgeDetect, GpioCapability, PinConfig};
use crate::error::AppError;
use crate::gpio::{
    applied, settings_of, validate_pin_settings, EdgeEvent, GpioBackend, PinSettings,
};

verus! {

broadcast use vstd::std_specs::hash::group_hash_axioms;

#[verifier::external_type_specification]
#[verifier::external_body]
pub struct ExInstant(Instant);

/// Relies on std's `Instant::now`: a reading of the monotonic clock.
#[verifier::external_body]
fn clock_now() -> Instant {
    Instant::now()
}

/// Relies on std's `Instant::elapsed`: the nanoseconds since `origin` (kept
/// in 64 bits, which last for five centuries).
#[verifier::external_body]
fn nanos_since(origin: &Instant) -> u64 {
    origin.elapsed().as_nanos() as u64
}

#[verifier::external_type_specification]
#[verifier::external_body]
pub struct ExSystemTime(SystemTime);

/// Relies on std's `SystemTime::now`: a reading of the wall clock.
#[verifier::external_body]
fn wall_now() -> SystemTime {
    SystemTime::now()
}

/// Relies on std's `SystemTime::duration_since`: whole milliseconds from the
/// Unix epoch to `t`, 0 for a time before it.
#[verifier::external_body]
fn epoch_millis(t: &SystemTime) -> u64 {
    match t.duration_since(UNIX_EPOCH) {
        Ok(d) => d.as_millis() as u64,
        Err(_) => 0,
    }
}

pub open spec fn spec_edge_matches(configured: EdgeDetect, observed: EdgeDetect) -> bool {
    match configured {
        EdgeDetect::NoEdge => false,
        EdgeDetect::Rising => observed is Rising,
        EdgeDetect::Falling => observed is Falling,
        EdgeDetect::Both => observed is Rising || observed is Falling,
    }
}

/// Whether a pin configured for `configured` edges reports an `observed` edge.
#[verifier::when_used_as_spec(spec_edge_matches)]
pub fn edge_matches(configured: EdgeDetect, observed: EdgeDetect) -> (r: bool)
    ensures
        r == spec_edge_matches(configured, observed),
{
    match configured {
        EdgeDetect::NoEdge => false,
        EdgeDetect::Rising => observed == EdgeDetect::Rising,
        EdgeDetect::Falling => observed == EdgeDetect::Falling,
        EdgeDetect::Both => observed == EdgeDetect::Rising || observed == EdgeDetect::Falling,
    }
}

/// The edge that a level change from `before` to `after` makes, if any.
pub open spec fn transition(before: u8, after: u8) -> Option<EdgeDetect> {
    if before == 0 && after == 1 {
        Some(EdgeDetect::Rising)
    } else if before == 1 && after == 0 {
        Some(EdgeDetect::Falling)
    } else {
        None
    }
}

/// The length of a debounce window of `debounce_ms`, in nanoseconds.
pub open spec fn window_ns(debounce_ms: u64) -> int {
    debounce_ms * 1_000_000
}

/// Whether an edge at `now` (monotonic nanoseconds) lies outside the debounce
/// window of the last reported edge (at `last`); a clock reading before `last`
/// counts as no time.
pub open spec fn debounce_allows(last: Option<u64>, now: u64, debounce_ms: u64) -> bool {
    match last {
        None => true,
        Some(t) => (if now >= t {
            now - t
        } else {
            0
        }) >= window_ns(debounce_ms),
    }
}

/// Whether the settings select the edge that a change from `before` to
/// `after` makes.
pub open spec fn selects(before: u8, after: u8, s: PinSettings) -> bool {
    match transition(before, after) {
        Some(k) => spec_edge_matches(s.edge, k),
        None => false,
    }
}

/// Whether changing the level from `before` to `after` at `now` reports an
/// edge: a transition that the settings select, outside the debounce window.
pub open spec fn fires(
    before: u8,
    after: u8,
    s: PinSettings,
    last: Option<u64>,
    now: u64,
) -> bool {
    selects(before, after, s) && debounce_allows(last, now, s.debounce_ms)
}

/// The debounce window of the software line: a second transition within
/// `debounce_ms` of a reported one is not reported, and transitions that the
/// settings select are each reported when they lie outside the window.
pub proof fn lemma_mock_debounce(
    s: PinSettings,
    last: Option<u64>,
    level: u8,
    first: u8,
    second: u8,
    t1: u64,
    t2: u64,
)
    requires
        t1 <= t2,
    ensures
        ({
            let last1 = if fires(level, first, s, last, t1) {
                Some(t1)
            } else {
                last
            };
            &&& t2 - t1 < window_ns(s.debounce_ms) ==> !(fires(level, first, s, last, t1) && fires(
                first,
                second,
                s,
                last1,
                t2,
            ))
            &&& (selects(level, first, s) && debounce_allows(last, t1, s.debounce_ms) && selects(
                first,
                second,
                s,
            ) && t2 - t1 >= window_ns(s.debounce_ms)) ==> fires(level, first, s, last, t1) && fires(
                first,
                second,
                s,
                last1,
                t2,
            )
        }),
{
}

/// The level and the time of the last reported edge after the writes `ws`
/// (value, monotonic nanoseconds), in order, from `level` and `last`.
pub open spec fn after_writes(
    s: PinSettings,
    level: u8,
    last: Option<u64>,
    ws: Seq<(u8, u64)>,
) -> (u8, Option<u64>)
    decreases ws.len(),
{
    if ws.len() == 0 {
        (level, last)
    } else {
        let prev = after_writes(s, level, last, ws.drop_last());
        let w = ws.last();
        (w.0, if fires(prev.0, w.0, s, prev.1, w.1) {
            Some(w.1)
        } else {
            prev.1
        })
    }
}

/// How many of the writes `ws` report an edge.
pub open spec fn reported(s: PinSettings, level: u8, last: Option<u64>, ws: Seq<(u8, u64)>) -> nat
    decreases ws.len(),
{
    if ws.len() == 0 {
        0
    } else {
        let prev = after_writes(s, level, last, ws.drop_last());
        let w = ws.last();
        reported(s, level, last, ws.drop_last()) + if fires(prev.0, w.0, s, prev.1, w.1) {
            1nat
        } else {
            0nat
        }
    }
}

/// Writes spaced at least a debounce window apart, each making a transition
/// that the settings select, are each reported.
pub proof fn lemma_spaced_writes_all_reported(
    s: PinSettings,
    level: u8,
    last: Option<u64>,
    ws: Seq<(u8, u64)>,
)
    requires
        ws.len() > 0 ==> debounce_allows(last, ws[0].1, s.debounce_ms) && selects(level, ws[0].0, s),
        forall|i: int|
            0 < i < ws.len() ==> selects(ws[i - 1].0, #[trigger] ws[i].0, s) && ws[i].1 >= ws[i
                - 1].1 + window_ns(s.debounce_ms),
    ensures
        reported(s, level, last, ws) == ws.len(),
        ws.len() > 0 ==> after_writes(s, level, last, ws) == (ws.last().0, Some(ws.last().1)),
    decreases ws.len(),
{
    if ws.len() > 0 {
        let init = ws.drop_last();
        assert forall|i: int| 0 < i < init.len() implies selects(init[i - 1].0, #[trigger] init[i].0, s)
            && init[i].1 >= init[i - 1].1 + window_ns(s.debounce_ms) by {
            assert(init[i] == ws[i] && init[i - 1] == ws[i - 1]);
        }
        lemma_spaced_writes_all_reported(s, level, last, init);
        if init.len() > 0 {
            assert(init.last() == ws[ws.len() - 2]);
            assert(selects(ws[ws.len() - 2].0, ws[ws.len() - 1].0, s));
        }
    }
}

/// Writes that all fall within one debounce window report at most one edge.
pub proof fn lemma_window_reports_at_most_one(
    s: PinSettings,
    level: u8,
    last: Option<u64>,
    ws: Seq<(u8, u64)>,
)
    requires
        ws.len() > 0 ==> ws.last().1 < ws[0].1 + window_ns(s.debounce_ms),
        forall|i: int| 0 < i < ws.len() ==> ws[i - 1].1 <= #[trigger] ws[i].1,
    ensures
        reported(s, level, last, ws) <= 1,
        reported(s, level, last, ws) == 1 ==> (after_writes(s, level, last, ws).1 matches Some(t)
            && ws[0].1 <= t <= ws.last().1),
        ws.len() > 0 ==> ws[0].1 <= ws.last().1,
    decreases ws.len(),
{
    if ws.len() > 0 {
        let init = ws.drop_last();
        let w = ws.last();
        assert forall|i: int| 0 < i < init.len() implies init[i - 1].1 <= #[trigger] init[i].1 by {
            assert(init[i] == ws[i] && init[i - 1] == ws[i - 1]);
        }
        if init.len() > 0 {
            assert(init[0] == ws[0]);
            assert(init.last() == ws[ws.len() - 2]);
            assert(ws[ws.len() - 2].1 <= w.1);
            assert(init.last().1 < ws[0].1 + window_ns(s.debounce_ms));
        }
        lemma_window_reports_at_most_one(s, level, last, init);
        let prev = after_writes(s, level, last, init);
        let before = reported(s, level, last, init);
        if before == 1 {
            let t = prev.1->Some_0;
            assert(ws[0].1 <= t && t <= w.1);
            assert(!debounce_allows(prev.1, w.1, s.debounce_ms));
            assert(!fires(prev.0, w.0, s, prev.1, w.1));
        } else {
            assert(before == 0);
        }
    }
}

#[derive(Clone, Copy)]
struct MockPinState {
    settings: PinSettings,
    value: u8,
    sink: bool,
    last_event: Option<u64>,
}

/// A software line backend: it remembers settings and levels, and reports
/// the edges that writes make, debounced on a monotonic clock.
pub struct MockGpioBackend {
    pins: HashMap<u32, MockPinState>,
    origin: Instant,
}

impl MockGpioBackend {
    spec fn at(&self, pin: u32) -> MockPinState {
        self.pins@[pin]
    }

    pub closed spec fn wf(&self) -> bool {
        forall|p: u32|
            #[trigger] self.pins@.contains_key(p) ==> {
                &&& self.pins@[p].value <= 1
                &&& self.pins@[p].settings.valid()
                &&& self.pins@[p].settings.state is Disabled ==> self.pins@[p].value == 0
            }
    }

    /// Whether `pin` is configured (set to a state other than disabled).
    pub closed spec fn configured(&self, pin: u32) -> bool {
        self.pins@.contains_key(pin) && !(self.at(pin).settings.state is Disabled)
    }

    /// The settings of a configured pin.
    pub closed spec fn settings_at(&self, pin: u32) -> PinSettings {
        self.at(pin).settings
    }

    /// The level of a configured pin.
    pub closed spec fn level_at(&self, pin: u32) -> u8 {
        self.at(pin).value
    }

    /// Whether edges of a configured pin are handed out.
    pub closed spec fn sink_at(&self, pin: u32) -> bool {
        self.at(pin).sink
    }

    /// The monotonic time, in nanoseconds, of the last reported edge of a
    /// configured pin.
    pub closed spec fn last_event_at(&self, pin: u32) -> Option<u64> {
        self.at(pin).last_event
    }

    /// A backend with no pin configured.
    pub fn new() -> (r: Self)
        ensures
            r.wf(),
            forall|p: u32| !#[trigger] r.configured(p),
    {
        MockGpioBackend { pins: HashMap::new(), origin: clock_now() }
    }

    fn lookup(&self, pin: u32) -> (r: Option<MockPinState>)
        requires
            self.wf(),
        ensures
            r is None <==> !self.pins@.contains_key(pin),
            r matches Some(st) ==> st == self.pins@[pin],
    {
        match self.pins.get(&pin) {
            Some(st) => Some(*st),
            None => None,
        }
    }

    /// Drives `value` onto `pin_id` at monotonic time `now_ns` (wall clock
    /// `wall_ms`). A transition that the pin's edge setting selects, outside the
    /// debounce window of the last reported edge, is reported: it becomes the
    /// last edge, and the event is returned when edges are handed out.
    pub fn write_value_at(&mut self, pin_id: u32, value: u8, now_ns: u64, wall_ms: u64) -> (r:
        Result<Option<EdgeEvent>, AppError>)
        requires
            old(self).wf(),
            value <= 1,
        ensures
            final(self).wf(),
            final(self).sink_view() == old(self).sink_view(),
            r matches Ok(Some(e)) ==> old(self).sink_view().contains(e.pin_id),
            !(old(self).configured(pin_id) && old(self).settings_at(pin_id).state.spec_is_writable()) ==> (r matches Err(AppError::InvalidState(_))) && *final(self) == *old(self),
            old(self).configured(pin_id) && old(self).settings_at(pin_id).state.spec_is_writable()
                ==> {
                let s = old(self).settings_at(pin_id);
                let before = old(self).level_at(pin_id);
                let fired = fires(before, value, s, old(self).last_event_at(pin_id), now_ns);
                &&& final(self).settings_view() == old(self).settings_view()
                &&& final(self).level_view() == old(self).level_view().insert(pin_id, value)
                &&& final(self).configured(pin_id)
                &&& final(self).settings_at(pin_id) == s
                &&& final(self).sink_at(pin_id) == old(self).sink_at(pin_id)
                &&& final(self).last_event_at(pin_id) == if fired {
                    Some(now_ns)
                } else {
                    old(self).last_event_at(pin_id)
                }
                &&& r == Ok::<Option<EdgeEvent>, AppError>(
                    if fired && old(self).sink_at(pin_id) {
                        Some(
                            EdgeEvent {
                                pin_id,
                                edge: transition(before, value).unwrap(),
                                timestamp_ms: wall_ms,
                            },
                        )
                    } else {
                        None
                    },
                )
            },
            forall|p: u32|
                p != pin_id ==> {
                    &&& #[trigger] final(self).configured(p) == old(self).configured(p)
                    &&& old(self).configured(p) ==> {
                        &&& final(self).settings_at(p) == old(self).settings_at(p)
                        &&& final(self).level_at(p) == old(self).level_at(p)
                        &&& final(self).sink_at(p) == old(self).sink_at(p)
                        &&& final(self).last_event_at(p) == old(self).last_event_at(p)
                    }
                },
    {
        let cur = match self.lookup(pin_id) {
            None => {
                return Err(AppError::InvalidState("pin not configured, set state first".to_string()));
            },
            Some(c) => c,
        };
        if !cur.settings.state.is_writable() {
            return Err(AppError::InvalidState("pin must be in output mode to set value".to_string()));
        }
        let ghost pre = *self;
        let edge_kind: Option<EdgeDetect> = if cur.value == 0 && value == 1 {
            Some(EdgeDetect::Rising)
        } else if cur.value == 1 && value == 0 {
            Some(EdgeDetect::Falling)
        } else {
            None
        };
        let mut next = cur;
        next.value = value;
        let mut out: Option<EdgeEvent> = None;
        if let Some(kind) = edge_kind {
            if edge_matches(cur.settings.edge, kind) {
                let allow = match cur.last_event {
                    None => true,
                    Some(t) => (if now_ns >= t {
                        (now_ns - t) as u128
                    } else {
                        0
                    }) >= (cur.settings.debounce_ms as u128) * 1_000_000,
                };
                if allow {
                    next.last_event = Some(now_ns);
                    if cur.sink {
                        out = Some(EdgeEvent { pin_id, edge: kind, timestamp_ms: wall_ms });
                    }
                }
            }
        }
        self.pins.insert(pin_id, next);
        proof {
            assert(self.pins@ == pre.pins@.insert(pin_id, next));
            assert(self.settings_view() =~= pre.settings_view());
            assert(self.level_view() =~= pre.level_view().insert(pin_id, value));
            assert(self.sink_view() =~= pre.sink_view());
        }
        Ok(out)
    }

    /// Applies settings already checked against the invariants.
    fn apply(&mut self, pin_id: u32, settings: &PinSettings, attach_sink: bool)
        requires
            old(self).wf(),
            settings.valid(),
        ensures
            final(self).wf(),
            final(self).settings_view() == applied(old(self).settings_view(), pin_id, *settings),
            final(self).level_view() == if settings.state is Disabled {
                old(self).level_view().remove(pin_id)
            } else if old(self).configured(pin_id) {
                old(self).level_view()
            } else {
                old(self).level_view().insert(pin_id, 0)
            },
            final(self).sink_view() == if settings.state is Disabled || settings.edge is NoEdge
                || !attach_sink {
                old(self).sink_view().remove(pin_id)
            } else {
                old(self).sink_view().insert(pin_id)
            },
    {
        let ghost pre = *self;
        let cur = match self.lookup(pin_id) {
            Some(c) => c,
            None => MockPinState {
                settings: PinSettings::default(),
                value: 0,
                sink: false,
                last_event: None,
            },
        };
        let mut next = cur;
        next.settings = *settings;
        if settings.state == GpioCapability::Disabled {
            next.value = 0;
            next.sink = false;
        } else if settings.edge != EdgeDetect::NoEdge {
            next.sink = attach_sink;
            next.last_event = None;
        } else {
            next.sink = false;
        }
        self.pins.insert(pin_id, next);
        proof {
            assert(self.pins@ == pre.pins@.insert(pin_id, next));
            assert(self.settings_view() =~= applied(pre.settings_view(), pin_id, *settings));
            assert(self.level_view() =~= if settings.state is Disabled {
                pre.level_view().remove(pin_id)
            } else if pre.configured(pin_id) {
                pre.level_view()
            } else {
                pre.level_view().insert(pin_id, 0)
            });
            assert(self.sink_view() =~= if settings.state is Disabled || settings.edge is NoEdge
                || !attach_sink {
                pre.sink_view().remove(pin_id)
            } else {
                pre.sink_view().insert(pin_id)
            });
        }
    }
}

impl GpioBackend for MockGpioBackend {
    open spec fn inv(&self) -> bool {
        self.wf()
    }

    closed spec fn settings_view(&self) -> Map<u32, PinSettings> {
        Map::new(|p: u32| self.configured(p), |p: u32| self.settings_at(p))
    }

    closed spec fn level_view(&self) -> Map<u32, u8> {
        Map::new(|p: u32| self.configured(p), |p: u32| self.level_at(p))
    }

    closed spec fn sink_view(&self) -> Set<u32> {
        Set::new(|p: u32| self.configured(p) && self.sink_at(p))
    }

    open spec fn infallible(&self) -> bool {
        true
    }

    fn get_settings(&self, pin_id: u32) -> (r: Result<PinSettings, AppError>) {
        match self.lookup(pin_id) {
            Some(st) => Ok(st.settings),
            None => Ok(PinSettings::default()),
        }
    }

    fn set_settings(
        &mut self,
        pin_id: u32,
        pin: &PinConfig,
        settings: &PinSettings,
        attach_sink: bool,
    ) -> (r: Result<(), AppError>)
        ensures
            r is Ok <==> settings.valid(),
    {
        match validate_pin_settings(settings) {
            Err(e) => Err(e),
            Ok(()) => {
                self.apply(pin_id, settings, attach_sink);
                Ok(())
            },
        }
    }

    fn read_value(&self, pin_id: u32) -> (r: Result<u8, AppError>)
        ensures
            self.configured(pin_id) ==> r == Ok::<u8, AppError>(self.level_at(pin_id)),
    {
        match self.lookup(pin_id) {
            None => Err(AppError::InvalidState("pin not configured, set state first".to_string())),
            Some(st) => {
                if st.settings.state == GpioCapability::Disabled {
                    Err(AppError::InvalidState("pin is disabled and cannot be read".to_string()))
                } else {
                    Ok(st.value)
                }
            },
        }
    }

    fn write_value(&mut self, pin_id: u32, value: u8) -> (r: Result<Option<EdgeEvent>, AppError>)
        ensures
            r is Ok <==> old(self).configured(pin_id) && old(self).settings_at(
                pin_id,
            ).state.spec_is_writable(),
    {
        let now_ns = nanos_since(&self.origin);
        let wall = wall_now();
        let wall_ms = epoch_millis(&wall);
        self.write_value_at(pin_id, value, now_ns, wall_ms)
    }
}

/// On a fresh software backend every pin reports the default settings.
pub proof fn lemma_fresh_mock_defaults(b: MockGpioBackend, pin: u32)
    requires
        forall|p: u32| !#[trigger] b.configured(p),
    ensures
        settings_of(b.settings_view(), pin) == PinSettings::spec_default(),
{
    assert(!b.settings_view().contains_key(pin));
}

/// Round trip on the software line: once a write of `v` to a pin in a
/// writable state is accepted, the pin is still configured and reads `v`.
pub proof fn lemma_mock_write_read(
    before: MockGpioBackend,
    after: MockGpioBackend,
    pin: u32,
    v: u8,
)
    requires
        before.wf(),
        before.configured(pin),
        before.settings_at(pin).state.spec_is_writable(),
        after.settings_view() == before.settings_view(),
        after.level_view() == before.level_view().insert(pin, v),
    ensures
        after.configured(pin),
        after.level_at(pin) == v,
        after.settings_view().contains_key(pin),
{
    assert(before.settings_view().contains_key(pin));
    assert(after.settings_view().contains_key(pin));
    assert(after.level_view()[pin] == v);
}

impl Default for MockGpioBackend {
    fn default() -> (r: Self)
        ensures
            r.wf(),
            forall|p: u32| !#[trigger] r.configured(p),
    {
        MockGpioBackend::new()
    }
}

} // verus!
