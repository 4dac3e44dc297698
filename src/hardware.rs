use vstd::prelude::*;

use std::collections::HashMap;

use crate::config::{EdgeDetect, GpioCapability, PinConfig};
use crate::error::AppError;
use crate::gpio::{settings_of, validate_pin_settings, EdgeEvent, PinSettings};

verus! {

broadcast use vstd::std_specs::hash::group_hash_axioms;

/// Direction of a kernel line.
#[derive(Debug, Clone, Copy, PartialEq, Eq, Structural)]
pub enum LineDirection {
    Input,
    Output,
}

/// Output drive of a kernel line.
#[derive(Debug, Clone, Copy, PartialEq, Eq, Structural)]
pub enum LineDrive {
    PushPull,
    OpenDrain,
    OpenSource,
}

/// Input bias of a kernel line.
#[derive(Debug, Clone, Copy, PartialEq, Eq, Structural)]
pub enum LineBias {
    Unbiased,
    PullUp,
    PullDown,
}

/// Edges a kernel line reports.
#[derive(Debug, Clone, Copy, PartialEq, Eq, Structural)]
pub enum LineEdge {
    Rising,
    Falling,
    Both,
}

/// The kernel line configuration for one pin's settings: outputs get a
/// drive, inputs a bias; with edge detection on, the edges, a realtime event
/// clock and the debounce period.
#[derive(Debug, Clone, Copy, PartialEq, Eq, Structural)]
pub struct LineSettings {
    pub direction: LineDirection,
    pub drive: Option<LineDrive>,
    pub bias: Option<LineBias>,
    pub edge_detection: Option<LineEdge>,
    pub realtime_clock: bool,
    pub debounce_ms: u64,
}

/// The line configuration for a state other than disabled or the error
/// sentinel, by the state table.
pub open spec fn line_settings_for(s: PinSettings) -> LineSettings {
    let (direction, drive, bias) = match s.state {
        GpioCapability::PushPull => (LineDirection::Output, Some(LineDrive::PushPull), None),
        GpioCapability::OpenDrain => (LineDirection::Output, Some(LineDrive::OpenDrain), None),
        GpioCapability::OpenSource => (LineDirection::Output, Some(LineDrive::OpenSource), None),
        GpioCapability::Floating => (LineDirection::Input, None, Some(LineBias::Unbiased)),
        GpioCapability::PullUp => (LineDirection::Input, None, Some(LineBias::PullUp)),
        _ => (LineDirection::Input, None, Some(LineBias::PullDown)),
    };
    let edges = !(s.edge is NoEdge) && s.state.spec_is_edge_detectable();
    LineSettings {
        direction,
        drive,
        bias,
        edge_detection: if !edges {
            None
        } else {
            match s.edge {
                EdgeDetect::Rising => Some(LineEdge::Rising),
                EdgeDetect::Falling => Some(LineEdge::Falling),
                _ => Some(LineEdge::Both),
            }
        },
        realtime_clock: edges,
        debounce_ms: if edges {
            s.debounce_ms
        } else {
            0
        },
    }
}

/// The kernel line configuration for `settings`; a disabled pin or the error
/// sentinel has none.
pub fn make_line_settings(settings: &PinSettings) -> (r: Result<LineSettings, AppError>)
    ensures
        settings.state is Error || settings.state is Disabled ==> r matches Err(
            AppError::InvalidState(_),
        ),
        !(settings.state is Error || settings.state is Disabled) ==> r == Ok::<
            LineSettings,
            AppError,
        >(line_settings_for(*settings)),
{
    let (direction, drive, bias) = match settings.state {
        GpioCapability::Error | GpioCapability::Disabled => {
            return Err(
                AppError::InvalidState(
                    "cannot create settings for error or disabled state".to_string(),
                ),
            );
        },
        GpioCapability::PushPull => (LineDirection::Output, Some(LineDrive::PushPull), None),
        GpioCapability::OpenDrain => (LineDirection::Output, Some(LineDrive::OpenDrain), None),
        GpioCapability::OpenSource => (LineDirection::Output, Some(LineDrive::OpenSource), None),
        GpioCapability::Floating => (LineDirection::Input, None, Some(LineBias::Unbiased)),
        GpioCapability::PullUp => (LineDirection::Input, None, Some(LineBias::PullUp)),
        GpioCapability::PullDown => (LineDirection::Input, None, Some(LineBias::PullDown)),
    };
    let mut ls = LineSettings {
        direction,
        drive,
        bias,
        edge_detection: None,
        realtime_clock: false,
        debounce_ms: 0,
    };
    if settings.edge != EdgeDetect::NoEdge && settings.state.is_edge_detectable() {
        ls.edge_detection = match settings.edge {
            EdgeDetect::NoEdge => None,
            EdgeDetect::Rising => Some(LineEdge::Rising),
            EdgeDetect::Falling => Some(LineEdge::Falling),
            EdgeDetect::Both => Some(LineEdge::Both),
        };
        ls.realtime_clock = true;
        ls.debounce_ms = settings.debounce_ms;
    }
    Ok(ls)
}

/// A pin's entry in the kernel backend's registry: its line offset, the
/// settings applied, and whether an edge listener runs on its line request.
#[derive(Debug, Clone, Copy, PartialEq, Eq, Structural)]
pub struct LineHandle {
    pub line: u32,
    pub settings: PinSettings,
    pub listener: bool,
}

/// What the kernel backend does to apply settings, in this order: stop and
/// join the listener; release the line request; request the line anew (on
/// `open_line`) or reconfigure the held request, with `line_settings`; start a
/// listener. `next` is the pin's registry entry afterwards.
#[derive(Debug, Clone, Copy, PartialEq, Eq, Structural)]
pub struct SettingsPlan {
    pub stop_listener: bool,
    pub release: bool,
    pub open_line: Option<u32>,
    pub reconfigure: bool,
    pub line_settings: Option<LineSettings>,
    pub start_listener: bool,
    pub next: Option<LineHandle>,
}

/// The plan for valid `settings` on a pin whose registry entry is `current`
/// and whose declared line is `line`; `has_sink` says whether edges have
/// somewhere to go.
///
/// A listener is wanted afterwards exactly when the pin stays configured with
/// edges on and either one already runs or edges have somewhere to go. A
/// running listener that is not wanted is stopped, first; a wanted one that
/// does not run is started, last. Disabling releases the line request of a
/// configured pin; otherwise a configured pin is reconfigured in place on its
/// line, and a new one gets a request for its declared line.
pub open spec fn plan_for(
    current: Option<LineHandle>,
    line: u32,
    settings: PinSettings,
    has_sink: bool,
) -> SettingsPlan {
    let disabling = settings.state is Disabled;
    let running = current matches Some(h) && h.listener;
    let wanted = !disabling && !(settings.edge is NoEdge) && (running || has_sink);
    SettingsPlan {
        stop_listener: running && !wanted,
        release: disabling && current is Some,
        open_line: if !disabling && current is None {
            Some(line)
        } else {
            None
        },
        reconfigure: !disabling && current is Some,
        line_settings: if disabling {
            None
        } else {
            Some(line_settings_for(settings))
        },
        start_listener: wanted && !running,
        next: if disabling {
            None
        } else {
            Some(
                LineHandle {
                    line: match current {
                        Some(h) => h.line,
                        None => line,
                    },
                    settings,
                    listener: wanted,
                },
            )
        },
    }
}

/// Decides how the kernel backend applies `settings` to a pin: invalid
/// settings are refused before anything is touched; disabling tears the entry
/// down, listener first; a configured pin is reconfigured in place on its held
/// line request, its listener stopped before when edges go off and started
/// after when they come on; a new pin gets a line request and, with edges
/// on, a listener.
pub fn plan_settings_change(
    current: Option<LineHandle>,
    line: u32,
    settings: &PinSettings,
    has_sink: bool,
) -> (r: Result<SettingsPlan, AppError>)
    ensures
        !settings.valid() ==> r matches Err(AppError::InvalidState(_)),
        settings.valid() ==> r == Ok::<SettingsPlan, AppError>(
            plan_for(current, line, *settings, has_sink),
        ),
{
    validate_pin_settings(settings)?;
    let wants = settings.edge != EdgeDetect::NoEdge && has_sink;
    if settings.state == GpioCapability::Disabled {
        let stop = match current {
            Some(h) => h.listener,
            None => false,
        };
        return Ok(
            SettingsPlan {
                stop_listener: stop,
                release: current.is_some(),
                open_line: None,
                reconfigure: false,
                line_settings: None,
                start_listener: false,
                next: None,
            },
        );
    }
    let line_settings = make_line_settings(settings)?;
    match current {
        Some(h) => {
            let stop = settings.edge == EdgeDetect::NoEdge && h.listener;
            let keeps = h.listener && !stop;
            let start = !keeps && wants;
            Ok(
                SettingsPlan {
                    stop_listener: stop,
                    release: false,
                    open_line: None,
                    reconfigure: true,
                    line_settings: Some(line_settings),
                    start_listener: start,
                    next: Some(LineHandle { line: h.line, settings: *settings, listener: keeps || start }),
                },
            )
        },
        None => Ok(
            SettingsPlan {
                stop_listener: false,
                release: false,
                open_line: Some(line),
                reconfigure: false,
                line_settings: Some(line_settings),
                start_listener: wants,
                next: Some(LineHandle { line, settings: *settings, listener: wants }),
            },
        ),
    }
}

/// Listener lifecycle: on a configured pin whose edges are on, with its
/// listener running, turning edges off stops and joins that listener and
/// starts none; turning them on again starts exactly one; at every step a pin
/// has at most one listener, and a stop always precedes the reconfigure.
pub proof fn lemma_listener_toggle(
    h: LineHandle,
    line: u32,
    off: PinSettings,
    on: PinSettings,
    has_sink: bool,
)
    requires
        h.listener,
        off.valid(),
        on.valid(),
        !(off.state is Disabled),
        off.edge is NoEdge,
        !(on.edge is NoEdge),
        has_sink,
    ensures
        ({
            let off_plan = plan_for(Some(h), line, off, has_sink);
            let on_plan = plan_for(off_plan.next, line, on, has_sink);
            &&& off_plan.stop_listener && !off_plan.start_listener && off_plan.reconfigure
            &&& off_plan.next matches Some(after_off) && !after_off.listener
            &&& !on_plan.stop_listener && on_plan.start_listener && on_plan.reconfigure
            &&& on_plan.next matches Some(after_on) && after_on.listener && after_on.line == h.line
        }),
{
}

/// How the kernel reports the kind of an edge event.
#[derive(Debug, Clone, Copy, PartialEq, Eq, Structural)]
pub enum HwEdgeKind {
    Rising,
    Falling,
    Unknown,
}

/// The event a listener dispatches for a kernel edge of `kind` on `pin_id` at
/// `timestamp_ns` nanoseconds of the realtime clock: malformed kinds are
/// skipped, the time is kept in whole milliseconds.
pub fn listener_event(pin_id: u32, kind: HwEdgeKind, timestamp_ns: u64) -> (r: Option<EdgeEvent>)
    ensures
        kind is Unknown ==> r is None,
        kind is Rising ==> r == Some(
            EdgeEvent {
                pin_id,
                edge: EdgeDetect::Rising,
                timestamp_ms: (timestamp_ns / 1_000_000) as u64,
            },
        ),
        kind is Falling ==> r == Some(
            EdgeEvent {
                pin_id,
                edge: EdgeDetect::Falling,
                timestamp_ms: (timestamp_ns / 1_000_000) as u64,
            },
        ),
{
    let edge = match kind {
        HwEdgeKind::Rising => EdgeDetect::Rising,
        HwEdgeKind::Falling => EdgeDetect::Falling,
        HwEdgeKind::Unknown => {
            return None;
        },
    };
    Some(EdgeEvent { pin_id, edge, timestamp_ms: timestamp_ns / 1_000_000 })
}

/// The kernel backend's pin registry: for each configured pin, its line
/// handle. It decides what the kernel driver is to do (`plan`) and records
/// the outcome (`commit`); the driver itself, with its line requests and
/// listener threads, is not part of this crate.
pub struct LibgpiodBackend {
    pins: HashMap<u32, LineHandle>,
}

impl LibgpiodBackend {
    /// The line handle of each configured pin.
    pub closed spec fn registry(&self) -> Map<u32, LineHandle> {
        self.pins@
    }

    /// An empty registry.
    pub fn new() -> (r: Result<Self, AppError>)
        ensures
            r matches Ok(b) && b.registry() == Map::<u32, LineHandle>::empty(),
    {
        Ok(LibgpiodBackend { pins: HashMap::new() })
    }

    /// The registry entry of `pin`, if it is configured.
    pub fn entry(&self, pin: u32) -> (r: Option<LineHandle>)
        ensures
            r == (if self.registry().contains_key(pin) {
                Some(self.registry()[pin])
            } else {
                None
            }),
    {
        match self.pins.get(&pin) {
            Some(h) => Some(*h),
            None => None,
        }
    }

    /// The settings last applied to `pin`, or the default.
    pub fn get_settings(&self, pin: u32) -> (r: PinSettings)
        ensures
            r == settings_of(self.registry().map_values(|h: LineHandle| h.settings), pin),
    {
        match self.entry(pin) {
            Some(h) => h.settings,
            None => PinSettings::default(),
        }
    }

    /// The plan for applying `settings` to `pin`, declared as `cfg`.
    pub fn plan(&self, pin: u32, cfg: &PinConfig, settings: &PinSettings, has_sink: bool) -> (r:
        Result<SettingsPlan, AppError>)
        ensures
            !settings.valid() ==> r matches Err(AppError::InvalidState(_)),
            settings.valid() ==> r == Ok::<SettingsPlan, AppError>(
                plan_for(
                    if self.registry().contains_key(pin) {
                        Some(self.registry()[pin])
                    } else {
                        None
                    },
                    cfg.line,
                    *settings,
                    has_sink,
                ),
            ),
    {
        let current = self.entry(pin);
        plan_settings_change(current, cfg.line, settings, has_sink)
    }

    /// Records the outcome of a carried-out plan: `pin` gets the plan's entry,
    /// or leaves the registry when the plan released it.
    pub fn commit(&mut self, pin: u32, plan: &SettingsPlan)
        ensures
            final(self).registry() == match plan.next {
                Some(h) => old(self).registry().insert(pin, h),
                None => old(self).registry().remove(pin),
            },
    {
        match plan.next {
            Some(h) => {
                self.pins.insert(pin, h);
            },
            None => {
                self.pins.remove(&pin);
            },
        }
    }

    /// Where a read of `pin` goes: the line offset of a configured pin.
    pub fn read_target(&self, pin: u32) -> (r: Result<u32, AppError>)
        ensures
            !self.registry().contains_key(pin) ==> r matches Err(AppError::InvalidState(_)),
            self.registry().contains_key(pin) ==> r == Ok::<u32, AppError>(self.registry()[pin].line),
    {
        match self.entry(pin) {
            Some(h) => Ok(h.line),
            None => Err(AppError::InvalidState("pin not configured, set state first".to_string())),
        }
    }

    /// Where a write of `value` to `pin` goes: the line offset of a pin in a
    /// writable state, and whether the line is driven active (value 1; any other
    /// value drives it inactive).
    pub fn write_target(&self, pin: u32, value: u8) -> (r: Result<(u32, bool), AppError>)
        ensures
            !(self.registry().contains_key(pin) && self.registry()[pin].settings.state.spec_is_writable())
                ==> r matches Err(AppError::InvalidState(_)),
            self.registry().contains_key(pin) && self.registry()[pin].settings.state.spec_is_writable()
                ==> r == Ok::<(u32, bool), AppError>((self.registry()[pin].line, value == 1)),
    {
        match self.entry(pin) {
            None => Err(AppError::InvalidState("pin not configured, set state first".to_string())),
            Some(h) => {
                if !h.settings.state.is_writable() {
                    return Err(
                        AppError::InvalidState("pin must be in output mode to set value".to_string()),
                    );
                }
                Ok((h.line, value == 1))
            },
        }
    }
}

} // verus!
