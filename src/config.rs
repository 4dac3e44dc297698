use vstd::prelude::*;

verus! {

/// An electrical mode that a pin may be put in; also the state a pin is in.
#[derive(Debug, Clone, Copy, PartialEq, Eq, Hash, Structural)]
pub enum GpioCapability {
    Error,
    Disabled,
    PushPull,
    OpenDrain,
    OpenSource,
    Floating,
    PullUp,
    PullDown,
}

/// Which level transitions of an input line are reported.
#[derive(Debug, Clone, Copy, PartialEq, Eq, Structural)]
pub enum EdgeDetect {
    NoEdge,
    Rising,
    Falling,
    Both,
}

impl Default for EdgeDetect {
    fn default() -> (r: Self)
        ensures
            r == EdgeDetect::NoEdge,
    {
        EdgeDetect::NoEdge
    }
}

/// Where and how the HTTP front end listens.
#[derive(Debug, Clone)]
pub struct HttpConfig {
    pub unix_socket: Option<String>,
    pub unix_socket_mode: Option<String>,
    pub host: Option<String>,
    pub path: String,
    pub timeout: u64,
}

/// A declared pin: its name, chip device, line offset and allowed modes.
#[derive(Debug, Clone)]
pub struct PinConfig {
    pub name: String,
    pub chip: String,
    pub line: u32,
    pub capabilities: Vec<GpioCapability>,
}

impl View for PinConfig {
    type V = (Seq<char>, Seq<char>, u32, Seq<GpioCapability>);

    open spec fn view(&self) -> Self::V {
        (self.name@, self.chip@, self.line, self.capabilities@)
    }
}

impl PinConfig {
    /// A copy with the same name, chip, line and capabilities.
    pub fn duplicate(&self) -> (r: PinConfig)
        ensures
            r@ == self@,
    {
        let mut caps: Vec<GpioCapability> = Vec::new();
        let mut i: usize = 0;
        while i < self.capabilities.len()
            invariant
                i <= self.capabilities@.len(),
                caps@ == self.capabilities@.subrange(0, i as int),
            decreases self.capabilities@.len() - i,
        {
            caps.push(self.capabilities[i]);
            i = i + 1;
        }
        assert(caps@ == self.capabilities@);
        PinConfig {
            name: self.name.clone(),
            chip: self.chip.clone(),
            line: self.line,
            capabilities: caps,
        }
    }
}

/// The whole service configuration: the pins, keyed by id, and the event
/// buffer sizes.
#[derive(Debug, Clone)]
pub struct AppConfig {
    pub http: HttpConfig,
    pub gpios: Vec<(u32, PinConfig)>,
    pub broadcast_capacity: usize,
    pub event_history_capacity: usize,
}

impl AppConfig {
    /// The pin table is a map: no id occurs twice.
    pub open spec fn wf(&self) -> bool {
        forall|i: int, j: int|
            0 <= i < j < self.gpios@.len() ==> #[trigger] self.gpios@[i].0
                != #[trigger] self.gpios@[j].0
    }

    /// Whether `pin` is declared.
    pub open spec fn declares(&self, pin: u32) -> bool {
        exists|i: int| 0 <= i < self.gpios@.len() && #[trigger] self.gpios@[i].0 == pin
    }

    /// The declaration of `pin`; meaningful where `declares(pin)`.
    pub open spec fn pin_cfg(&self, pin: u32) -> PinConfig {
        let i = choose|i: int| 0 <= i < self.gpios@.len() && #[trigger] self.gpios@[i].0 == pin;
        self.gpios@[i].1
    }

    /// Finds the declaration of `pin`, as an index into the pin table.
    pub fn find_pin(&self, pin: u32) -> (r: Option<usize>)
        requires
            self.wf(),
        ensures
            r is None <==> !self.declares(pin),
            r matches Some(i) ==> i < self.gpios@.len() && self.gpios@[i as int].0 == pin
                && self.gpios@[i as int].1 == self.pin_cfg(pin),
    {
        let mut i: usize = 0;
        while i < self.gpios.len()
            invariant
                self.wf(),
                i <= self.gpios@.len(),
                forall|k: int| 0 <= k < i ==> #[trigger] self.gpios@[k].0 != pin,
            decreases self.gpios@.len() - i,
        {
            if self.gpios[i].0 == pin {
                assert(self.gpios@[i as int].0 == pin);
                assert(self.declares(pin));
                let ghost j = choose|j: int|
                    0 <= j < self.gpios@.len() && #[trigger] self.gpios@[j].0 == pin;
                proof {
                    if j < i as int {
                        assert(self.gpios@[j].0 != self.gpios@[i as int].0);
                    } else if j > i as int {
                        assert(self.gpios@[i as int].0 != self.gpios@[j].0);
                    }
                }
                return Some(i);
            }
            i = i + 1;
        }
        None
    }
}

} // verus!
