use vstd::prelude::*;

pub mod config;
pub mod error;
pub mod events;
pub mod gpio;
pub mod hardware;
pub mod manager;
pub mod mock;
pub mod payload;

pub use config::{AppConfig, EdgeDetect, GpioCapability, HttpConfig, PinConfig};
pub use error::AppError;
pub use events::{event_bus, EventCallbackHandler};
pub use gpio::{
    capability_matches, validate_pin_settings, EdgeEvent, GpioBackend, GpioState, PinDescriptor,
    PinSettings,
};
pub use hardware::{
    listener_event, make_line_settings, plan_settings_change, HwEdgeKind, LibgpiodBackend, LineBias,
    LineDirection,
    LineDrive, LineEdge, LineHandle, LineSettings, SettingsPlan,
};
pub use manager::{GenericGpioManager, GpioManager};
pub use mock::{edge_matches, MockGpioBackend};
pub use payload::{
    event_selected, merge_settings, parse_pin_id, parse_socket_mode, parse_value_payload,
    parse_value_text,
    SettingsPayload,
};

verus! {

} // verus!
