//! LEGO Wireless Protocol 3.0 definitions for LPF2 hubs.

pub mod buffer;
pub mod commands;
pub mod messages;


pub use messages::{parse_message, CommandFeedback, DeviceType, IoEvent, ParsedMessage};
pub use buffer::MessageBuffer;
pub use commands::{
    battery_request, horn_command, led_color_command, motor_command, sound_packet,
    speedometer_subscribe,
};


use vstd::prelude::*;

verus! {

/// BLE service UUID of the hub, as a 128-bit big-endian value.
pub const SERVICE_UUID: u128 = 0x00001623_1212_efde_1623_785feabcd123;

/// BLE characteristic UUID used for all LWP traffic, as a 128-bit value.
pub const CHARACTERISTIC_UUID: u128 = 0x00001624_1212_efde_1623_785feabcd123;

/// LEGO manufacturer id found in advertisement data.
pub const MANUFACTURER_ID: u16 = 0x0397;

// Hub port identifiers (byte 3 of frames addressing a port).
/// Built-in speaker.
pub const PORT_SPEAKER: u8 = 0x01;
/// Drive motor.
pub const PORT_MOTOR: u8 = 0x32;
/// Virtual port aggregating LED and horn sub-commands.
pub const PORT_MULTI: u8 = 0x34;
/// Speedometer port id reported by earlier train hubs.
pub const PORT_SPEEDOMETER: u8 = 0x36;
/// Speedometer port id reported by newer train hubs.
pub const PORT_SPEEDOMETER_ALT: u8 = 0x33;
/// `WriteDirectModeData` mode index used when targeting the speaker.
pub const SPEAKER_MODE: u8 = 0x01;

// Message type bytes (byte 2 of every frame).
/// Hub property request/response (battery level).
pub const MSG_PROPERTY: u8 = 0x01;
/// I/O device attached/detached event.
pub const MSG_HUB_ATTACHED_IO: u8 = 0x04;
/// Outgoing command targeting a port.
pub const MSG_PORT_OUTPUT: u8 = 0x81;
/// Sensor value notification.
pub const MSG_PORT_VALUE: u8 = 0x45;
/// Hub feedback for a previously sent port output command.
pub const MSG_PORT_OUTPUT_FEEDBACK: u8 = 0x82;
/// Port input format setup (single).
pub const MSG_PORT_INPUT_FORMAT_SETUP: u8 = 0x41;

// Port output command flags.
/// Execute immediately and enable command feedback (byte 4).
pub const OUTPUT_STARTUP_AND_COMPLETION: u8 = 0x11;
/// `WriteDirectModeData` sub-command (byte 5).
pub const OUTPUT_WRITE_DIRECT_MODE_DATA: u8 = 0x51;

// Multi-port sub-command bytes (byte 7 of frames to `PORT_MULTI`).
/// Set LED colour.
pub const SUBCMD_LED: u8 = 0x04;
/// Trigger horn sound.
pub const SUBCMD_HORN: u8 = 0x07;

// Bit masks in feedback frames (byte 4).
/// Command executed successfully.
pub const FEEDBACK_COMPLETED: u8 = 0x02;
/// Command rejected by the hub.
pub const FEEDBACK_DISCARDED: u8 = 0x04;
/// Port busy.
pub const FEEDBACK_BUSY: u8 = 0x10;
/// Output buffer drained to empty.
pub const FEEDBACK_BUFFER_EMPTY: u8 = 0x01;
/// Output buffer has remaining capacity.
pub const FEEDBACK_BUFFER_LOW: u8 = 0x08;

/// Hub property id of the battery level.
pub const PROPERTY_BATTERY: u8 = 0x06;

} // verus!
