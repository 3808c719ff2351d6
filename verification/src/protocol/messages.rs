//! Incoming notification types and the parser for LWP frames.

use vstd::prelude::*;
use vstd::slice::slice_to_vec;

use crate::protocol::{
    FEEDBACK_BUFFER_EMPTY, FEEDBACK_BUSY, FEEDBACK_COMPLETED, FEEDBACK_DISCARDED,
    MSG_HUB_ATTACHED_IO, MSG_PORT_OUTPUT_FEEDBACK, MSG_PORT_VALUE, MSG_PROPERTY,
    PORT_SPEEDOMETER, PORT_SPEEDOMETER_ALT, PROPERTY_BATTERY,
};

verus! {

/// I/O event type of Hub Attached I/O messages.
#[derive(Debug, Clone, Copy, PartialEq, Eq, Structural)]
pub enum IoEvent {
    Detached,
    Attached,
    AttachedVirtual,
}

/// Known device types from the LEGO Wireless Protocol.
#[derive(Debug, Clone, Copy, PartialEq, Eq, Structural)]
pub enum DeviceType {
    DuploTrainMotor,
    DuploTrainSpeaker,
    DuploTrainColorSensor,
    DuploTrainSpeedometer,
    RgbLight,
    Voltage,
    Unknown(u16),
}

impl DeviceType {
    /// The device type announced by a type id.
    pub open spec fn spec_from_id(id: u16) -> DeviceType {
        if id == 0x0029 {
            DeviceType::DuploTrainColorSensor
        } else if id == 0x002A || id == 0x005A {
            DeviceType::DuploTrainMotor
        } else if id == 0x002B {
            DeviceType::DuploTrainSpeaker
        } else if id == 0x002C || id == 0x005B {
            DeviceType::DuploTrainSpeedometer
        } else if id == 0x0017 {
            DeviceType::RgbLight
        } else if id == 0x0014 {
            DeviceType::Voltage
        } else {
            DeviceType::Unknown(id)
        }
    }

    /// Human-readable name of the device type.
    pub open spec fn spec_name(self) -> Seq<char> {
        match self {
            DeviceType::DuploTrainMotor => "DUPLO Train Motor"@,
            DeviceType::DuploTrainSpeaker => "DUPLO Train Speaker"@,
            DeviceType::DuploTrainColorSensor => "DUPLO Train Color Sensor"@,
            DeviceType::DuploTrainSpeedometer => "DUPLO Train Speedometer"@,
            DeviceType::RgbLight => "RGB Light"@,
            DeviceType::Voltage => "Voltage Sensor"@,
            DeviceType::Unknown(_) => "Unknown Device"@,
        }
    }

    /// Map a device type id to its device type.
    pub fn from_id(id: u16) -> (device: Self)
        ensures
            device == Self::spec_from_id(id),
    {
        match id {
            0x0029 => DeviceType::DuploTrainColorSensor,
            0x002A => DeviceType::DuploTrainMotor,
            0x002B => DeviceType::DuploTrainSpeaker,
            0x002C => DeviceType::DuploTrainSpeedometer,
            0x0017 => DeviceType::RgbLight,
            0x0014 => DeviceType::Voltage,
            0x005A => DeviceType::DuploTrainMotor,
            0x005B => DeviceType::DuploTrainSpeedometer,
            other => DeviceType::Unknown(other),
        }
    }

    /// Human-readable name of the device type.
    pub fn name(&self) -> (name: &'static str)
        ensures
            name@ == self.spec_name(),
    {
        match self {
            DeviceType::DuploTrainMotor => "DUPLO Train Motor",
            DeviceType::DuploTrainSpeaker => "DUPLO Train Speaker",
            DeviceType::DuploTrainColorSensor => "DUPLO Train Color Sensor",
            DeviceType::DuploTrainSpeedometer => "DUPLO Train Speedometer",
            DeviceType::RgbLight => "RGB Light",
            DeviceType::Voltage => "Voltage Sensor",
            DeviceType::Unknown(_) => "Unknown Device",
        }
    }
}

/// Result of a command execution as reported by the hub.
#[derive(Debug, Clone, Copy, PartialEq, Eq, Structural)]
pub enum CommandFeedback {
    Completed,
    Discarded,
    Busy,
    BufferUpdate { empty: bool },
}

/// Parsed message from a BLE notification.
#[derive(Debug, Clone, PartialEq, Eq)]
pub enum ParsedMessage {
    Battery(u8),
    HubAttachedIo { port_id: u8, event: IoEvent, device_type: Option<DeviceType> },
    Speedometer(i16),
    Feedback { port_id: u8, feedback: CommandFeedback },
    Unknown { msg_type: u8, data: Vec<u8> },
}

/// Mathematical value of a [`ParsedMessage`]: the raw bytes of an unknown
/// message are a sequence.
pub enum ParsedMessageView {
    Battery(u8),
    HubAttachedIo { port_id: u8, event: IoEvent, device_type: Option<DeviceType> },
    Speedometer(i16),
    Feedback { port_id: u8, feedback: CommandFeedback },
    Unknown { msg_type: u8, data: Seq<u8> },
}

impl View for ParsedMessage {
    type V = ParsedMessageView;

    open spec fn view(&self) -> ParsedMessageView {
        match self {
            ParsedMessage::Battery(b) => ParsedMessageView::Battery(*b),
            ParsedMessage::HubAttachedIo { port_id, event, device_type } => {
                ParsedMessageView::HubAttachedIo {
                    port_id: *port_id,
                    event: *event,
                    device_type: *device_type,
                }
            },
            ParsedMessage::Speedometer(s) => ParsedMessageView::Speedometer(*s),
            ParsedMessage::Feedback { port_id, feedback } => ParsedMessageView::Feedback {
                port_id: *port_id,
                feedback: *feedback,
            },
            ParsedMessage::Unknown { msg_type, data } => ParsedMessageView::Unknown {
                msg_type: *msg_type,
                data: data@,
            },
        }
    }
}

/// Unsigned 16-bit value of two little-endian bytes.
pub open spec fn le_u16(lo: u8, hi: u8) -> u16 {
    (lo as int + 256 * hi as int) as u16
}

/// Signed 16-bit value of two little-endian two's-complement bytes.
pub open spec fn le_i16(lo: u8, hi: u8) -> i16 {
    let u = lo as int + 256 * hi as int;
    (if u < 32768 {
        u
    } else {
        u - 65536
    }) as i16
}

/// Sign extension of a two's-complement byte to 16 bits.
pub open spec fn sign_extend_byte(b: u8) -> i16 {
    (if b < 128 {
        b as int
    } else {
        b as int - 256
    }) as i16
}

/// Whether any bit of `mask` is set in `b`.
pub open spec fn has_flag(b: u8, mask: u8) -> bool {
    b & mask != 0
}

/// Decoded property message (message type 0x01).
pub open spec fn spec_parse_property(data: Seq<u8>) -> Option<ParsedMessageView> {
    if data.len() >= 6 && data[3] == PROPERTY_BATTERY {
        Some(ParsedMessageView::Battery(data[5]))
    } else {
        Some(ParsedMessageView::Unknown { msg_type: MSG_PROPERTY, data })
    }
}

/// Device type carried by an attach event, when the frame is long enough.
pub open spec fn spec_attached_type(data: Seq<u8>) -> Option<DeviceType> {
    if data.len() >= 7 {
        Some(DeviceType::spec_from_id(le_u16(data[5], data[6])))
    } else {
        None
    }
}

/// Decoded Hub Attached I/O message (message type 0x04).
pub open spec fn spec_parse_hub_attached_io(data: Seq<u8>) -> Option<ParsedMessageView> {
    if data.len() < 5 {
        None
    } else if data[4] == 0 {
        Some(
            ParsedMessageView::HubAttachedIo {
                port_id: data[3],
                event: IoEvent::Detached,
                device_type: None,
            },
        )
    } else if data[4] == 1 {
        Some(
            ParsedMessageView::HubAttachedIo {
                port_id: data[3],
                event: IoEvent::Attached,
                device_type: spec_attached_type(data),
            },
        )
    } else if data[4] == 2 {
        Some(
            ParsedMessageView::HubAttachedIo {
                port_id: data[3],
                event: IoEvent::AttachedVirtual,
                device_type: spec_attached_type(data),
            },
        )
    } else {
        Some(ParsedMessageView::Unknown { msg_type: MSG_HUB_ATTACHED_IO, data })
    }
}

/// Decoded port value message (message type 0x45).
pub open spec fn spec_parse_port_value(data: Seq<u8>) -> Option<ParsedMessageView> {
    if data.len() < 5 {
        None
    } else if data[3] == PORT_SPEEDOMETER || data[3] == PORT_SPEEDOMETER_ALT {
        if data.len() >= 6 {
            Some(ParsedMessageView::Speedometer(le_i16(data[4], data[5])))
        } else {
            Some(ParsedMessageView::Speedometer(sign_extend_byte(data[4])))
        }
    } else {
        Some(ParsedMessageView::Unknown { msg_type: MSG_PORT_VALUE, data })
    }
}

/// The feedback reported by a feedback byte: completion wins over discard,
/// discard over busy; otherwise a buffer update.
pub open spec fn spec_feedback(b: u8) -> CommandFeedback {
    if has_flag(b, FEEDBACK_COMPLETED) {
        CommandFeedback::Completed
    } else if has_flag(b, FEEDBACK_DISCARDED) {
        CommandFeedback::Discarded
    } else if has_flag(b, FEEDBACK_BUSY) {
        CommandFeedback::Busy
    } else {
        CommandFeedback::BufferUpdate { empty: has_flag(b, FEEDBACK_BUFFER_EMPTY) }
    }
}

/// Decoded port output feedback message (message type 0x82).
pub open spec fn spec_parse_feedback(data: Seq<u8>) -> Option<ParsedMessageView> {
    if data.len() < 5 {
        None
    } else {
        Some(ParsedMessageView::Feedback { port_id: data[3], feedback: spec_feedback(data[4]) })
    }
}

/// Decoded LWP frame: `None` for frames too short for their message type.
pub open spec fn spec_parse_message(data: Seq<u8>) -> Option<ParsedMessageView> {
    if data.len() < 3 {
        None
    } else if data[2] == MSG_PROPERTY {
        spec_parse_property(data)
    } else if data[2] == MSG_HUB_ATTACHED_IO {
        spec_parse_hub_attached_io(data)
    } else if data[2] == MSG_PORT_VALUE {
        spec_parse_port_value(data)
    } else if data[2] == MSG_PORT_OUTPUT_FEEDBACK {
        spec_parse_feedback(data)
    } else {
        Some(ParsedMessageView::Unknown { msg_type: data[2], data })
    }
}

/// Whether an optional parsed message has the given mathematical value.
pub open spec fn parsed_matches(res: Option<ParsedMessage>, spec: Option<ParsedMessageView>) -> bool {
    match res {
        None => spec is None,
        Some(m) => spec == Some(m@),
    }
}

fn to_unknown(msg_type: u8, data: &[u8]) -> (msg: ParsedMessage)
    ensures
        msg@ == (ParsedMessageView::Unknown { msg_type, data: data@ }),
{
    let bytes = slice_to_vec(data);
    ParsedMessage::Unknown { msg_type, data: bytes }
}

/// Parse a complete LWP message from a BLE notification payload.
pub fn parse_message(data: &[u8]) -> (msg: Option<ParsedMessage>)
    ensures
        parsed_matches(msg, spec_parse_message(data@)),
{
    if data.len() < 3 {
        return None;
    }
    let msg_type = data[2];
    if msg_type == MSG_PROPERTY {
        parse_property_message(data)
    } else if msg_type == MSG_HUB_ATTACHED_IO {
        parse_hub_attached_io(data)
    } else if msg_type == MSG_PORT_VALUE {
        parse_port_value(data)
    } else if msg_type == MSG_PORT_OUTPUT_FEEDBACK {
        parse_feedback_message(data)
    } else {
        Some(to_unknown(msg_type, data))
    }
}

fn parse_property_message(data: &[u8]) -> (msg: Option<ParsedMessage>)
    ensures
        parsed_matches(msg, spec_parse_property(data@)),
{
    if data.len() >= 6 && data[3] == PROPERTY_BATTERY {
        Some(ParsedMessage::Battery(data[5]))
    } else {
        Some(to_unknown(MSG_PROPERTY, data))
    }
}

fn attached_type(data: &[u8]) -> (device: Option<DeviceType>)
    ensures
        device == spec_attached_type(data@),
{
    if data.len() >= 7 {
        let type_id: u16 = data[5] as u16 + 256 * data[6] as u16;
        Some(DeviceType::from_id(type_id))
    } else {
        None
    }
}

fn parse_hub_attached_io(data: &[u8]) -> (msg: Option<ParsedMessage>)
    ensures
        parsed_matches(msg, spec_parse_hub_attached_io(data@)),
{
    if data.len() < 5 {
        return None;
    }
    let port_id = data[3];
    let event_byte = data[4];
    if event_byte == 0 {
        Some(ParsedMessage::HubAttachedIo { port_id, event: IoEvent::Detached, device_type: None })
    } else if event_byte == 1 {
        Some(
            ParsedMessage::HubAttachedIo {
                port_id,
                event: IoEvent::Attached,
                device_type: attached_type(data),
            },
        )
    } else if event_byte == 2 {
        Some(
            ParsedMessage::HubAttachedIo {
                port_id,
                event: IoEvent::AttachedVirtual,
                device_type: attached_type(data),
            },
        )
    } else {
        Some(to_unknown(MSG_HUB_ATTACHED_IO, data))
    }
}

fn i16_from_le(lo: u8, hi: u8) -> (v: i16)
    ensures
        v == le_i16(lo, hi),
{
    let u: i32 = lo as i32 + 256 * hi as i32;
    if u < 32768 {
        u as i16
    } else {
        (u - 65536) as i16
    }
}

fn sign_extend(b: u8) -> (v: i16)
    ensures
        v == sign_extend_byte(b),
{
    if b < 128 {
        b as i16
    } else {
        b as i16 - 256
    }
}

fn parse_port_value(data: &[u8]) -> (msg: Option<ParsedMessage>)
    ensures
        parsed_matches(msg, spec_parse_port_value(data@)),
{
    if data.len() < 5 {
        return None;
    }
    let port_id = data[3];
    if port_id == PORT_SPEEDOMETER || port_id == PORT_SPEEDOMETER_ALT {
        if data.len() >= 6 {
            Some(ParsedMessage::Speedometer(i16_from_le(data[4], data[5])))
        } else {
            Some(ParsedMessage::Speedometer(sign_extend(data[4])))
        }
    } else {
        Some(to_unknown(MSG_PORT_VALUE, data))
    }
}

fn feedback_of(b: u8) -> (fb: CommandFeedback)
    ensures
        fb == spec_feedback(b),
{
    if b & FEEDBACK_COMPLETED != 0 {
        CommandFeedback::Completed
    } else if b & FEEDBACK_DISCARDED != 0 {
        CommandFeedback::Discarded
    } else if b & FEEDBACK_BUSY != 0 {
        CommandFeedback::Busy
    } else {
        CommandFeedback::BufferUpdate { empty: b & FEEDBACK_BUFFER_EMPTY != 0 }
    }
}

fn parse_feedback_message(data: &[u8]) -> (msg: Option<ParsedMessage>)
    ensures
        parsed_matches(msg, spec_parse_feedback(data@)),
{
    if data.len() < 5 {
        return None;
    }
    Some(ParsedMessage::Feedback { port_id: data[3], feedback: feedback_of(data[4]) })
}

} // verus!
