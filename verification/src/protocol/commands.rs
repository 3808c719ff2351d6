//! Outgoing frame builders for the DUPLO train hub.

use vstd::prelude::*;

use crate::protocol::buffer::{is_frame, spec_extract};
use crate::protocol::{
    MSG_PORT_INPUT_FORMAT_SETUP, MSG_PORT_OUTPUT, MSG_PROPERTY, OUTPUT_STARTUP_AND_COMPLETION,
    OUTPUT_WRITE_DIRECT_MODE_DATA, PORT_MOTOR, PORT_MULTI, PORT_SPEAKER, PROPERTY_BATTERY,
    SPEAKER_MODE, SUBCMD_HORN, SUBCMD_LED,
};

verus! {

/// The two's-complement byte of a signed 8-bit value.
pub open spec fn i8_byte(v: i8) -> u8 {
    if v >= 0 {
        v as u8
    } else {
        (v + 256) as u8
    }
}

/// Byte `k` (0 = least significant) of the little-endian encoding of `d`.
pub open spec fn le_byte(d: u32, k: nat) -> u8 {
    ((d as nat / pow256(k)) % 256) as u8
}

/// 256 raised to the power `k`.
pub open spec fn pow256(k: nat) -> nat
    decreases k,
{
    if k == 0 {
        1
    } else {
        256 * pow256((k - 1) as nat)
    }
}

/// Motor frame: port output to the drive motor, mode 0 (power), signed speed.
pub open spec fn spec_motor_command(speed: i8) -> Seq<u8> {
    seq![
        0x08u8,
        0x00u8,
        MSG_PORT_OUTPUT,
        PORT_MOTOR,
        OUTPUT_STARTUP_AND_COMPLETION,
        OUTPUT_WRITE_DIRECT_MODE_DATA,
        0x00u8,
        i8_byte(speed),
    ]
}

/// Multi-port action frame (mode 1) carrying a sub-command and its value.
pub open spec fn spec_multi_port_command(subcmd: u8, value: u8) -> Seq<u8> {
    seq![
        0x0bu8,
        0x00u8,
        MSG_PORT_OUTPUT,
        PORT_MULTI,
        OUTPUT_STARTUP_AND_COMPLETION,
        OUTPUT_WRITE_DIRECT_MODE_DATA,
        0x01u8,
        subcmd,
        0x01u8,
        value,
        0x00u8,
    ]
}

/// Horn frame.
pub open spec fn spec_horn_command() -> Seq<u8> {
    spec_multi_port_command(SUBCMD_HORN, 0x00)
}

/// LED colour frame.
pub open spec fn spec_led_color_command(color: u8) -> Seq<u8> {
    spec_multi_port_command(SUBCMD_LED, color)
}

/// Speaker frame: port output to the speaker, mode 1, sound id.
pub open spec fn spec_sound_packet(id: u8) -> Seq<u8> {
    seq![
        0x08u8,
        0x00u8,
        MSG_PORT_OUTPUT,
        PORT_SPEAKER,
        OUTPUT_STARTUP_AND_COMPLETION,
        OUTPUT_WRITE_DIRECT_MODE_DATA,
        SPEAKER_MODE,
        id,
    ]
}

/// Battery level property request.
pub open spec fn spec_battery_request() -> Seq<u8> {
    seq![0x05u8, 0x00u8, MSG_PROPERTY, PROPERTY_BATTERY, 0x05u8]
}

/// Port input format setup enabling speed notifications on `port_id`,
/// with the delta interval encoded little-endian.
pub open spec fn spec_speedometer_subscribe(port_id: u8, delta_interval: u32) -> Seq<u8> {
    seq![
        0x0Au8,
        0x00u8,
        MSG_PORT_INPUT_FORMAT_SETUP,
        port_id,
        0x00u8,
        le_byte(delta_interval, 0),
        le_byte(delta_interval, 1),
        le_byte(delta_interval, 2),
        le_byte(delta_interval, 3),
        0x01u8,
    ]
}

/// The two's-complement byte of `v`.
fn i8_to_byte(v: i8) -> (b: u8)
    ensures
        b == i8_byte(v),
{
    if v >= 0 {
        v as u8
    } else {
        (v as i16 + 256i16) as u8
    }
}

/// Motor command. Speed: -100 to 100 (negative = backward, 0 = stop).
pub fn motor_command(speed: i8) -> (packet: Vec<u8>)
    ensures
        packet@ == spec_motor_command(speed),
{
    let mut packet: Vec<u8> = Vec::with_capacity(8);
    packet.push(0x08);
    packet.push(0x00);
    packet.push(MSG_PORT_OUTPUT);
    packet.push(PORT_MOTOR);
    packet.push(OUTPUT_STARTUP_AND_COMPLETION);
    packet.push(OUTPUT_WRITE_DIRECT_MODE_DATA);
    packet.push(0x00);
    packet.push(i8_to_byte(speed));
    assert(packet@ =~= spec_motor_command(speed));
    packet
}

fn multi_port_command(subcmd_byte: u8, value: u8) -> (packet: Vec<u8>)
    ensures
        packet@ == spec_multi_port_command(subcmd_byte, value),
{
    let mut packet: Vec<u8> = Vec::with_capacity(11);
    packet.push(0x0b);
    packet.push(0x00);
    packet.push(MSG_PORT_OUTPUT);
    packet.push(PORT_MULTI);
    packet.push(OUTPUT_STARTUP_AND_COMPLETION);
    packet.push(OUTPUT_WRITE_DIRECT_MODE_DATA);
    packet.push(0x01);
    packet.push(subcmd_byte);
    packet.push(0x01);
    packet.push(value);
    packet.push(0x00);
    assert(packet@ =~= spec_multi_port_command(subcmd_byte, value));
    packet
}

/// Horn command (multi-port sub-command).
pub fn horn_command() -> (packet: Vec<u8>)
    ensures
        packet@ == spec_horn_command(),
{
    multi_port_command(SUBCMD_HORN, 0x00)
}

/// LED colour command (multi-port sub-command) for a protocol colour code.
pub fn led_color_command(color: u8) -> (packet: Vec<u8>)
    ensures
        packet@ == spec_led_color_command(color),
{
    multi_port_command(SUBCMD_LED, color)
}

/// Speaker sound packet. Targets port 0x01, mode 0x01 — the real speaker
/// channel. Only firmware-supported ids produce audio (see `DuploSound`).
pub fn sound_packet(id: u8) -> (packet: Vec<u8>)
    ensures
        packet@ == spec_sound_packet(id),
{
    let mut packet: Vec<u8> = Vec::with_capacity(8);
    packet.push(0x08);
    packet.push(0x00);
    packet.push(MSG_PORT_OUTPUT);
    packet.push(PORT_SPEAKER);
    packet.push(OUTPUT_STARTUP_AND_COMPLETION);
    packet.push(OUTPUT_WRITE_DIRECT_MODE_DATA);
    packet.push(SPEAKER_MODE);
    packet.push(id);
    assert(packet@ =~= spec_sound_packet(id));
    packet
}

/// Battery level request (also used as keep-alive).
pub fn battery_request() -> (packet: Vec<u8>)
    ensures
        packet@ == spec_battery_request(),
{
    let mut packet: Vec<u8> = Vec::with_capacity(5);
    packet.push(0x05);
    packet.push(0x00);
    packet.push(MSG_PROPERTY);
    packet.push(PROPERTY_BATTERY);
    packet.push(0x05);
    assert(packet@ =~= spec_battery_request());
    packet
}

/// Subscribe to speedometer updates on `port_id`.
/// `delta_interval` is the minimum change before a new notification is sent.
pub fn speedometer_subscribe(port_id: u8, delta_interval: u32) -> (packet: Vec<u8>)
    ensures
        packet@ == spec_speedometer_subscribe(port_id, delta_interval),
{
    let b0 = (delta_interval % 256) as u8;
    let b1 = (delta_interval / 256 % 256) as u8;
    let b2 = (delta_interval / 65536 % 256) as u8;
    let b3 = (delta_interval / 16777216 % 256) as u8;
    proof {
        reveal_with_fuel(pow256, 4);
        assert(pow256(0) == 1);
        assert(pow256(1) == 256);
        assert(pow256(2) == 65536);
        assert(pow256(3) == 16777216);
        assert(b0 == le_byte(delta_interval, 0));
        assert(b1 == le_byte(delta_interval, 1));
        assert(b2 == le_byte(delta_interval, 2));
        assert(b3 == le_byte(delta_interval, 3));
    }
    let mut packet: Vec<u8> = Vec::with_capacity(10);
    packet.push(0x0A);
    packet.push(0x00);
    packet.push(MSG_PORT_INPUT_FORMAT_SETUP);
    packet.push(port_id);
    packet.push(0x00);
    packet.push(b0);
    packet.push(b1);
    packet.push(b2);
    packet.push(b3);
    packet.push(0x01);
    assert(packet@ =~= spec_speedometer_subscribe(port_id, delta_interval));
    packet
}

/// Every outgoing frame is well formed: its first byte is its length, the
/// hub id byte is 0, and the reassembly buffer would cut it back out as
/// exactly one frame.
pub proof fn lemma_outgoing_frames_well_formed(
    speed: i8,
    color: u8,
    id: u8,
    port_id: u8,
    delta_interval: u32,
)
    ensures
        is_frame(spec_motor_command(speed)) && spec_motor_command(speed)[1] == 0,
        is_frame(spec_horn_command()) && spec_horn_command()[1] == 0,
        is_frame(spec_led_color_command(color)) && spec_led_color_command(color)[1] == 0,
        is_frame(spec_sound_packet(id)) && spec_sound_packet(id)[1] == 0,
        is_frame(spec_battery_request()) && spec_battery_request()[1] == 0,
        is_frame(spec_speedometer_subscribe(port_id, delta_interval))
            && spec_speedometer_subscribe(port_id, delta_interval)[1] == 0,
        spec_extract(spec_motor_command(speed)) == (
            seq![spec_motor_command(speed)],
            Seq::<u8>::empty(),
        ),
        spec_extract(spec_led_color_command(color)) == (
            seq![spec_led_color_command(color)],
            Seq::<u8>::empty(),
        ),
        spec_extract(spec_sound_packet(id)) == (seq![spec_sound_packet(id)], Seq::<u8>::empty()),
        spec_extract(spec_battery_request()) == (
            seq![spec_battery_request()],
            Seq::<u8>::empty(),
        ),
{
    lemma_single_frame(spec_motor_command(speed));
    lemma_single_frame(spec_led_color_command(color));
    lemma_single_frame(spec_sound_packet(id));
    lemma_single_frame(spec_battery_request());
}

/// A lone well-formed frame is cut out whole, leaving nothing buffered.
proof fn lemma_single_frame(c: Seq<u8>)
    requires
        is_frame(c),
    ensures
        spec_extract(c) == (seq![c], Seq::<u8>::empty()),
{
    let n = c[0] as int;
    assert(c.subrange(0, n) =~= c);
    assert(c.subrange(n, c.len() as int) =~= Seq::<u8>::empty());
    assert(spec_extract(c.subrange(n, c.len() as int)) == (
        Seq::<Seq<u8>>::empty(),
        Seq::<u8>::empty(),
    ));
    assert(seq![c] + Seq::<Seq<u8>>::empty() =~= seq![c]);
}

/// The signed speed survives the byte encoding: the motor byte read back as
/// a two's-complement value is the speed.
pub proof fn lemma_motor_byte_roundtrip(speed: i8)
    ensures
        (if i8_byte(speed) < 128 {
            i8_byte(speed) as int
        } else {
            i8_byte(speed) as int - 256
        }) == speed as int,
{
}

/// The four delta interval bytes recompose the interval (little-endian).
pub proof fn lemma_delta_interval_le(d: u32)
    ensures
        le_byte(d, 0) as int + 256 * le_byte(d, 1) as int + 65536 * le_byte(d, 2) as int
            + 16777216 * le_byte(d, 3) as int == d as int,
{
    reveal_with_fuel(pow256, 4);
    assert(pow256(0) == 1);
    assert(pow256(1) == 256);
    assert(pow256(2) == 65536);
    assert(pow256(3) == 16777216);
    let x = d as int;
    assert(le_byte(d, 0) as int == x % 256);
    assert(le_byte(d, 1) as int == (x / 256) % 256);
    assert(le_byte(d, 2) as int == (x / 65536) % 256);
    assert(le_byte(d, 3) as int == (x / 16777216) % 256);
    assert(x % 256 + 256 * ((x / 256) % 256) + 65536 * ((x / 65536) % 256) + 16777216 * ((x
        / 16777216) % 256) == x) by (nonlinear_arith)
        requires
            0 <= x < 4294967296,
    ;
}

} // verus!
