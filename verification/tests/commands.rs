use duplo_train_controller::protocol::{
    battery_request, horn_command, led_color_command, motor_command, sound_packet,
    speedometer_subscribe,
};

#[test]
fn motor_command_forward() {
    assert_eq!(motor_command(50), vec![0x08, 0x00, 0x81, 0x32, 0x11, 0x51, 0x00, 0x32]);
}

#[test]
fn motor_command_backward() {
    assert_eq!(motor_command(-50), vec![0x08, 0x00, 0x81, 0x32, 0x11, 0x51, 0x00, 0xCE]);
}

#[test]
fn motor_command_stop() {
    assert_eq!(motor_command(0), vec![0x08, 0x00, 0x81, 0x32, 0x11, 0x51, 0x00, 0x00]);
}

#[test]
fn horn_command_packet() {
    assert_eq!(
        horn_command(),
        vec![0x0b, 0x00, 0x81, 0x34, 0x11, 0x51, 0x01, 0x07, 0x01, 0x00, 0x00]
    );
}

#[test]
fn led_color_command_off() {
    assert_eq!(
        led_color_command(0x00),
        vec![0x0b, 0x00, 0x81, 0x34, 0x11, 0x51, 0x01, 0x04, 0x01, 0x00, 0x00]
    );
}

#[test]
fn led_color_command_red() {
    assert_eq!(
        led_color_command(0x0C),
        vec![0x0b, 0x00, 0x81, 0x34, 0x11, 0x51, 0x01, 0x04, 0x01, 0x0C, 0x00]
    );
}

#[test]
fn sound_packet_horn() {
    assert_eq!(sound_packet(9), vec![0x08, 0x00, 0x81, 0x01, 0x11, 0x51, 0x01, 0x09]);
}

#[test]
fn sound_packet_steam() {
    assert_eq!(sound_packet(10), vec![0x08, 0x00, 0x81, 0x01, 0x11, 0x51, 0x01, 0x0A]);
}

#[test]
fn sound_packet_brake() {
    assert_eq!(sound_packet(3), vec![0x08, 0x00, 0x81, 0x01, 0x11, 0x51, 0x01, 0x03]);
}

#[test]
fn battery_request_packet() {
    assert_eq!(battery_request(), vec![0x05, 0x00, 0x01, 0x06, 0x05]);
}

#[test]
fn backward_sequence_stop_command() {
    assert_eq!(motor_command(0)[7], 0x00);
}

#[test]
fn backward_sequence_horn_command() {
    let horn = horn_command();
    assert_eq!(horn[3], 0x34);
    assert_eq!(horn[7], 0x07);
}

#[test]
fn backward_sequence_motor_command() {
    assert_eq!(motor_command(-50)[7], 0xCE);
}

#[test]
fn backward_sequence_all_commands_valid() {
    let stop = motor_command(0);
    let horn = horn_command();
    let backward = motor_command(-50);
    assert_eq!(stop[2], 0x81);
    assert_eq!(horn[2], 0x81);
    assert_eq!(backward[2], 0x81);
    assert_eq!(stop[3], 0x32);
    assert_eq!(backward[3], 0x32);
    assert_eq!(horn[3], 0x34);
}

#[test]
fn motor_command_max_forward() {
    assert_eq!(motor_command(100)[7], 0x64);
}

#[test]
fn motor_command_max_backward() {
    assert_eq!(motor_command(-100)[7], 0x9C);
}

#[test]
fn motor_command_default_forward() {
    assert_eq!(motor_command(50)[7], 0x32);
}

#[test]
fn motor_command_default_boost() {
    assert_eq!(motor_command(75)[7], 0x4B);
}

#[test]
fn motor_command_default_backward() {
    assert_eq!(motor_command(-50)[7], 0xCE);
}

#[test]
fn command_structure_default_port() {
    let cmd = speedometer_subscribe(0x36, 1);
    assert_eq!(cmd[0], 0x0A);
    assert_eq!(cmd[1], 0x00);
    assert_eq!(cmd[2], 0x41);
    assert_eq!(cmd[3], 0x36);
    assert_eq!(cmd[4], 0x00);
    assert_eq!(cmd[9], 0x01);
}

#[test]
fn command_structure_alternate_port() {
    let cmd = speedometer_subscribe(0x33, 1);
    assert_eq!(cmd[3], 0x33);
}

#[test]
fn delta_interval_encoding() {
    let cmd = speedometer_subscribe(0x36, 0);
    assert_eq!(&cmd[5..9], &[0x00, 0x00, 0x00, 0x00]);

    let cmd = speedometer_subscribe(0x36, 1);
    assert_eq!(&cmd[5..9], &[0x01, 0x00, 0x00, 0x00]);

    let cmd = speedometer_subscribe(0x36, 256);
    assert_eq!(&cmd[5..9], &[0x00, 0x01, 0x00, 0x00]);
}

#[test]
fn delta_interval_all_four_bytes() {
    let cmd = speedometer_subscribe(0x36, 0x1234_5678);
    assert_eq!(&cmd[5..9], &[0x78, 0x56, 0x34, 0x12]);
    let cmd = speedometer_subscribe(0x36, u32::MAX);
    assert_eq!(&cmd[5..9], &[0xFF, 0xFF, 0xFF, 0xFF]);
}

#[test]
fn motor_byte_extremes() {
    assert_eq!(motor_command(i8::MIN)[7], 0x80);
    assert_eq!(motor_command(i8::MAX)[7], 0x7F);
    assert_eq!(motor_command(-1)[7], 0xFF);
}

#[test]
fn every_frame_starts_with_its_length() {
    let frames = vec![
        motor_command(-7),
        horn_command(),
        led_color_command(0x0A),
        sound_packet(5),
        battery_request(),
        speedometer_subscribe(0x10, 3),
    ];
    for f in frames {
        assert_eq!(f[0] as usize, f.len());
        assert_eq!(f[1], 0x00);
    }
}
