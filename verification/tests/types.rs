use duplo_train_controller::types::{
    Command, ConnectionState, DuploSound, LedColor, StatusUpdate, TrainCommand, TrainState,
};

#[test]
fn parse_valid_commands() {
    assert_eq!("forward".parse::<TrainCommand>().unwrap(), TrainCommand::Forward);
    assert_eq!("boost".parse::<TrainCommand>().unwrap(), TrainCommand::Boost);
    assert_eq!("backward".parse::<TrainCommand>().unwrap(), TrainCommand::Backward);
    assert_eq!("stop".parse::<TrainCommand>().unwrap(), TrainCommand::Stop);
}

#[test]
fn types_parse_case_insensitive() {
    assert_eq!("FORWARD".parse::<TrainCommand>().unwrap(), TrainCommand::Forward);
    assert_eq!("Forward".parse::<TrainCommand>().unwrap(), TrainCommand::Forward);
    assert_eq!("fOrWaRd".parse::<TrainCommand>().unwrap(), TrainCommand::Forward);

    assert_eq!("red".parse::<LedColor>().unwrap(), LedColor::Red);
    assert_eq!("RED".parse::<LedColor>().unwrap(), LedColor::Red);
    assert_eq!("light_blue".parse::<LedColor>().unwrap(), LedColor::LightBlue);

    assert_eq!("brake".parse::<DuploSound>().unwrap(), DuploSound::Brake);
    assert_eq!("BRAKE".parse::<DuploSound>().unwrap(), DuploSound::Brake);
    assert_eq!(
        "station_departure".parse::<DuploSound>().unwrap(),
        DuploSound::StationDeparture
    );
}

#[test]
fn types_parse_invalid_returns_error() {
    assert!("invalid".parse::<TrainCommand>().is_err());
    assert!("".parse::<TrainCommand>().is_err());
    assert!("50".parse::<TrainCommand>().is_err());

    assert!("invalid".parse::<LedColor>().is_err());
    assert!("".parse::<LedColor>().is_err());

    assert!("invalid".parse::<DuploSound>().is_err());
    assert!("".parse::<DuploSound>().is_err());
    assert!("silence".parse::<DuploSound>().is_err());
}

#[test]
fn display_lowercase() {
    assert_eq!(TrainCommand::Forward.to_string(), "forward");
    assert_eq!(TrainCommand::Boost.to_string(), "boost");
    assert_eq!(TrainCommand::Backward.to_string(), "backward");
    assert_eq!(TrainCommand::Stop.to_string(), "stop");
}

#[test]
fn allows_repeat_for_forward_and_boost() {
    assert!(TrainCommand::Forward.allows_repeat());
    assert!(TrainCommand::Boost.allows_repeat());
    assert!(!TrainCommand::Backward.allows_repeat());
    assert!(!TrainCommand::Stop.allows_repeat());
}

#[test]
fn types_default_is_standby() {
    assert_eq!(ConnectionState::default(), ConnectionState::Standby);
}

#[test]
fn standby_state() {
    let state = TrainState::standby();
    assert_eq!(state.status, ConnectionState::Standby);
    assert_eq!(state.attempts, 0);
    assert!(state.battery.is_none());
    assert!(state.motor.is_none());
    assert!(state.ts > 0);
}

#[test]
fn connected_state() {
    let state = TrainState::connected();
    assert_eq!(state.status, ConnectionState::Connected);
    assert_eq!(state.attempts, 0);
    assert_eq!(state.motor, Some(0));
}

#[test]
fn types_into_u8_matches_protocol() {
    assert_eq!(u8::from(LedColor::Off), 0x00);
    assert_eq!(u8::from(LedColor::White), 0x01);
    assert_eq!(u8::from(LedColor::Green), 0x07);
    assert_eq!(u8::from(LedColor::Yellow), 0x08);
    assert_eq!(u8::from(LedColor::LightBlue), 0x09);
    assert_eq!(u8::from(LedColor::DarkBlue), 0x0F);
    assert_eq!(u8::from(LedColor::Purple), 0x0A);
    assert_eq!(u8::from(LedColor::PurplePink), 0x0E);
    assert_eq!(u8::from(LedColor::LightPink), 0x0B);
    assert_eq!(u8::from(LedColor::RedPink), 0x0D);
    assert_eq!(u8::from(LedColor::Red), 0x0C);

    assert_eq!(u8::from(DuploSound::Brake), 3);
    assert_eq!(u8::from(DuploSound::StationDeparture), 5);
    assert_eq!(u8::from(DuploSound::WaterRefill), 7);
    assert_eq!(u8::from(DuploSound::Horn), 9);
    assert_eq!(u8::from(DuploSound::Steam), 10);
}

#[test]
fn names_round_trip_through_parse() {
    for c in [TrainCommand::Forward, TrainCommand::Boost, TrainCommand::Backward, TrainCommand::Stop] {
        assert_eq!(c.as_str().parse::<TrainCommand>().unwrap(), c);
        assert_eq!(TrainCommand::from_name(&c.to_string()), Some(c));
    }
    let colors = [
        LedColor::Off,
        LedColor::White,
        LedColor::Green,
        LedColor::Yellow,
        LedColor::LightBlue,
        LedColor::DarkBlue,
        LedColor::Purple,
        LedColor::PurplePink,
        LedColor::LightPink,
        LedColor::RedPink,
        LedColor::Red,
    ];
    for c in colors {
        assert_eq!(c.as_str().parse::<LedColor>().unwrap(), c);
        assert_eq!(c.to_string().to_uppercase().parse::<LedColor>().unwrap(), c);
    }
    let sounds = [
        DuploSound::Brake,
        DuploSound::StationDeparture,
        DuploSound::WaterRefill,
        DuploSound::Horn,
        DuploSound::Steam,
    ];
    for s in sounds {
        assert_eq!(s.as_str().parse::<DuploSound>().unwrap(), s);
    }
}

#[test]
fn snake_case_names() {
    assert_eq!(LedColor::LightBlue.as_str(), "light_blue");
    assert_eq!(LedColor::PurplePink.as_str(), "purple_pink");
    assert_eq!(DuploSound::StationDeparture.as_str(), "station_departure");
    assert_eq!(DuploSound::WaterRefill.to_string(), "water_refill");
}

#[test]
fn protocol_codes_are_distinct() {
    let colors = [
        LedColor::Off,
        LedColor::White,
        LedColor::Green,
        LedColor::Yellow,
        LedColor::LightBlue,
        LedColor::DarkBlue,
        LedColor::Purple,
        LedColor::PurplePink,
        LedColor::LightPink,
        LedColor::RedPink,
        LedColor::Red,
    ];
    for (i, a) in colors.iter().enumerate() {
        for (j, b) in colors.iter().enumerate() {
            assert_eq!(i == j, u8::from(*a) == u8::from(*b));
        }
    }
}

#[test]
fn apply_keeps_battery_led_and_sound() {
    let mut state = TrainState::connected_at(100);
    state.battery = Some(42);
    state.led = Some(LedColor::Green);
    state.last_sound = Some(DuploSound::Steam);
    state.motor = Some(30);
    state.apply(TrainState::standby_at(200));
    assert_eq!(state.status, ConnectionState::Standby);
    assert_eq!(state.battery, Some(42));
    assert_eq!(state.led, Some(LedColor::Green));
    assert_eq!(state.last_sound, Some(DuploSound::Steam));
    assert_eq!(state.motor, None);
    assert_eq!(state.ts, 200);
}

#[test]
fn touch_changes_only_timestamp() {
    let mut state = TrainState::connected_at(5);
    state.battery = Some(9);
    state.touch();
    assert!(state.ts > 5);
    assert_eq!(state.battery, Some(9));
    assert_eq!(state.status, ConnectionState::Connected);
    assert_eq!(state.motor, Some(0));
    assert_eq!(state.speed, Some(0));
}

#[test]
fn default_train_state_is_standby() {
    let state = TrainState::default();
    assert_eq!(state.status, ConnectionState::Standby);
    assert!(state.ts > 0);
}

#[test]
fn command_and_update_values() {
    let c = Command::Train(TrainCommand::Stop);
    assert_eq!(c, Command::Train(TrainCommand::Stop));
    assert_ne!(c, Command::Led(LedColor::Red));
    let u = StatusUpdate::Battery(50);
    assert!(matches!(u, StatusUpdate::Battery(50)));
}
