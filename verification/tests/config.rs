use duplo_train_controller::config::{ConfigError, MotorConfig, MqttConfig};

fn cfg(forward: i8, boost: i8, backward: i8) -> MotorConfig {
    MotorConfig { forward, boost, boost_duration: None, backward, backward_delay: 1200 }
}

#[test]
fn validate_accepts_defaults() {
    assert!(MotorConfig::default().validate().is_ok());
}

#[test]
fn validate_accepts_boundaries() {
    assert!(cfg(1, 1, -1).validate().is_ok());
    assert!(cfg(100, 100, -100).validate().is_ok());
}

#[test]
fn validate_rejects_forward_zero() {
    let err = cfg(0, 75, -50).validate().unwrap_err();
    assert!(err.to_string().contains("MOTOR_FORWARD"));
}

#[test]
fn validate_rejects_forward_negative() {
    assert!(cfg(-10, 75, -50).validate().is_err());
}

#[test]
fn validate_rejects_forward_over_100() {
    assert!(cfg(101, 75, -50).validate().is_err());
}

#[test]
fn validate_rejects_boost_zero() {
    let err = cfg(50, 0, -50).validate().unwrap_err();
    assert!(err.to_string().contains("MOTOR_BOOST"));
}

#[test]
fn validate_rejects_boost_over_100() {
    assert!(cfg(50, 101, -50).validate().is_err());
}

#[test]
fn validate_rejects_backward_zero() {
    let err = cfg(50, 75, 0).validate().unwrap_err();
    assert!(err.to_string().contains("MOTOR_BACKWARD"));
}

#[test]
fn validate_rejects_backward_positive() {
    assert!(cfg(50, 75, 10).validate().is_err());
}

#[test]
fn validate_rejects_backward_below_neg100() {
    assert!(cfg(50, 75, -101).validate().is_err());
}

#[test]
fn mqtt_default_values() {
    let config = MqttConfig::default();
    assert_eq!(config.host, "localhost");
    assert_eq!(config.port, 1883);
    assert!(config.username.is_none());
    assert!(config.password.is_none());
    assert_eq!(config.client_id, "duplo-train-gateway");

    let config = MotorConfig::default();
    assert_eq!(config.forward, 50);
    assert_eq!(config.boost, 75);
    assert_eq!(config.boost_duration, None);
    assert_eq!(config.backward, -50);
    assert_eq!(config.backward_delay, 1200);
}

#[test]
fn error_messages_carry_setting_and_value() {
    assert_eq!(
        cfg(0, 75, -50).validate().unwrap_err().to_string(),
        "MOTOR_FORWARD must be in 1..=100 (got 0)"
    );
    assert_eq!(
        cfg(50, -128, -50).validate().unwrap_err().to_string(),
        "MOTOR_BOOST must be in 1..=100 (got -128)"
    );
    assert_eq!(
        cfg(50, 75, 127).validate().unwrap_err().to_string(),
        "MOTOR_BACKWARD must be in -100..=-1 (got 127)"
    );
}

#[test]
fn first_bad_setting_is_reported() {
    assert_eq!(cfg(0, 0, 0).validate(), Err(ConfigError::ForwardOutOfRange(0)));
    assert_eq!(cfg(50, 0, 0).validate(), Err(ConfigError::BoostOutOfRange(0)));
    assert_eq!(cfg(50, 75, 0).validate(), Err(ConfigError::BackwardOutOfRange(0)));
}

#[test]
fn default_base_topic() {
    assert_eq!(MqttConfig::default().base_topic, "duplo/train");
}

#[test]
fn normalize_maps_zero_duration_to_none() {
    let mut c = cfg(50, 75, -50);
    c.boost_duration = Some(0);
    c.normalize();
    assert_eq!(c.boost_duration, None);
    c.normalize();
    assert_eq!(c.boost_duration, None);

    let mut c = cfg(50, 75, -50);
    c.boost_duration = Some(10);
    c.normalize();
    assert_eq!(c.boost_duration, Some(10));
    assert_eq!(c.forward, 50);
    assert_eq!(c.backward_delay, 1200);
}

#[test]
fn from_settings_normalizes_then_validates() {
    let c = MotorConfig::from_settings(60, 80, Some(0), -40, 900).unwrap();
    assert_eq!(c.forward, 60);
    assert_eq!(c.boost, 80);
    assert_eq!(c.boost_duration, None);
    assert_eq!(c.backward, -40);
    assert_eq!(c.backward_delay, 900);
    let c = MotorConfig::from_settings(60, 80, Some(12), -40, 900).unwrap();
    assert_eq!(c.boost_duration, Some(12));
    assert_eq!(
        MotorConfig::from_settings(60, 0, Some(0), -40, 900).unwrap_err(),
        ConfigError::BoostOutOfRange(0)
    );
    assert_eq!(
        MotorConfig::from_settings(60, 80, None, 5, 900).unwrap_err().to_string(),
        "MOTOR_BACKWARD must be in -100..=-1 (got 5)"
    );
}
