//! Bridge configuration: MQTT connection settings and motor speeds.

use vstd::prelude::*;
use vstd::string::StringExecFns;

use crate::text::{append_decimal, decimal};

verus! {

/// MQTT connection settings (environment prefix `MQTT_`).
#[derive(Debug, Clone)]
pub struct MqttConfig {
    pub host: String,
    pub port: u16,
    pub username: Option<String>,
    pub password: Option<String>,
    pub client_id: String,
    pub base_topic: String,
}

impl Default for MqttConfig {
    fn default() -> (config: Self)
        ensures
            config.host@ == "localhost"@,
            config.port == 1883,
            config.username is None,
            config.password is None,
            config.client_id@ == "duplo-train-gateway"@,
            config.base_topic@ == "duplo/train"@,
    {
        MqttConfig {
            host: String::from_str("localhost"),
            port: 1883,
            username: None,
            password: None,
            client_id: String::from_str("duplo-train-gateway"),
            base_topic: String::from_str("duplo/train"),
        }
    }
}

/// Motor speed configuration.
#[derive(Debug, Clone)]
pub struct MotorConfig {
    /// Forward speed (1..=100).
    pub forward: i8,
    /// Boost speed (1..=100).
    pub boost: i8,
    /// Optional boost duration in seconds. If set, boost automatically
    /// reverts to forward speed after this duration. 0 or unset = unlimited.
    pub boost_duration: Option<u64>,
    /// Backward speed (-100..=-1).
    pub backward: i8,
    /// Delay before driving backward, in milliseconds.
    pub backward_delay: u64,
}

/// A motor speed outside the range the protocol accepts.
#[derive(Debug, Clone, Copy, PartialEq, Eq, Structural)]
pub enum ConfigError {
    /// `MOTOR_FORWARD` not in 1..=100.
    ForwardOutOfRange(i8),
    /// `MOTOR_BOOST` not in 1..=100.
    BoostOutOfRange(i8),
    /// `MOTOR_BACKWARD` not in -100..=-1.
    BackwardOutOfRange(i8),
}

impl ConfigError {
    /// Human-readable message naming the offending setting and its value.
    pub open spec fn spec_message(self) -> Seq<char> {
        match self {
            ConfigError::ForwardOutOfRange(v) => "MOTOR_FORWARD must be in 1..=100 (got "@
                + decimal(v as int) + ")"@,
            ConfigError::BoostOutOfRange(v) => "MOTOR_BOOST must be in 1..=100 (got "@ + decimal(
                v as int,
            ) + ")"@,
            ConfigError::BackwardOutOfRange(v) => "MOTOR_BACKWARD must be in -100..=-1 (got "@
                + decimal(v as int) + ")"@,
        }
    }

    /// Human-readable message naming the offending setting and its value.
    pub fn to_string(&self) -> (message: String)
        ensures
            message@ == self.spec_message(),
    {
        let (mut message, v) = match self {
            ConfigError::ForwardOutOfRange(v) => (
                String::from_str("MOTOR_FORWARD must be in 1..=100 (got "),
                *v,
            ),
            ConfigError::BoostOutOfRange(v) => (
                String::from_str("MOTOR_BOOST must be in 1..=100 (got "),
                *v,
            ),
            ConfigError::BackwardOutOfRange(v) => (
                String::from_str("MOTOR_BACKWARD must be in -100..=-1 (got "),
                *v,
            ),
        };
        append_decimal(&mut message, v as i64);
        message.append(")");
        message
    }
}

impl MotorConfig {
    /// Forward and boost speeds in 1..=100 and backward speed in -100..=-1.
    pub open spec fn spec_valid(self) -> bool {
        &&& 1 <= self.forward <= 100
        &&& 1 <= self.boost <= 100
        &&& -100 <= self.backward <= -1
    }

    /// The outcome of validation: the first setting out of range, checked in
    /// the order forward, boost, backward.
    pub open spec fn spec_validate(self) -> Result<(), ConfigError> {
        if !(1 <= self.forward <= 100) {
            Err(ConfigError::ForwardOutOfRange(self.forward))
        } else if !(1 <= self.boost <= 100) {
            Err(ConfigError::BoostOutOfRange(self.boost))
        } else if !(-100 <= self.backward <= -1) {
            Err(ConfigError::BackwardOutOfRange(self.backward))
        } else {
            Ok(())
        }
    }

    /// The boost duration after normalisation: 0 means unlimited.
    pub open spec fn spec_normalized_duration(d: Option<u64>) -> Option<u64> {
        if d == Some(0u64) {
            None
        } else {
            d
        }
    }

    /// Normalize deserialized values: maps `boost_duration: Some(0)` to
    /// `None` (0 means unlimited). Every other field is unchanged.
    pub fn normalize(&mut self)
        ensures
            final(self).boost_duration == Self::spec_normalized_duration(old(self).boost_duration),
            final(self).forward == old(self).forward,
            final(self).boost == old(self).boost,
            final(self).backward == old(self).backward,
            final(self).backward_delay == old(self).backward_delay,
    {
        if self.boost_duration == Some(0u64) {
            self.boost_duration = None;
        }
    }

    /// Verify motor speeds are within the protocol's valid signed range.
    pub fn validate(&self) -> (result: Result<(), ConfigError>)
        ensures
            result == self.spec_validate(),
            result is Ok <==> self.spec_valid(),
    {
        if !(1 <= self.forward && self.forward <= 100) {
            return Err(ConfigError::ForwardOutOfRange(self.forward));
        }
        if !(1 <= self.boost && self.boost <= 100) {
            return Err(ConfigError::BoostOutOfRange(self.boost));
        }
        if !(-100 <= self.backward && self.backward <= -1) {
            return Err(ConfigError::BackwardOutOfRange(self.backward));
        }
        Ok(())
    }
}

impl MotorConfig {
    /// The motor configuration from raw settings as read from the
    /// environment: the boost duration is normalised (0 means unlimited),
    /// then the speeds are validated; the first setting out of range is the
    /// error.
    pub fn from_settings(
        forward: i8,
        boost: i8,
        boost_duration: Option<u64>,
        backward: i8,
        backward_delay: u64,
    ) -> (result: Result<MotorConfig, ConfigError>)
        ensures
            ({
                let raw = MotorConfig { forward, boost, boost_duration, backward, backward_delay };
                match raw.spec_validate() {
                    Ok(()) => result == Ok::<MotorConfig, ConfigError>(
                        MotorConfig {
                            boost_duration: Self::spec_normalized_duration(boost_duration),
                            ..raw
                        },
                    ),
                    Err(e) => result == Err::<MotorConfig, ConfigError>(e),
                }
            }),
    {
        let mut config = MotorConfig { forward, boost, boost_duration, backward, backward_delay };
        config.normalize();
        match config.validate() {
            Ok(()) => Ok(config),
            Err(e) => Err(e),
        }
    }
}

impl Default for MotorConfig {
    fn default() -> (config: Self)
        ensures
            config.forward == 50,
            config.boost == 75,
            config.boost_duration is None,
            config.backward == -50,
            config.backward_delay == 1200,
    {
        MotorConfig {
            forward: 50,
            boost: 75,
            boost_duration: None,
            backward: -50,
            backward_delay: 1200,
        }
    }
}

/// Normalisation is idempotent and never leaves a zero boost duration.
pub proof fn lemma_normalize_idempotent(d: Option<u64>)
    ensures
        MotorConfig::spec_normalized_duration(MotorConfig::spec_normalized_duration(d))
            == MotorConfig::spec_normalized_duration(d),
        MotorConfig::spec_normalized_duration(d) != Some(0u64),
{
}

} // verus!
