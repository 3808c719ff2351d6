//! Verified core of a BLE-to-MQTT bridge for the LEGO DUPLO 10427 train.
//!
//! The crate holds everything the bridge decides or computes: the LEGO
//! Wireless Protocol 3.0 frame encoders and decoders, the notification
//! reassembly buffer, the shared command and state types, configuration
//! checks, MQTT topic routing and state merging, and the BLE link state
//! machine. Radio, broker and timer I/O are performed by the caller, which
//! feeds events in and carries out the actions handed back.

pub mod protocol;
pub mod text;
pub mod clock;
pub mod types;
pub mod config;
pub mod mqtt;
pub mod ble;
