# duplo_train_controller

Verified core of a BLE-to-MQTT bridge for the LEGO DUPLO 10427 train.

- `src/protocol/` — LEGO Wireless Protocol 3.0: frame encoders
  (`commands`), the notification reassembly buffer (`buffer`) and the
  message decoder (`messages`), each specified over byte sequences.
- `src/types.rs` — commands, colours, sounds, connection and train state,
  with case-insensitive name parsing.
- `src/config.rs` — MQTT and motor settings, normalisation and validation.
- `src/mqtt.rs` — topic routing, duplicate-command blocking and merging of
  status updates into the published state (`MqttSession`).
- `src/ble.rs` — the link state machine (`BleLink`): wake-up and attempt
  accounting, command plans, keep-alive, idle timeout, boost timer and the
  reaction to hub notifications.
- `src/clock.rs`, `src/text.rs` — wall-clock seconds and string helpers.
- `app/` — the program around the library: environment configuration,
  the btleplug radio driver, the rumqttc client and the tokio event loops.
  It performs the I/O and carries out the steps the library decides on.
- `tests/` — scenario tests for every module.
