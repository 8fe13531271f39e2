//! Library for polling a photovoltaic micro-inverter over its binary TCP
//! protocol and republishing the decoded telemetry over MQTT.
//!
//! The crate covers the protocol-level core: request framing with a
//! CRC16/MODBUS checksum, decoding of the response payload into a telemetry
//! record, the device-availability state machine, fixed-point value
//! normalization, and the two publish strategies (a flat topic set and a
//! Home Assistant discovery schema).  Socket I/O, configuration loading and
//! the concrete MQTT client live outside the library and talk to it through
//! plain values and the `MqttWrapper` trait.

pub mod codec;
pub mod config;
pub mod home_assistant;
pub mod inverter;
pub mod metric_collector;
pub mod mqtt_config;
pub mod mqtt_wrapper;
pub mod normalize;
pub mod simple_mqtt;
pub mod telemetry;
pub mod text;
