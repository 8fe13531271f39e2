//! The capability the publish sinks consume: a minimal MQTT client
//! interface.  Callers of the library wrap their concrete client in a type
//! that implements this trait; the sinks never see the client itself.

use vstd::prelude::*;

use crate::mqtt_config::MqttConfig;

verus! {

/// MQTT quality-of-service levels.
#[derive(Clone, Copy, Debug, PartialEq, Eq, Structural)]
pub enum QoS {
    AtMostOnce,
    AtLeastOnce,
    ExactlyOnce,
}

/// An error from the wrapped MQTT client; the sinks only log and drop it.
#[derive(Clone, Copy, Debug, PartialEq, Eq, Structural)]
pub struct ClientError;

/// Interface that decouples the sinks from the concrete MQTT client.
/// Implementations live with the calling code; nothing is assumed of them.
pub trait MqttWrapper: Sized {
    fn subscribe(&mut self, topic: &str, qos: QoS) -> Result<(), ClientError>;

    fn publish(&mut self, topic: &str, qos: QoS, retain: bool, payload: String) -> Result<
        (),
        ClientError,
    >;

    fn new(config: &MqttConfig, suffix: &str) -> Self;
}

} // verus!
