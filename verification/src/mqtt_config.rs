//! Connection settings for one MQTT broker, as the configuration file
//! provides them.

use vstd::prelude::*;

verus! {

/// Broker host and credentials for one publish sink.
pub struct MqttConfig {
    pub host: String,
    pub port: Option<u16>,
    pub username: Option<String>,
    pub password: Option<String>,
    pub client_id: Option<String>,
    pub tls: Option<bool>,
}

impl MqttConfig {
    /// A usable broker configuration names a host.
    pub fn is_valid(&self) -> (r: bool)
        ensures
            r == (self.host@.len() > 0),
    {
        self.host.as_str().unicode_len() > 0
    }
}

} // verus!
