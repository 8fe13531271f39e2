//! The application configuration surface the library can check: which
//! inverter to poll and which publish sinks are enabled.  Loading the
//! values from a file or the environment happens outside the library.

use vstd::prelude::*;

use crate::mqtt_config::MqttConfig;

verus! {

/// The whole tool configuration.
pub struct Config {
    pub inverter_host: String,
    pub home_assistant: Option<MqttConfig>,
    pub simple_mqtt: Option<MqttConfig>,
}

impl Config {
    /// A runnable configuration names the inverter host and enables at
    /// least one sink with a usable broker configuration.
    pub fn is_valid(&self) -> (r: bool)
        ensures
            r == (self.inverter_host@.len() > 0 && (match self.home_assistant {
                Some(c) => c.host@.len() > 0,
                None => false,
            } || match self.simple_mqtt {
                Some(c) => c.host@.len() > 0,
                None => false,
            })),
    {
        let host_ok = self.inverter_host.as_str().unicode_len() > 0;
        let ha_ok = match &self.home_assistant {
            Some(c) => c.is_valid(),
            None => false,
        };
        let sm_ok = match &self.simple_mqtt {
            Some(c) => c.is_valid(),
            None => false,
        };
        host_ok && (ha_ok || sm_ok)
    }
}

} // verus!
