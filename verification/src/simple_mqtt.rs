//! The flat publish strategy: a fixed set of seventeen topic/value pairs,
//! fully resent on every poll, with no discovery metadata.
//!
//! The set always describes two ports and one inverter; where the record
//! carries fewer readings the missing ones read as zero.  Scaled registers
//! render with two decimal places, unscaled energy and yield registers as
//! plain integers.

use vstd::prelude::*;

use crate::metric_collector::MetricCollector;
use crate::mqtt_config::MqttConfig;
use crate::mqtt_wrapper::MqttWrapper;
use crate::mqtt_wrapper::QoS;
use crate::normalize::centi;
use crate::normalize::centi_display;
use crate::normalize::deci;
use crate::normalize::deci_display;
use crate::normalize::inverter_at;
use crate::normalize::port_at;
use crate::normalize::spec_inverter_at;
use crate::normalize::spec_port_at;
use crate::telemetry::HMSStateResponse;
use crate::telemetry::ResponseModel;
use crate::text::dec_digits;
use crate::text::u32_string;

verus! {

/// The seventeen topic/value pairs the flat strategy publishes for a
/// record, in publish order.
pub open spec fn spec_simple_pairs(m: ResponseModel) -> Seq<(Seq<char>, Seq<char>)> {
    let p0 = spec_port_at(m.ports, 0);
    let p1 = spec_port_at(m.ports, 1);
    let i0 = spec_inverter_at(m.inverters, 0);
    seq![
        ("hms800wt2/pv_current_power"@, deci(m.pv_current_power)),
        ("hms800wt2/pv_daily_yield"@, dec_digits(m.pv_daily_yield as nat)),
        ("hms800wt2/pv_current_power"@, deci(m.pv_current_power)),
        ("hms800wt2/pv_daily_yield"@, dec_digits(m.pv_daily_yield as nat)),
        ("hms800wt2/pv_grid_voltage"@, deci(i0.grid_voltage)),
        ("hms800wt2/pv_grid_freq"@, centi(i0.grid_freq)),
        ("hms800wt2/pv_inv_temperature"@, deci(i0.temperature)),
        ("hms800wt2/pv_port1_voltage"@, deci(p0.pv_vol)),
        ("hms800wt2/pv_port1_curr"@, centi(p0.pv_cur)),
        ("hms800wt2/pv_port1_power"@, deci(p0.pv_power)),
        ("hms800wt2/pv_port1_energy"@, dec_digits(p0.pv_energy_total as nat)),
        ("hms800wt2/pv_port1_daily_yield"@, dec_digits(p0.pv_daily_yield as nat)),
        ("hms800wt2/pv_port2_voltage"@, deci(p1.pv_vol)),
        ("hms800wt2/pv_port2_curr"@, centi(p1.pv_cur)),
        ("hms800wt2/pv_port2_power"@, deci(p1.pv_power)),
        ("hms800wt2/pv_port2_energy"@, dec_digits(p1.pv_energy_total as nat)),
        ("hms800wt2/pv_port2_daily_yield"@, dec_digits(p1.pv_daily_yield as nat)),
    ]
}

/// Pairs of owned strings spell out the given pairs of character
/// sequences, position by position.
pub open spec fn pairs_match(v: Seq<(String, String)>, s: Seq<(Seq<char>, Seq<char>)>) -> bool {
    v.len() == s.len() && forall|k: int|
        0 <= k < v.len() ==> (#[trigger] v[k]).0@ == s[k].0 && v[k].1@ == s[k].1
}

/// Builds the seventeen flat topic/value pairs for one record.
#[verifier::rlimit(100)]
pub fn simple_pairs(hms_state: &HMSStateResponse) -> (r: Vec<(String, String)>)
    ensures
        r@.len() == 17,
        pairs_match(r@, spec_simple_pairs(hms_state.model())),
{
    let p0 = port_at(&hms_state.port_state, 0);
    let p1 = port_at(&hms_state.port_state, 1);
    let i0 = inverter_at(&hms_state.inverter_state, 0);
    let mut r: Vec<(String, String)> = Vec::new();
    r.push((String::from_str("hms800wt2/pv_current_power"), deci_display(hms_state.pv_current_power)));
    r.push((String::from_str("hms800wt2/pv_daily_yield"), u32_string(hms_state.pv_daily_yield)));
    r.push((String::from_str("hms800wt2/pv_current_power"), deci_display(hms_state.pv_current_power)));
    r.push((String::from_str("hms800wt2/pv_daily_yield"), u32_string(hms_state.pv_daily_yield)));
    r.push((String::from_str("hms800wt2/pv_grid_voltage"), deci_display(i0.grid_voltage)));
    r.push((String::from_str("hms800wt2/pv_grid_freq"), centi_display(i0.grid_freq)));
    r.push((String::from_str("hms800wt2/pv_inv_temperature"), deci_display(i0.temperature)));
    r.push((String::from_str("hms800wt2/pv_port1_voltage"), deci_display(p0.pv_vol)));
    r.push((String::from_str("hms800wt2/pv_port1_curr"), centi_display(p0.pv_cur)));
    r.push((String::from_str("hms800wt2/pv_port1_power"), deci_display(p0.pv_power)));
    r.push((String::from_str("hms800wt2/pv_port1_energy"), u32_string(p0.pv_energy_total)));
    r.push((String::from_str("hms800wt2/pv_port1_daily_yield"), u32_string(p0.pv_daily_yield)));
    r.push((String::from_str("hms800wt2/pv_port2_voltage"), deci_display(p1.pv_vol)));
    r.push((String::from_str("hms800wt2/pv_port2_curr"), centi_display(p1.pv_cur)));
    r.push((String::from_str("hms800wt2/pv_port2_power"), deci_display(p1.pv_power)));
    r.push((String::from_str("hms800wt2/pv_port2_energy"), u32_string(p1.pv_energy_total)));
    r.push((String::from_str("hms800wt2/pv_port2_daily_yield"), u32_string(p1.pv_daily_yield)));
    proof {
        assert(pairs_match(r@, spec_simple_pairs(hms_state.model())));
    }
    r
}

/// The flat publish strategy over any MQTT client.
pub struct SimpleMqtt<MQTT: MqttWrapper> {
    client: MQTT,
}

impl<MQTT: MqttWrapper> SimpleMqtt<MQTT> {
    pub fn new(config: &MqttConfig) -> Self {
        let client = MQTT::new(config, "-sm");
        SimpleMqtt { client }
    }
}

impl<MQTT: MqttWrapper> MetricCollector for SimpleMqtt<MQTT> {
    /// Publishes the seventeen flat pairs, at most once each, retained;
    /// a failed publish is dropped and never stops the remaining pairs.
    fn publish(&mut self, hms_state: &HMSStateResponse) {
        let pairs = simple_pairs(hms_state);
        let mut k: usize = 0;
        while k < pairs.len()
            decreases pairs@.len() - k,
        {
            let (topic, payload) = &pairs[k];
            let _ = self.client.publish(topic.as_str(), QoS::AtMostOnce, true, payload.clone());
            k = k + 1;
        }
    }
}

} // verus!
