//! The discovery publish strategy: derives a device descriptor and one
//! sensor descriptor per telemetry field from the shape of a record, then
//! publishes each descriptor as a retained discovery config followed by a
//! single aggregated JSON state payload.
//!
//! Sensor identifiers are `<device identifier>_<field key>`: stable across
//! polls for the same field and device, and unique within one record's
//! descriptor set as long as port and inverter indexes are unique, which
//! `lemma_sensor_ids_unique` proves.

use vstd::prelude::*;

use crate::metric_collector::MetricCollector;
use crate::mqtt_config::MqttConfig;
use crate::mqtt_wrapper::MqttWrapper;
use crate::mqtt_wrapper::QoS;
use crate::normalize::centi;
use crate::normalize::centi_display;
use crate::normalize::deci;
use crate::normalize::deci_display;
use crate::normalize::spec_efficiency_h;
use crate::normalize::spec_total_port_power;
use crate::telemetry::HMSStateResponse;
use crate::telemetry::InverterModel;
use crate::telemetry::InverterState;
use crate::telemetry::PortModel;
use crate::telemetry::PortState;
use crate::telemetry::ResponseModel;
use crate::text::append_json_escaped;
use crate::text::dec_digits;
use crate::text::json_escape;
use crate::text::two_dec;
use crate::text::two_dec_string;
use crate::text::u32_string;

verus! {

/// Groups the sensors of one physical device in the discovery protocol.
pub struct DeviceConfig {
    pub name: String,
    pub model: String,
    pub identifiers: Vec<String>,
    pub manufacturer: String,
    /// Version of the software that supplies the discovered sensors.
    pub sw_version: String,
}

/// Everything contracts need to know of a device descriptor: its fields'
/// character sequences.
#[verifier::ext_equal]
pub ghost struct DeviceModel {
    pub name: Seq<char>,
    pub model: Seq<char>,
    pub identifiers: Seq<Seq<char>>,
    pub manufacturer: Seq<char>,
    pub sw_version: Seq<char>,
}

impl DeviceConfig {
    /// The descriptor's mathematical model.
    pub open spec fn dm(self) -> DeviceModel {
        DeviceModel {
            name: self.name@,
            model: self.model@,
            identifiers: self.identifiers@.map_values(|s: String| s@),
            manufacturer: self.manufacturer@,
            sw_version: self.sw_version@,
        }
    }
}

impl Clone for DeviceConfig {
    fn clone(&self) -> (r: Self)
        ensures
            r.dm() == self.dm(),
    {
        let identifiers = self.identifiers.clone();
        proof {
            assert forall|i: int| 0 <= i < identifiers@.len() implies identifiers@[i]
                == self.identifiers@[i] by {
                assert(vstd::pervasive::cloned::<String>(self.identifiers@[i], identifiers@[i]));
            }
            assert(identifiers@.map_values(|s: String| s@) =~= self.identifiers@.map_values(
                |s: String| s@,
            ));
        }
        let r = DeviceConfig {
            name: self.name.clone(),
            model: self.model.clone(),
            identifiers,
            manufacturer: self.manufacturer.clone(),
            sw_version: self.sw_version.clone(),
        };
        proof {
            assert(r.dm() =~= self.dm());
        }
        r
    }
}

impl DeviceConfig {
    /// A descriptor for one device: the manufacturer is fixed, the software
    /// version is this library's.
    pub fn new(name: String, model: String, identifiers: Vec<String>) -> (r: Self)
        ensures
            r.name == name,
            r.model == model,
            r.identifiers == identifiers,
            r.dm() == (DeviceModel {
                name: name@,
                model: model@,
                identifiers: identifiers@.map_values(|s: String| s@),
                manufacturer: "Hoymiles"@,
                sw_version: "0.1.0"@,
            }),
    {
        let r = DeviceConfig {
            name,
            model,
            identifiers,
            manufacturer: String::from_str("Hoymiles"),
            sw_version: String::from_str("0.1.0"),
        };
        proof {
            assert(r.dm() =~= (DeviceModel {
                name: r.name@,
                model: r.model@,
                identifiers: r.identifiers@.map_values(|s: String| s@),
                manufacturer: "Hoymiles"@,
                sw_version: "0.1.0"@,
            }));
        }
        r
    }
}

/// One sensor of the discovery schema.
pub struct SensorConfig {
    /// Globally unique within the discovery namespace: device identifier
    /// plus field key.
    pub unique_id: String,
    pub name: String,
    /// Topic where the aggregated state payload appears.
    pub state_topic: String,
    /// Template that extracts this sensor's field from the state payload.
    pub value_template: String,
    pub device: DeviceConfig,
    pub unit_of_measurement: Option<String>,
    pub device_class: Option<String>,
    pub state_class: Option<String>,
}

/// The value-extraction template for a field key.
pub open spec fn spec_value_template(key: Seq<char>) -> Seq<char> {
    "{{ value_json."@ + key + " }}"@
}

/// The device-scoped unique id for a field key.
pub open spec fn spec_unique_id(device_id: Seq<char>, key: Seq<char>) -> Seq<char> {
    device_id + "_"@ + key
}

impl SensorConfig {
    /// A sensor bound to a device and a field key; `unique_id` is the field
    /// key, and the device's first identifier scopes it.
    pub fn new_sensor(
        state_topic: &str,
        device_config: &DeviceConfig,
        unique_id: &str,
        name: &str,
        device_class: Option<String>,
        unit_of_measurement: Option<String>,
        state_class: Option<String>,
    ) -> (r: Self)
        requires
            device_config.identifiers@.len() > 0,
        ensures
            r.unique_id@ == spec_unique_id(device_config.identifiers@[0]@, unique_id@),
            r.name@ == name@,
            r.state_topic@ == state_topic@,
            r.value_template@ == spec_value_template(unique_id@),
            r.device.dm() == device_config.dm(),
            r.unit_of_measurement == unit_of_measurement,
            r.device_class == device_class,
            r.state_class == state_class,
    {
        let mut value_template = String::from_str("{{ value_json.");
        value_template.append(unique_id);
        value_template.append(" }}");
        let mut uid = clone_first_identifier(device_config);
        uid.append("_");
        uid.append(unique_id);
        SensorConfig {
            unique_id: uid,
            name: name.to_owned(),
            state_topic: state_topic.to_owned(),
            unit_of_measurement,
            device_class,
            value_template,
            device: device_config.clone(),
            state_class,
        }
    }

    /// A plain text sensor: no unit, no device class, no state class.
    pub fn string(state_topic: &str, device_config: &DeviceConfig, name: &str, key: &str) -> (r:
        Self)
        requires
            device_config.identifiers@.len() > 0,
        ensures
            r.unique_id@ == spec_unique_id(device_config.identifiers@[0]@, key@),
            r.name@ == name@,
            r.state_topic@ == state_topic@,
            r.value_template@ == spec_value_template(key@),
            r.device.dm() == device_config.dm(),
            r.unit_of_measurement is None,
            r.device_class is None,
            r.state_class is None,
    {
        Self::new_sensor(state_topic, device_config, key, name, None, None, None)
    }

    /// A power measurement in watts.
    pub fn power(state_topic: &str, device_config: &DeviceConfig, name: &str, key: &str) -> (r:
        Self)
        requires
            device_config.identifiers@.len() > 0,
        ensures
            r.unique_id@ == spec_unique_id(device_config.identifiers@[0]@, key@),
            r.name@ == name@,
            r.state_topic@ == state_topic@,
            r.value_template@ == spec_value_template(key@),
            r.device.dm() == device_config.dm(),
            r.unit_of_measurement matches Some(u) && u@ == "W"@,
            r.device_class matches Some(c) && c@ == "power"@,
            r.state_class matches Some(s) && s@ == "measurement"@,
    {
        Self::new_sensor(
            state_topic,
            device_config,
            key,
            name,
            Some(String::from_str("power")),
            Some(String::from_str("W")),
            Some(String::from_str("measurement")),
        )
    }

    /// A lifetime or daily energy total in watt-hours.
    pub fn energy(state_topic: &str, device_config: &DeviceConfig, name: &str, key: &str) -> (r:
        Self)
        requires
            device_config.identifiers@.len() > 0,
        ensures
            r.unique_id@ == spec_unique_id(device_config.identifiers@[0]@, key@),
            r.name@ == name@,
            r.state_topic@ == state_topic@,
            r.value_template@ == spec_value_template(key@),
            r.device.dm() == device_config.dm(),
            r.unit_of_measurement matches Some(u) && u@ == "Wh"@,
            r.device_class matches Some(c) && c@ == "energy"@,
            r.state_class matches Some(s) && s@ == "total_increasing"@,
    {
        Self::new_sensor(
            state_topic,
            device_config,
            key,
            name,
            Some(String::from_str("energy")),
            Some(String::from_str("Wh")),
            Some(String::from_str("total_increasing")),
        )
    }

    /// A voltage measurement in volts.
    pub fn voltage(state_topic: &str, device_config: &DeviceConfig, name: &str, key: &str) -> (r:
        Self)
        requires
            device_config.identifiers@.len() > 0,
        ensures
            r.unique_id@ == spec_unique_id(device_config.identifiers@[0]@, key@),
            r.name@ == name@,
            r.state_topic@ == state_topic@,
            r.value_template@ == spec_value_template(key@),
            r.device.dm() == device_config.dm(),
            r.unit_of_measurement matches Some(u) && u@ == "V"@,
            r.device_class matches Some(c) && c@ == "voltage"@,
            r.state_class matches Some(s) && s@ == "measurement"@,
    {
        Self::new_sensor(
            state_topic,
            device_config,
            key,
            name,
            Some(String::from_str("voltage")),
            Some(String::from_str("V")),
            Some(String::from_str("measurement")),
        )
    }

    /// A current measurement in amperes.
    pub fn current(state_topic: &str, device_config: &DeviceConfig, name: &str, key: &str) -> (r:
        Self)
        requires
            device_config.identifiers@.len() > 0,
        ensures
            r.unique_id@ == spec_unique_id(device_config.identifiers@[0]@, key@),
            r.name@ == name@,
            r.state_topic@ == state_topic@,
            r.value_template@ == spec_value_template(key@),
            r.device.dm() == device_config.dm(),
            r.unit_of_measurement matches Some(u) && u@ == "A"@,
            r.device_class matches Some(c) && c@ == "current"@,
            r.state_class matches Some(s) && s@ == "measurement"@,
    {
        Self::new_sensor(
            state_topic,
            device_config,
            key,
            name,
            Some(String::from_str("current")),
            Some(String::from_str("A")),
            Some(String::from_str("measurement")),
        )
    }

    /// A temperature measurement in degrees Celsius.
    pub fn temperature(state_topic: &str, device_config: &DeviceConfig, name: &str, key: &str) -> (
        r: Self)
        requires
            device_config.identifiers@.len() > 0,
        ensures
            r.unique_id@ == spec_unique_id(device_config.identifiers@[0]@, key@),
            r.name@ == name@,
            r.state_topic@ == state_topic@,
            r.value_template@ == spec_value_template(key@),
            r.device.dm() == device_config.dm(),
            r.unit_of_measurement matches Some(u) && u@ == "°C"@,
            r.device_class matches Some(c) && c@ == "temperature"@,
            r.state_class matches Some(s) && s@ == "measurement"@,
    {
        Self::new_sensor(
            state_topic,
            device_config,
            key,
            name,
            Some(String::from_str("temperature")),
            Some(String::from_str("°C")),
            Some(String::from_str("measurement")),
        )
    }

    /// The derived efficiency metric in percent; it has no device class.
    pub fn efficiency(state_topic: &str, device_config: &DeviceConfig, name: &str, key: &str) -> (
        r: Self)
        requires
            device_config.identifiers@.len() > 0,
        ensures
            r.unique_id@ == spec_unique_id(device_config.identifiers@[0]@, key@),
            r.name@ == name@,
            r.state_topic@ == state_topic@,
            r.value_template@ == spec_value_template(key@),
            r.device.dm() == device_config.dm(),
            r.unit_of_measurement matches Some(u) && u@ == "%"@,
            r.device_class is None,
            r.state_class matches Some(s) && s@ == "measurement"@,
    {
        Self::new_sensor(
            state_topic,
            device_config,
            key,
            name,
            None,
            Some(String::from_str("%")),
            Some(String::from_str("measurement")),
        )
    }

    /// A frequency measurement in hertz.
    pub fn frequency(state_topic: &str, device_config: &DeviceConfig, name: &str, key: &str) -> (r:
        Self)
        requires
            device_config.identifiers@.len() > 0,
        ensures
            r.unique_id@ == spec_unique_id(device_config.identifiers@[0]@, key@),
            r.name@ == name@,
            r.state_topic@ == state_topic@,
            r.value_template@ == spec_value_template(key@),
            r.device.dm() == device_config.dm(),
            r.unit_of_measurement matches Some(u) && u@ == "Hz"@,
            r.device_class matches Some(c) && c@ == "frequency"@,
            r.state_class matches Some(s) && s@ == "measurement"@,
    {
        Self::new_sensor(
            state_topic,
            device_config,
            key,
            name,
            Some(String::from_str("frequency")),
            Some(String::from_str("Hz")),
            Some(String::from_str("measurement")),
        )
    }
}

/// Copies a device's first identifier.
fn clone_first_identifier(device_config: &DeviceConfig) -> (r: String)
    requires
        device_config.identifiers@.len() > 0,
    ensures
        r@ == device_config.identifiers@[0]@,
{
    let id: &String = &device_config.identifiers[0];
    id.clone()
}

// ------------------------------------------------------------------
// what the schema derives from a record
// ------------------------------------------------------------------
/// The stable device identifier: a fixed prefix plus the serial's first
/// eight characters.
pub open spec fn spec_device_id(sn: Seq<char>) -> Seq<char> {
    "hms_"@ + sn.subrange(0, 8)
}

/// The device display name.
pub open spec fn spec_device_name(sn: Seq<char>) -> Seq<char> {
    "Hoymiles HMS-WiFi "@ + sn.subrange(0, 8)
}

/// The device descriptor derived from a record's serial.
pub open spec fn spec_device_model(sn: Seq<char>) -> DeviceModel {
    DeviceModel {
        name: spec_device_name(sn),
        model: "HMS-WiFi"@,
        identifiers: seq![spec_device_id(sn)],
        manufacturer: "Hoymiles"@,
        sw_version: "0.1.0"@,
    }
}

/// Field keys of the four whole-device sensors.
pub open spec fn fixed_key(j: int) -> Seq<char> {
    if j == 0 {
        "dtu_sn"@
    } else if j == 1 {
        "pv_current_power"@
    } else if j == 2 {
        "pv_daily_yield"@
    } else {
        "efficiency"@
    }
}

/// Display names of the four whole-device sensors.
pub open spec fn fixed_name(j: int) -> Seq<char> {
    if j == 0 {
        "DTU Serial Number"@
    } else if j == 1 {
        "Total Power"@
    } else if j == 2 {
        "Total Daily Yield"@
    } else {
        "Efficiency"@
    }
}

/// Key suffixes of the five per-port sensors.
pub open spec fn port_suffix(j: int) -> Seq<char> {
    if j == 0 {
        "_power"@
    } else if j == 1 {
        "_vol"@
    } else if j == 2 {
        "_cur"@
    } else if j == 3 {
        "_daily_yield"@
    } else {
        "_energy_total"@
    }
}

/// Field keys of the five per-port sensors.
pub open spec fn port_key(idx: u32, j: int) -> Seq<char> {
    "pv_"@ + dec_digits(idx as nat) + port_suffix(j)
}

/// Display names of the five per-port sensors.
pub open spec fn port_name(idx: u32, j: int) -> Seq<char> {
    let d = dec_digits(idx as nat);
    if j == 0 {
        "PV "@ + d + " Power"@
    } else if j == 1 {
        "PV "@ + d + " Voltage"@
    } else if j == 2 {
        "PV "@ + d + " Current"@
    } else if j == 3 {
        "PV "@ + d + " Daily Yield"@
    } else {
        "PV "@ + d + " Energy Total"@
    }
}

/// Key suffixes of the four per-inverter sensors.
pub open spec fn inverter_suffix(j: int) -> Seq<char> {
    if j == 0 {
        "_pv_current_power"@
    } else if j == 1 {
        "_temperature"@
    } else if j == 2 {
        "_grid_voltage"@
    } else {
        "_grid_freq"@
    }
}

/// Field keys of the four per-inverter sensors.
pub open spec fn inverter_key(idx: u32, j: int) -> Seq<char> {
    "inv_"@ + dec_digits(idx as nat) + inverter_suffix(j)
}

/// Display names of the four per-inverter sensors.
pub open spec fn inverter_name(idx: u32, j: int) -> Seq<char> {
    let d = dec_digits(idx as nat);
    if j == 0 {
        "Inverter "@ + d + " Power"@
    } else if j == 1 {
        "Inverter "@ + d + " Temperature"@
    } else if j == 2 {
        "Inverter "@ + d + " Grid Voltage"@
    } else {
        "Inverter "@ + d + " Grid Frequency"@
    }
}

/// How many sensors a record's shape yields: four for the whole device,
/// five per port reading, four per inverter reading.
pub open spec fn sensor_count(m: ResponseModel) -> int {
    4 + 5 * m.ports.len() as int + 4 * m.inverters.len() as int
}

/// The field key of sensor `k` in the generated order: whole-device
/// sensors, then five per port, then four per inverter.
pub open spec fn sensor_key(m: ResponseModel, k: int) -> Seq<char> {
    if k < 4 {
        fixed_key(k)
    } else if k < 4 + 5 * m.ports.len() {
        port_key(m.ports[(k - 4) / 5].pv_port, (k - 4) % 5)
    } else {
        inverter_key(m.inverters[(k - 4 - 5 * m.ports.len()) / 4].port_id, (k - 4 - 5
            * m.ports.len()) % 4)
    }
}

/// The display name of sensor `k` in the generated order.
pub open spec fn sensor_name(m: ResponseModel, k: int) -> Seq<char> {
    if k < 4 {
        fixed_name(k)
    } else if k < 4 + 5 * m.ports.len() {
        port_name(m.ports[(k - 4) / 5].pv_port, (k - 4) % 5)
    } else {
        inverter_name(m.inverters[(k - 4 - 5 * m.ports.len()) / 4].port_id, (k - 4 - 5
            * m.ports.len()) % 4)
    }
}

/// What kind of quantity a sensor reports; units and classes follow from
/// it, so the normalizer's scale table and the schema stay in lockstep.
pub ghost enum SensorKind {
    Text,
    Power,
    Energy,
    Voltage,
    Current,
    Temperature,
    Efficiency,
    Frequency,
}

/// The kind of sensor `k` in the generated order.
pub open spec fn sensor_kind(m: ResponseModel, k: int) -> SensorKind {
    if k < 4 {
        if k == 0 {
            SensorKind::Text
        } else if k == 1 {
            SensorKind::Power
        } else if k == 2 {
            SensorKind::Energy
        } else {
            SensorKind::Efficiency
        }
    } else if k < 4 + 5 * m.ports.len() {
        let j = (k - 4) % 5;
        if j == 0 {
            SensorKind::Power
        } else if j == 1 {
            SensorKind::Voltage
        } else if j == 2 {
            SensorKind::Current
        } else {
            SensorKind::Energy
        }
    } else {
        let j = (k - 4 - 5 * m.ports.len()) % 4;
        if j == 0 {
            SensorKind::Power
        } else if j == 1 {
            SensorKind::Temperature
        } else if j == 2 {
            SensorKind::Voltage
        } else {
            SensorKind::Frequency
        }
    }
}

/// The unit of measurement each kind declares.
pub open spec fn kind_unit(kind: SensorKind) -> Option<Seq<char>> {
    match kind {
        SensorKind::Text => None,
        SensorKind::Power => Some("W"@),
        SensorKind::Energy => Some("Wh"@),
        SensorKind::Voltage => Some("V"@),
        SensorKind::Current => Some("A"@),
        SensorKind::Temperature => Some("°C"@),
        SensorKind::Efficiency => Some("%"@),
        SensorKind::Frequency => Some("Hz"@),
    }
}

/// The device class each kind declares; text and the derived efficiency
/// metric have none.
pub open spec fn kind_device_class(kind: SensorKind) -> Option<Seq<char>> {
    match kind {
        SensorKind::Text => None,
        SensorKind::Power => Some("power"@),
        SensorKind::Energy => Some("energy"@),
        SensorKind::Voltage => Some("voltage"@),
        SensorKind::Current => Some("current"@),
        SensorKind::Temperature => Some("temperature"@),
        SensorKind::Efficiency => None,
        SensorKind::Frequency => Some("frequency"@),
    }
}

/// The state class each kind declares: energy totals only ever grow, every
/// other quantity is a plain measurement, and text has no state class.
pub open spec fn kind_state_class(kind: SensorKind) -> Option<Seq<char>> {
    match kind {
        SensorKind::Text => None,
        SensorKind::Energy => Some("total_increasing"@),
        _ => Some("measurement"@),
    }
}

/// An optional owned string spells an optional character sequence.
pub open spec fn opt_text_matches(o: Option<String>, s: Option<Seq<char>>) -> bool {
    match (o, s) {
        (None, None) => true,
        (Some(a), Some(b)) => a@ == b,
        _ => false,
    }
}

/// One generated sensor carries the id, name, topic, template, device
/// descriptor, unit and classes that position `k` of the record derives.
pub open spec fn sensor_entry_matches(
    s: SensorConfig,
    m: ResponseModel,
    state_topic: Seq<char>,
    k: int,
) -> bool {
    &&& s.unique_id@ == spec_unique_id(spec_device_id(m.dtu_sn), sensor_key(m, k))
    &&& s.name@ == sensor_name(m, k)
    &&& s.state_topic@ == state_topic
    &&& s.value_template@ == spec_value_template(sensor_key(m, k))
    &&& s.device.dm() == spec_device_model(m.dtu_sn)
    &&& opt_text_matches(s.unit_of_measurement, kind_unit(sensor_kind(m, k)))
    &&& opt_text_matches(s.device_class, kind_device_class(sensor_kind(m, k)))
    &&& opt_text_matches(s.state_class, kind_state_class(sensor_kind(m, k)))
}

/// A generated sensor list matches a record: right length, and every entry
/// as `sensor_entry_matches` derives it.
pub open spec fn sensors_match(
    v: Seq<SensorConfig>,
    m: ResponseModel,
    state_topic: Seq<char>,
) -> bool {
    v.len() == sensor_count(m) && forall|k: int|
        0 <= k < v.len() ==> sensor_entry_matches(#[trigger] v[k], m, state_topic, k)
}

/// Joins a prefix, a decimal index and a suffix.
fn join_num(prefix: &str, idx: u32, suffix: &str) -> (r: String)
    ensures
        r@ == prefix@ + dec_digits(idx as nat) + suffix@,
{
    let mut s = prefix.to_owned();
    let d = u32_string(idx);
    s.append(d.as_str());
    s.append(suffix);
    s
}

impl HMSStateResponse {
    /// The reported device model; the protocol does not identify it more
    /// precisely.
    pub fn get_model(&self) -> (r: String)
        ensures
            r@ == "HMS-WiFi"@,
    {
        String::from_str("HMS-WiFi")
    }

    /// The serial's first eight characters, which identify the device.
    pub fn short_dtu_sn(&self) -> (r: String)
        requires
            self.dtu_sn@.len() >= 8,
        ensures
            r@ == self.dtu_sn@.subrange(0, 8),
    {
        self.dtu_sn.as_str().substring_char(0, 8).to_owned()
    }

    /// The device display name: manufacturer, model and short serial.
    pub fn get_name(&self) -> (r: String)
        requires
            self.dtu_sn@.len() >= 8,
        ensures
            r@ == spec_device_name(self.dtu_sn@),
    {
        let mut s = String::from_str("Hoymiles ");
        let model = self.get_model();
        s.append(model.as_str());
        s.append(" ");
        let short = self.short_dtu_sn();
        s.append(short.as_str());
        proof {
            reveal_strlit("Hoymiles ");
            reveal_strlit("HMS-WiFi");
            reveal_strlit(" ");
            reveal_strlit("Hoymiles HMS-WiFi ");
            assert(s@ =~= spec_device_name(self.dtu_sn@));
        }
        s
    }

    /// The stable device identifier string.
    pub fn device_id(&self) -> (r: String)
        requires
            self.dtu_sn@.len() >= 8,
        ensures
            r@ == spec_device_id(self.dtu_sn@),
    {
        let mut s = String::from_str("hms_");
        let short = self.short_dtu_sn();
        s.append(short.as_str());
        s
    }

    /// Derives the record's device descriptor and its full ordered sensor
    /// list: the four whole-device sensors, five per port reading, four per
    /// inverter reading — a pure function of the record's shape.
    #[verifier::rlimit(100)]
    pub fn create_sensor_configs(&self, state_topic: &str) -> (r: Vec<SensorConfig>)
        requires
            self.wf(),
        ensures
            sensors_match(r@, self.model(), state_topic@),
    {
        let ghost m = self.model();
        let mut sensors: Vec<SensorConfig> = Vec::new();
        let mut identifiers: Vec<String> = Vec::new();
        identifiers.push(self.device_id());
        proof {
            assert(identifiers@.map_values(|s: String| s@) =~= seq![spec_device_id(m.dtu_sn)]);
        }
        let device_config = DeviceConfig::new(self.get_name(), self.get_model(), identifiers);
        proof {
            assert(device_config.dm() =~= spec_device_model(m.dtu_sn));
        }

        sensors.push(
            SensorConfig::string(state_topic, &device_config, "DTU Serial Number", "dtu_sn"),
        );
        sensors.push(
            SensorConfig::power(state_topic, &device_config, "Total Power", "pv_current_power"),
        );
        sensors.push(
            SensorConfig::energy(
                state_topic,
                &device_config,
                "Total Daily Yield",
                "pv_daily_yield",
            ),
        );
        sensors.push(
            SensorConfig::efficiency(state_topic, &device_config, "Efficiency", "efficiency"),
        );
        proof {
            assert forall|k: int| 0 <= k < 4 implies sensor_entry_matches(
                #[trigger] sensors@[k],
                m,
                state_topic@,
                k,
            ) by {
                assert(sensor_key(m, k) == fixed_key(k));
                assert(sensor_name(m, k) == fixed_name(k));
            }
        }

        let mut i: usize = 0;
        while i < self.port_state.len()
            invariant
                i <= self.port_state@.len(),
                m == self.model(),
                self.wf(),
                device_config.identifiers@.len() > 0,
                device_config.dm() == spec_device_model(m.dtu_sn),
                sensors@.len() == 4 + 5 * i,
                forall|k: int|
                    0 <= k < sensors@.len() ==> sensor_entry_matches(
                        #[trigger] sensors@[k],
                        m,
                        state_topic@,
                        k,
                    ),
            decreases self.port_state@.len() - i,
        {
            let idx = self.port_state[i].pv_port;
            let ghost prev = sensors@;
            proof {
                assert(m.ports[i as int] == self.port_state@[i as int].model());
                assert(device_config.identifiers@[0]@ == device_config.dm().identifiers[0]);
            }
            let key0 = join_num("pv_", idx, "_power");
            let name0 = join_num("PV ", idx, " Power");
            sensors.push(SensorConfig::power(state_topic, &device_config, name0.as_str(), key0.as_str()));
            let key1 = join_num("pv_", idx, "_vol");
            let name1 = join_num("PV ", idx, " Voltage");
            sensors.push(SensorConfig::voltage(state_topic, &device_config, name1.as_str(), key1.as_str()));
            let key2 = join_num("pv_", idx, "_cur");
            let name2 = join_num("PV ", idx, " Current");
            sensors.push(SensorConfig::current(state_topic, &device_config, name2.as_str(), key2.as_str()));
            let key3 = join_num("pv_", idx, "_daily_yield");
            let name3 = join_num("PV ", idx, " Daily Yield");
            sensors.push(SensorConfig::energy(state_topic, &device_config, name3.as_str(), key3.as_str()));
            let key4 = join_num("pv_", idx, "_energy_total");
            let name4 = join_num("PV ", idx, " Energy Total");
            sensors.push(SensorConfig::energy(state_topic, &device_config, name4.as_str(), key4.as_str()));
            proof {
                assert forall|j: int| 0 <= j < 5 implies sensor_key(m, 4 + 5 * i + j) == port_key(
                    idx,
                    j,
                ) && sensor_name(m, 4 + 5 * i + j) == port_name(idx, j) by {
                    assert((4 + 5 * i + j - 4) / 5 == i);
                    assert((4 + 5 * i + j - 4) % 5 == j);
                }
                assert forall|k: int| 0 <= k < sensors@.len() implies sensor_entry_matches(
                    #[trigger] sensors@[k],
                    m,
                    state_topic@,
                    k,
                ) by {
                    if k < prev.len() {
                        assert(sensors@[k] == prev[k]);
                        assert(sensor_entry_matches(prev[k], m, state_topic@, k));
                    } else {
                        assert(sensor_key(m, k) == port_key(idx, k - prev.len()));
                        assert(sensor_name(m, k) == port_name(idx, k - prev.len()));
                        assert((k - 4) % 5 == k - prev.len());
                    }
                }
            }
            i = i + 1;
        }

        let ghost ports_done = sensors@.len() as int;
        let mut i: usize = 0;
        while i < self.inverter_state.len()
            invariant
                i <= self.inverter_state@.len(),
                m == self.model(),
                self.wf(),
                device_config.identifiers@.len() > 0,
                device_config.dm() == spec_device_model(m.dtu_sn),
                ports_done == 4 + 5 * m.ports.len(),
                sensors@.len() == ports_done + 4 * i,
                forall|k: int|
                    0 <= k < sensors@.len() ==> sensor_entry_matches(
                        #[trigger] sensors@[k],
                        m,
                        state_topic@,
                        k,
                    ),
            decreases self.inverter_state@.len() - i,
        {
            let idx = self.inverter_state[i].port_id;
            let ghost prev = sensors@;
            proof {
                assert(m.inverters[i as int] == self.inverter_state@[i as int].model());
                assert(device_config.identifiers@[0]@ == device_config.dm().identifiers[0]);
            }
            let key0 = join_num("inv_", idx, "_pv_current_power");
            let name0 = join_num("Inverter ", idx, " Power");
            sensors.push(SensorConfig::power(state_topic, &device_config, name0.as_str(), key0.as_str()));
            let key1 = join_num("inv_", idx, "_temperature");
            let name1 = join_num("Inverter ", idx, " Temperature");
            sensors.push(SensorConfig::temperature(state_topic, &device_config, name1.as_str(), key1.as_str()));
            let key2 = join_num("inv_", idx, "_grid_voltage");
            let name2 = join_num("Inverter ", idx, " Grid Voltage");
            sensors.push(SensorConfig::voltage(state_topic, &device_config, name2.as_str(), key2.as_str()));
            let key3 = join_num("inv_", idx, "_grid_freq");
            let name3 = join_num("Inverter ", idx, " Grid Frequency");
            sensors.push(SensorConfig::frequency(state_topic, &device_config, name3.as_str(), key3.as_str()));
            proof {
                assert forall|j: int| 0 <= j < 4 implies sensor_key(m, ports_done + 4 * i + j)
                    == inverter_key(idx, j) && sensor_name(m, ports_done + 4 * i + j)
                    == inverter_name(idx, j) by {
                    assert((ports_done + 4 * i + j - 4 - 5 * m.ports.len()) / 4 == i);
                    assert((ports_done + 4 * i + j - 4 - 5 * m.ports.len()) % 4 == j);
                }
                assert forall|k: int| 0 <= k < sensors@.len() implies sensor_entry_matches(
                    #[trigger] sensors@[k],
                    m,
                    state_topic@,
                    k,
                ) by {
                    if k < prev.len() {
                        assert(sensors@[k] == prev[k]);
                        assert(sensor_entry_matches(prev[k], m, state_topic@, k));
                    } else {
                        assert(sensor_key(m, k) == inverter_key(idx, k - prev.len()));
                        assert(sensor_name(m, k) == inverter_name(idx, k - prev.len()));
                        assert((k - 4 - 5 * m.ports.len()) % 4 == k - prev.len());
                    }
                }
            }
            i = i + 1;
        }
        sensors
    }
}

// ------------------------------------------------------------------
// the aggregated state payload
// ------------------------------------------------------------------
/// The JSON members one port reading contributes to the state payload.
pub open spec fn port_json(p: PortModel) -> Seq<char> {
    let d = dec_digits(p.pv_port as nat);
    ",\"pv_"@ + d + "_vol\":\""@ + deci(p.pv_vol) + "\",\"pv_"@ + d + "_cur\":\""@ + centi(p.pv_cur)
        + "\",\"pv_"@ + d + "_power\":\""@ + deci(p.pv_power) + "\",\"pv_"@ + d
        + "_energy_total\":"@ + dec_digits(p.pv_energy_total as nat) + ",\"pv_"@ + d
        + "_daily_yield\":"@ + dec_digits(p.pv_daily_yield as nat)
}

/// The JSON members of all port readings, in record order.
pub open spec fn ports_json(ports: Seq<PortModel>) -> Seq<char>
    decreases ports.len(),
{
    if ports.len() == 0 {
        Seq::empty()
    } else {
        ports_json(ports.drop_last()) + port_json(ports.last())
    }
}

/// The JSON members one inverter reading contributes to the state payload.
pub open spec fn inverter_json(v: InverterModel) -> Seq<char> {
    let d = dec_digits(v.port_id as nat);
    ",\"inv_"@ + d + "_grid_voltage\":\""@ + deci(v.grid_voltage) + "\",\"inv_"@ + d
        + "_grid_freq\":\""@ + centi(v.grid_freq) + "\",\"inv_"@ + d + "_pv_current_power\":\""@
        + deci(v.pv_current_power) + "\",\"inv_"@ + d + "_temperature\":\""@ + deci(v.temperature)
        + "\""@
}

/// The JSON members of all inverter readings, in record order.
pub open spec fn inverters_json(inverters: Seq<InverterModel>) -> Seq<char>
    decreases inverters.len(),
{
    if inverters.len() == 0 {
        Seq::empty()
    } else {
        inverters_json(inverters.drop_last()) + inverter_json(inverters.last())
    }
}

/// The aggregated state payload: one flat JSON object holding the serial,
/// the scaled aggregate power, the unscaled daily yield, the derived
/// efficiency, and every port and inverter member.
pub open spec fn spec_state_payload(m: ResponseModel) -> Seq<char> {
    "{\"dtu_sn\":\""@ + json_escape(m.dtu_sn) + "\",\"pv_current_power\":\""@ + deci(
        m.pv_current_power,
    ) + "\",\"pv_daily_yield\":"@ + dec_digits(m.pv_daily_yield as nat) + ",\"efficiency\":\""@
        + two_dec(spec_efficiency_h(m.pv_current_power, spec_total_port_power(m.ports))) + "\""@
        + ports_json(m.ports) + inverters_json(m.inverters) + "}"@
}

/// Appends one port reading's JSON members.
#[verifier::rlimit(100)]
fn append_port_json(out: &mut String, p: &PortState)
    ensures
        final(out)@ == old(out)@ + port_json(p.model()),
{
    let d = u32_string(p.pv_port);
    out.append(",\"pv_");
    out.append(d.as_str());
    out.append("_vol\":\"");
    let v0 = deci_display(p.pv_vol);
    out.append(v0.as_str());
    out.append("\",\"pv_");
    out.append(d.as_str());
    out.append("_cur\":\"");
    let v1 = centi_display(p.pv_cur);
    out.append(v1.as_str());
    out.append("\",\"pv_");
    out.append(d.as_str());
    out.append("_power\":\"");
    let v2 = deci_display(p.pv_power);
    out.append(v2.as_str());
    out.append("\",\"pv_");
    out.append(d.as_str());
    out.append("_energy_total\":");
    let v3 = u32_string(p.pv_energy_total);
    out.append(v3.as_str());
    out.append(",\"pv_");
    out.append(d.as_str());
    out.append("_daily_yield\":");
    let v4 = u32_string(p.pv_daily_yield);
    out.append(v4.as_str());
    proof {
        assert(out@ =~= old(out)@ + port_json(p.model()));
    }
}

/// Appends one inverter reading's JSON members.
#[verifier::rlimit(100)]
fn append_inverter_json(out: &mut String, v: &InverterState)
    ensures
        final(out)@ == old(out)@ + inverter_json(v.model()),
{
    let d = u32_string(v.port_id);
    out.append(",\"inv_");
    out.append(d.as_str());
    out.append("_grid_voltage\":\"");
    let v0 = deci_display(v.grid_voltage);
    out.append(v0.as_str());
    out.append("\",\"inv_");
    out.append(d.as_str());
    out.append("_grid_freq\":\"");
    let v1 = centi_display(v.grid_freq);
    out.append(v1.as_str());
    out.append("\",\"inv_");
    out.append(d.as_str());
    out.append("_pv_current_power\":\"");
    let v2 = deci_display(v.pv_current_power);
    out.append(v2.as_str());
    out.append("\",\"inv_");
    out.append(d.as_str());
    out.append("_temperature\":\"");
    let v3 = deci_display(v.temperature);
    out.append(v3.as_str());
    out.append("\"");
    proof {
        assert(out@ =~= old(out)@ + inverter_json(v.model()));
    }
}

impl HMSStateResponse {
    /// Renders the aggregated state payload for this record.
    #[verifier::rlimit(100)]
    pub fn to_json_payload(&self) -> (r: String)
        requires
            self.wf(),
        ensures
            r@ == spec_state_payload(self.model()),
    {
        let ghost m = self.model();
        let mut s = String::from_str("{\"dtu_sn\":\"");
        append_json_escaped(&mut s, self.dtu_sn.as_str());
        s.append("\",\"pv_current_power\":\"");
        let agg = deci_display(self.pv_current_power);
        s.append(agg.as_str());
        s.append("\",\"pv_daily_yield\":");
        let daily = u32_string(self.pv_daily_yield);
        s.append(daily.as_str());
        s.append(",\"efficiency\":\"");
        let eff = two_dec_string(self.get_total_efficiency());
        s.append(eff.as_str());
        s.append("\"");
        let ghost fixed_part = s@;

        let mut i: usize = 0;
        proof {
            assert(m.ports.take(0) =~= Seq::<PortModel>::empty());
        }
        while i < self.port_state.len()
            invariant
                i <= self.port_state@.len(),
                m == self.model(),
                s@ == fixed_part + ports_json(m.ports.take(i as int)),
            decreases self.port_state@.len() - i,
        {
            let p = &self.port_state[i];
            proof {
                assert(m.ports[i as int] == self.port_state@[i as int].model());
            }
            append_port_json(&mut s, p);
            proof {
                assert(m.ports.take(i + 1).drop_last() =~= m.ports.take(i as int));
                assert(m.ports.take(i + 1).last() == m.ports[i as int]);
                assert(s@ =~= fixed_part + ports_json(m.ports.take(i + 1)));
            }
            i = i + 1;
        }
        proof {
            assert(m.ports.take(self.port_state@.len() as int) =~= m.ports);
        }
        let ghost with_ports = s@;

        let mut i: usize = 0;
        proof {
            assert(m.inverters.take(0) =~= Seq::<InverterModel>::empty());
        }
        while i < self.inverter_state.len()
            invariant
                i <= self.inverter_state@.len(),
                m == self.model(),
                s@ == with_ports + inverters_json(m.inverters.take(i as int)),
            decreases self.inverter_state@.len() - i,
        {
            let v = &self.inverter_state[i];
            proof {
                assert(m.inverters[i as int] == self.inverter_state@[i as int].model());
            }
            append_inverter_json(&mut s, v);
            proof {
                assert(m.inverters.take(i + 1).drop_last() =~= m.inverters.take(i as int));
                assert(m.inverters.take(i + 1).last() == m.inverters[i as int]);
                assert(s@ =~= with_ports + inverters_json(m.inverters.take(i + 1)));
            }
            i = i + 1;
        }
        proof {
            assert(m.inverters.take(self.inverter_state@.len() as int) =~= m.inverters);
        }
        s.append("}");
        proof {
            assert(s@ =~= spec_state_payload(m));
        }
        s
    }
}

// ------------------------------------------------------------------
// the discovery config payloads
// ------------------------------------------------------------------
/// The JSON array contents of a device's identifier list.
pub open spec fn identifiers_json(ids: Seq<Seq<char>>) -> Seq<char>
    decreases ids.len(),
{
    if ids.len() == 0 {
        Seq::empty()
    } else if ids.len() == 1 {
        "\""@ + json_escape(ids[0]) + "\""@
    } else {
        identifiers_json(ids.drop_last()) + ",\""@ + json_escape(ids.last()) + "\""@
    }
}

/// The JSON object for a device descriptor.
pub open spec fn spec_device_json(d: DeviceModel) -> Seq<char> {
    "{\"name\":\""@ + json_escape(d.name) + "\",\"model\":\""@ + json_escape(d.model)
        + "\",\"identifiers\":["@ + identifiers_json(d.identifiers) + "],\"manufacturer\":\""@
        + json_escape(d.manufacturer) + "\",\"sw_version\":\""@ + json_escape(d.sw_version)
        + "\"}"@
}

/// An optional string member: present exactly when the field is set.
pub open spec fn opt_json_member(key: Seq<char>, v: Option<String>) -> Seq<char> {
    match v {
        None => Seq::empty(),
        Some(s) => ",\""@ + key + "\":\""@ + json_escape(s@) + "\""@,
    }
}

/// The JSON object for one sensor's discovery config.
pub open spec fn spec_sensor_json(s: SensorConfig) -> Seq<char> {
    "{\"unique_id\":\""@ + json_escape(s.unique_id@) + "\",\"name\":\""@ + json_escape(s.name@)
        + "\",\"state_topic\":\""@ + json_escape(s.state_topic@) + "\",\"value_template\":\""@
        + json_escape(s.value_template@) + "\",\"device\":"@ + spec_device_json(s.device.dm())
        + opt_json_member("unit_of_measurement"@, s.unit_of_measurement) + opt_json_member(
        "device_class"@,
        s.device_class,
    ) + opt_json_member("state_class"@, s.state_class) + "}"@
}

impl DeviceConfig {
    /// Renders the descriptor as its discovery JSON object.
    #[verifier::rlimit(100)]
    pub fn config_json(&self) -> (r: String)
        ensures
            r@ == spec_device_json(self.dm()),
    {
        let ghost ids = self.dm().identifiers;
        let mut s = String::from_str("{\"name\":\"");
        append_json_escaped(&mut s, self.name.as_str());
        s.append("\",\"model\":\"");
        append_json_escaped(&mut s, self.model.as_str());
        s.append("\",\"identifiers\":[");
        let ghost arr_start = s@;
        let mut i: usize = 0;
        proof {
            assert(ids.take(0) =~= Seq::<Seq<char>>::empty());
        }
        while i < self.identifiers.len()
            invariant
                i <= self.identifiers@.len(),
                ids == self.dm().identifiers,
                ids == self.identifiers@.map_values(|t: String| t@),
                s@ == arr_start + identifiers_json(ids.take(i as int)),
            decreases self.identifiers@.len() - i,
        {
            proof {
                assert(ids[i as int] == self.identifiers@[i as int]@);
            }
            if i > 0 {
                s.append(",\"");
            } else {
                s.append("\"");
            }
            append_json_escaped(&mut s, self.identifiers[i].as_str());
            s.append("\"");
            proof {
                reveal_strlit("\"");
                reveal_strlit(",\"");
                assert(ids.take(i + 1).drop_last() =~= ids.take(i as int));
                assert(ids.take(i + 1).last() == ids[i as int]);
                if i == 0 {
                    assert(s@ =~= arr_start + identifiers_json(ids.take(i + 1)));
                } else {
                    assert(s@ =~= arr_start + identifiers_json(ids.take(i + 1)));
                }
            }
            i = i + 1;
        }
        proof {
            assert(ids.take(self.identifiers@.len() as int) =~= ids);
        }
        s.append("],\"manufacturer\":\"");
        append_json_escaped(&mut s, self.manufacturer.as_str());
        s.append("\",\"sw_version\":\"");
        append_json_escaped(&mut s, self.sw_version.as_str());
        s.append("\"}");
        proof {
            assert(s@ =~= spec_device_json(self.dm()));
        }
        s
    }
}

/// Appends an optional string member.
fn append_opt_member(out: &mut String, key: &str, v: &Option<String>)
    ensures
        final(out)@ == old(out)@ + opt_json_member(key@, *v),
{
    match v {
        None => {},
        Some(t) => {
            out.append(",\"");
            out.append(key);
            out.append("\":\"");
            append_json_escaped(out, t.as_str());
            out.append("\"");
            proof {
                assert(out@ =~= old(out)@ + opt_json_member(key@, *v));
            }
        },
    }
}

impl SensorConfig {
    /// Renders this sensor's discovery config payload.
    #[verifier::rlimit(100)]
    pub fn config_json(&self) -> (r: String)
        ensures
            r@ == spec_sensor_json(*self),
    {
        let mut s = String::from_str("{\"unique_id\":\"");
        append_json_escaped(&mut s, self.unique_id.as_str());
        s.append("\",\"name\":\"");
        append_json_escaped(&mut s, self.name.as_str());
        s.append("\",\"state_topic\":\"");
        append_json_escaped(&mut s, self.state_topic.as_str());
        s.append("\",\"value_template\":\"");
        append_json_escaped(&mut s, self.value_template.as_str());
        s.append("\",\"device\":");
        let device = self.device.config_json();
        s.append(device.as_str());
        append_opt_member(&mut s, "unit_of_measurement", &self.unit_of_measurement);
        append_opt_member(&mut s, "device_class", &self.device_class);
        append_opt_member(&mut s, "state_class", &self.state_class);
        s.append("}");
        proof {
            assert(s@ =~= spec_sensor_json(*self));
        }
        s
    }
}

// ------------------------------------------------------------------
// the discovery sink
// ------------------------------------------------------------------
/// The discovery publish strategy over any MQTT client: every sensor's
/// config payload first, then the one aggregated state payload, so the
/// subscriber never sees state for an unconfigured sensor.
pub struct HomeAssistant<MQTT: MqttWrapper> {
    client: MQTT,
}

impl<MQTT: MqttWrapper> HomeAssistant<MQTT> {
    pub fn new(config: &MqttConfig) -> Self {
        let client = MQTT::new(config, "-ha");
        HomeAssistant { client }
    }

    /// Publishes one payload at most once, retained; a failure is dropped.
    fn publish_json(&mut self, topic: &str, payload: String) {
        let _ = self.client.publish(topic, QoS::AtMostOnce, true, payload);
    }

    /// Publishes every sensor's discovery config under its own config
    /// topic.
    fn publish_configs(&mut self, config_topic: &str, sensor_configs: &Vec<SensorConfig>) {
        let mut k: usize = 0;
        while k < sensor_configs.len()
            decreases sensor_configs@.len() - k,
        {
            let sensor = &sensor_configs[k];
            let mut topic = config_topic.to_owned();
            topic.append("/");
            topic.append(sensor.unique_id.as_str());
            topic.append("/config");
            let payload = sensor.config_json();
            self.publish_json(topic.as_str(), payload);
            k = k + 1;
        }
    }

    /// Publishes the aggregated state payload.
    fn publish_states(&mut self, hms_state: &HMSStateResponse, state_topic: &str)
        requires
            hms_state.wf(),
    {
        let payload = hms_state.to_json_payload();
        self.publish_json(state_topic, payload);
    }
}

// ------------------------------------------------------------------
// uniqueness of the generated sensor ids
// ------------------------------------------------------------------
/// The five per-port key suffixes: at least four characters, starting with
/// an underscore, and pairwise distinct.
proof fn lemma_port_suffix_facts(j1: int, j2: int)
    requires
        0 <= j1 < 5,
        0 <= j2 < 5,
    ensures
        port_suffix(j1).len() >= 4,
        port_suffix(j1)[0] == '_',
        j1 != j2 ==> port_suffix(j1) != port_suffix(j2),
{
    reveal_strlit("_power");
    reveal_strlit("_vol");
    reveal_strlit("_cur");
    reveal_strlit("_daily_yield");
    reveal_strlit("_energy_total");
    if j1 != j2 && port_suffix(j1) == port_suffix(j2) {
        assert(port_suffix(j1).len() == port_suffix(j2).len());
        // only "_vol" and "_cur" share a length; they differ at index 1
        assert(port_suffix(j1)[1] == port_suffix(j2)[1]);
        assert(false);
    }
}

/// The four per-inverter key suffixes: at least four characters, starting
/// with an underscore, and pairwise distinct by their lengths.
proof fn lemma_inverter_suffix_facts(j1: int, j2: int)
    requires
        0 <= j1 < 4,
        0 <= j2 < 4,
    ensures
        inverter_suffix(j1).len() >= 4,
        inverter_suffix(j1)[0] == '_',
        j1 != j2 ==> inverter_suffix(j1) != inverter_suffix(j2),
{
    reveal_strlit("_pv_current_power");
    reveal_strlit("_temperature");
    reveal_strlit("_grid_voltage");
    reveal_strlit("_grid_freq");
    if j1 != j2 && inverter_suffix(j1) == inverter_suffix(j2) {
        assert(inverter_suffix(j1).len() == inverter_suffix(j2).len());
        assert(false);
    }
}

/// Equal per-port keys come from the same port index and the same slot.
proof fn lemma_port_key_inj(a: u32, ja: int, b: u32, jb: int)
    requires
        0 <= ja < 5,
        0 <= jb < 5,
        port_key(a, ja) == port_key(b, jb),
    ensures
        a == b,
        ja == jb,
{
    let da = dec_digits(a as nat);
    let db = dec_digits(b as nat);
    let sa = port_suffix(ja);
    let sb = port_suffix(jb);
    assert(("pv_"@ + da + sa) =~= ("pv_"@ + (da + sa)));
    assert(("pv_"@ + db + sb) =~= ("pv_"@ + (db + sb)));
    crate::text::lemma_prefix_strip("pv_"@, da + sa, db + sb);
    crate::text::lemma_dec_digits_are_digits(a as nat);
    crate::text::lemma_dec_digits_are_digits(b as nat);
    lemma_port_suffix_facts(ja, jb);
    lemma_port_suffix_facts(jb, ja);
    assert(!crate::text::is_digit('_'));
    crate::text::lemma_digit_run_unambiguous(da, sa, db, sb);
    crate::text::lemma_dec_digits_injective(a as nat, b as nat);
}

/// Equal per-inverter keys come from the same index and the same slot.
proof fn lemma_inverter_key_inj(a: u32, ja: int, b: u32, jb: int)
    requires
        0 <= ja < 4,
        0 <= jb < 4,
        inverter_key(a, ja) == inverter_key(b, jb),
    ensures
        a == b,
        ja == jb,
{
    let da = dec_digits(a as nat);
    let db = dec_digits(b as nat);
    let sa = inverter_suffix(ja);
    let sb = inverter_suffix(jb);
    assert(("inv_"@ + da + sa) =~= ("inv_"@ + (da + sa)));
    assert(("inv_"@ + db + sb) =~= ("inv_"@ + (db + sb)));
    crate::text::lemma_prefix_strip("inv_"@, da + sa, db + sb);
    crate::text::lemma_dec_digits_are_digits(a as nat);
    crate::text::lemma_dec_digits_are_digits(b as nat);
    lemma_inverter_suffix_facts(ja, jb);
    lemma_inverter_suffix_facts(jb, ja);
    assert(!crate::text::is_digit('_'));
    crate::text::lemma_digit_run_unambiguous(da, sa, db, sb);
    crate::text::lemma_dec_digits_injective(a as nat, b as nat);
}

/// No whole-device key collides with a per-port key.
proof fn lemma_fixed_port_disjoint(jf: int, idx: u32, jp: int)
    requires
        0 <= jf < 4,
        0 <= jp < 5,
    ensures
        fixed_key(jf) != port_key(idx, jp),
{
    reveal_strlit("dtu_sn");
    reveal_strlit("pv_current_power");
    reveal_strlit("pv_daily_yield");
    reveal_strlit("efficiency");
    reveal_strlit("pv_");
    let d = dec_digits(idx as nat);
    crate::text::lemma_dec_digits_are_digits(idx as nat);
    let k = port_key(idx, jp);
    assert(k[0] == 'p');
    assert(k[3] == d[0]);
    if fixed_key(jf) == k {
        if jf == 0 || jf == 3 {
            assert(fixed_key(jf)[0] != 'p');
        } else {
            assert(!crate::text::is_digit(fixed_key(jf)[3]));
        }
        assert(false);
    }
}

/// No whole-device key collides with a per-inverter key.
proof fn lemma_fixed_inverter_disjoint(jf: int, idx: u32, ji: int)
    requires
        0 <= jf < 4,
        0 <= ji < 4,
    ensures
        fixed_key(jf) != inverter_key(idx, ji),
{
    reveal_strlit("dtu_sn");
    reveal_strlit("pv_current_power");
    reveal_strlit("pv_daily_yield");
    reveal_strlit("efficiency");
    reveal_strlit("inv_");
    let k = inverter_key(idx, ji);
    assert(k[0] == 'i');
    if fixed_key(jf) == k {
        assert(fixed_key(jf)[0] != 'i');
        assert(false);
    }
}

/// No per-port key collides with a per-inverter key.
proof fn lemma_port_inverter_disjoint(pidx: u32, jp: int, iidx: u32, ji: int)
    requires
        0 <= jp < 5,
        0 <= ji < 4,
    ensures
        port_key(pidx, jp) != inverter_key(iidx, ji),
{
    reveal_strlit("pv_");
    reveal_strlit("inv_");
    if port_key(pidx, jp) == inverter_key(iidx, ji) {
        assert(port_key(pidx, jp)[1] == 'v');
        assert(inverter_key(iidx, ji)[1] == 'n');
        assert(false);
    }
}

/// The four whole-device keys are pairwise distinct.
proof fn lemma_fixed_key_inj(j1: int, j2: int)
    requires
        0 <= j1 < 4,
        0 <= j2 < 4,
        fixed_key(j1) == fixed_key(j2),
    ensures
        j1 == j2,
{
    reveal_strlit("dtu_sn");
    reveal_strlit("pv_current_power");
    reveal_strlit("pv_daily_yield");
    reveal_strlit("efficiency");
    assert(fixed_key(0).len() == 6);
    assert(fixed_key(1).len() == 16);
    assert(fixed_key(2).len() == 14);
    assert(fixed_key(3).len() == 10);
    if j1 != j2 {
        assert(fixed_key(j1).len() == fixed_key(j2).len());
        assert(false);
    }
}

/// Distinct sensor positions of one record carry distinct field keys, as
/// long as port indexes are unique within the record and inverter indexes
/// are unique within the record.
proof fn lemma_sensor_keys_distinct(m: ResponseModel, k1: int, k2: int)
    requires
        forall|i: int, j: int|
            0 <= i < j < m.ports.len() ==> m.ports[i].pv_port != m.ports[j].pv_port,
        forall|i: int, j: int|
            0 <= i < j < m.inverters.len() ==> m.inverters[i].port_id != m.inverters[j].port_id,
        0 <= k1 < k2 < sensor_count(m),
    ensures
        sensor_key(m, k1) != sensor_key(m, k2),
{
    let pl = m.ports.len() as int;
    let il = m.inverters.len() as int;
    if sensor_key(m, k1) == sensor_key(m, k2) {
        if k2 < 4 {
            lemma_fixed_key_inj(k1, k2);
        } else if k1 < 4 && k2 < 4 + 5 * pl {
            lemma_fixed_port_disjoint(k1, m.ports[(k2 - 4) / 5].pv_port, (k2 - 4) % 5);
        } else if k1 < 4 {
            lemma_fixed_inverter_disjoint(
                k1,
                m.inverters[(k2 - 4 - 5 * pl) / 4].port_id,
                (k2 - 4 - 5 * pl) % 4,
            );
        } else if k1 < 4 + 5 * pl && k2 < 4 + 5 * pl {
            let i1 = (k1 - 4) / 5;
            let j1 = (k1 - 4) % 5;
            let i2 = (k2 - 4) / 5;
            let j2 = (k2 - 4) % 5;
            assert(0 <= i1 < pl && 0 <= i2 < pl);
            lemma_port_key_inj(m.ports[i1].pv_port, j1, m.ports[i2].pv_port, j2);
            assert(m.ports[i1].pv_port == m.ports[i2].pv_port);
            if i1 < i2 {
                assert(m.ports[i1].pv_port != m.ports[i2].pv_port);
            } else if i2 < i1 {
                assert(m.ports[i2].pv_port != m.ports[i1].pv_port);
            }
            assert(i1 == i2 && j1 == j2);
            assert(k1 == 4 + 5 * i1 + j1);
            assert(k2 == 4 + 5 * i2 + j2);
            assert(false);
        } else if k1 < 4 + 5 * pl {
            lemma_port_inverter_disjoint(
                m.ports[(k1 - 4) / 5].pv_port,
                (k1 - 4) % 5,
                m.inverters[(k2 - 4 - 5 * pl) / 4].port_id,
                (k2 - 4 - 5 * pl) % 4,
            );
        } else {
            let i1 = (k1 - 4 - 5 * pl) / 4;
            let j1 = (k1 - 4 - 5 * pl) % 4;
            let i2 = (k2 - 4 - 5 * pl) / 4;
            let j2 = (k2 - 4 - 5 * pl) % 4;
            assert(0 <= i1 < il && 0 <= i2 < il);
            lemma_inverter_key_inj(m.inverters[i1].port_id, j1, m.inverters[i2].port_id, j2);
            assert(m.inverters[i1].port_id == m.inverters[i2].port_id);
            if i1 < i2 {
                assert(m.inverters[i1].port_id != m.inverters[i2].port_id);
            } else if i2 < i1 {
                assert(m.inverters[i2].port_id != m.inverters[i1].port_id);
            }
            assert(i1 == i2 && j1 == j2);
            assert(k1 == 4 + 5 * pl + 4 * i1 + j1);
            assert(k2 == 4 + 5 * pl + 4 * i2 + j2);
            assert(false);
        }
    }
}

/// For a record whose port indexes are unique and whose inverter indexes
/// are unique, the discovery schema's sensor ids are pairwise distinct:
/// every position among the `4 + 5N + 4M` generated sensors gets its own
/// unique id.
pub proof fn lemma_sensor_ids_unique(m: ResponseModel)
    requires
        forall|i: int, j: int|
            0 <= i < j < m.ports.len() ==> m.ports[i].pv_port != m.ports[j].pv_port,
        forall|i: int, j: int|
            0 <= i < j < m.inverters.len() ==> m.inverters[i].port_id != m.inverters[j].port_id,
    ensures
        forall|k1: int, k2: int|
            0 <= k1 < k2 < sensor_count(m) ==> spec_unique_id(
                spec_device_id(m.dtu_sn),
                sensor_key(m, k1),
            ) != spec_unique_id(spec_device_id(m.dtu_sn), sensor_key(m, k2)),
{
    let dev = spec_device_id(m.dtu_sn);
    assert forall|k1: int, k2: int| 0 <= k1 < k2 < sensor_count(m) implies spec_unique_id(
        dev,
        sensor_key(m, k1),
    ) != spec_unique_id(dev, sensor_key(m, k2)) by {
        if spec_unique_id(dev, sensor_key(m, k1)) == spec_unique_id(dev, sensor_key(m, k2)) {
            assert((dev + "_"@ + sensor_key(m, k1)) =~= ((dev + "_"@) + sensor_key(m, k1)));
            assert((dev + "_"@ + sensor_key(m, k2)) =~= ((dev + "_"@) + sensor_key(m, k2)));
            crate::text::lemma_prefix_strip(dev + "_"@, sensor_key(m, k1), sensor_key(m, k2));
            lemma_sensor_keys_distinct(m, k1, k2);
        }
    }
}

/// Sensor ids are stable across polls: two records from the same device
/// whose readings sit on the same ports derive the same id at every
/// position, whatever the register values are.
pub proof fn lemma_sensor_ids_stable(m1: ResponseModel, m2: ResponseModel, k: int)
    requires
        m1.dtu_sn == m2.dtu_sn,
        m1.ports.len() == m2.ports.len(),
        m1.inverters.len() == m2.inverters.len(),
        forall|i: int| 0 <= i < m1.ports.len() ==> m1.ports[i].pv_port == m2.ports[i].pv_port,
        forall|i: int|
            0 <= i < m1.inverters.len() ==> m1.inverters[i].port_id == m2.inverters[i].port_id,
        0 <= k < sensor_count(m1),
    ensures
        spec_unique_id(spec_device_id(m1.dtu_sn), sensor_key(m1, k)) == spec_unique_id(
            spec_device_id(m2.dtu_sn),
            sensor_key(m2, k),
        ),
{
    if 4 <= k < 4 + 5 * m1.ports.len() {
        assert(m1.ports[(k - 4) / 5].pv_port == m2.ports[(k - 4) / 5].pv_port);
    } else if k >= 4 + 5 * m1.ports.len() {
        assert(m1.inverters[(k - 4 - 5 * m1.ports.len()) / 4].port_id == m2.inverters[(k - 4 - 5
            * m1.ports.len()) / 4].port_id);
    }
}

impl<MQTT: MqttWrapper> MetricCollector for HomeAssistant<MQTT> {
    /// Regenerates descriptors and state for the record and publishes all
    /// discovery configs before the single state payload.
    fn publish(&mut self, hms_state: &HMSStateResponse) {
        let short = hms_state.short_dtu_sn();
        let mut config_topic = String::from_str("homeassistant/sensor/hms_");
        config_topic.append(short.as_str());
        let mut state_topic = String::from_str("solar/hms_");
        state_topic.append(short.as_str());
        state_topic.append("/state");

        let sensor_configs = hms_state.create_sensor_configs(state_topic.as_str());
        self.publish_configs(config_topic.as_str(), &sensor_configs);
        self.publish_states(hms_state, state_topic.as_str());
    }
}

} // verus!
