use hms2mqtt::home_assistant::DeviceConfig;
use hms2mqtt::home_assistant::SensorConfig;
use hms2mqtt::telemetry::HMSStateResponse;
use hms2mqtt::telemetry::InverterState;
use hms2mqtt::telemetry::PortState;

fn port(idx: u32) -> PortState {
    PortState {
        pv_port: idx,
        pv_vol: 0,
        pv_cur: 0,
        pv_power: 0,
        pv_energy_total: 0,
        pv_daily_yield: 0,
    }
}

fn inverter(idx: u32) -> InverterState {
    InverterState {
        port_id: idx,
        grid_voltage: 0,
        grid_freq: 0,
        pv_current_power: 0,
        temperature: 0,
    }
}

fn record(ports: Vec<PortState>, inverters: Vec<InverterState>) -> HMSStateResponse {
    HMSStateResponse {
        dtu_sn: "1234567890123456".to_owned(),
        pv_current_power: 500,
        pv_daily_yield: 1200,
        port_state: ports,
        inverter_state: inverters,
    }
}

#[test]
fn sensor_count_is_four_plus_five_per_port_plus_four_per_inverter() {
    for (n, m) in [(0usize, 0usize), (1, 0), (0, 1), (2, 1), (3, 2)] {
        let ports: Vec<PortState> = (0..n).map(|i| port(i as u32 + 1)).collect();
        let inverters: Vec<InverterState> = (0..m).map(|i| inverter(i as u32 + 1)).collect();
        let rec = record(ports, inverters);
        let sensors = rec.create_sensor_configs("solar/hms_12345678/state");
        assert_eq!(sensors.len(), 4 + 5 * n + 4 * m);
    }
}

#[test]
fn sensor_ids_are_unique_within_a_record() {
    let rec = record(vec![port(1), port(2), port(12)], vec![inverter(1), inverter(2)]);
    let sensors = rec.create_sensor_configs("solar/hms_12345678/state");
    assert_eq!(sensors.len(), 4 + 15 + 8);
    for a in 0..sensors.len() {
        for b in (a + 1)..sensors.len() {
            assert_ne!(sensors[a].unique_id, sensors[b].unique_id);
        }
    }
}

#[test]
fn sensor_ids_join_device_identifier_and_field_key() {
    let rec = record(vec![port(1)], vec![inverter(1)]);
    let sensors = rec.create_sensor_configs("solar/hms_12345678/state");
    let ids: Vec<&str> = sensors.iter().map(|s| s.unique_id.as_str()).collect();
    assert_eq!(
        ids,
        vec![
            "hms_12345678_dtu_sn",
            "hms_12345678_pv_current_power",
            "hms_12345678_pv_daily_yield",
            "hms_12345678_efficiency",
            "hms_12345678_pv_1_power",
            "hms_12345678_pv_1_vol",
            "hms_12345678_pv_1_cur",
            "hms_12345678_pv_1_daily_yield",
            "hms_12345678_pv_1_energy_total",
            "hms_12345678_inv_1_pv_current_power",
            "hms_12345678_inv_1_temperature",
            "hms_12345678_inv_1_grid_voltage",
            "hms_12345678_inv_1_grid_freq",
        ]
    );
}

#[test]
fn sensor_metadata_follows_the_field_kind() {
    let rec = record(vec![port(1)], vec![inverter(1)]);
    let sensors = rec.create_sensor_configs("solar/hms_12345678/state");
    // whole-device power sensor
    assert_eq!(sensors[1].name, "Total Power");
    assert_eq!(sensors[1].unit_of_measurement.as_deref(), Some("W"));
    assert_eq!(sensors[1].device_class.as_deref(), Some("power"));
    assert_eq!(sensors[1].state_class.as_deref(), Some("measurement"));
    assert_eq!(sensors[1].value_template, "{{ value_json.pv_current_power }}");
    assert_eq!(sensors[1].state_topic, "solar/hms_12345678/state");
    // the serial sensor carries no unit and no classes
    assert_eq!(sensors[0].unit_of_measurement, None);
    assert_eq!(sensors[0].device_class, None);
    assert_eq!(sensors[0].state_class, None);
    // efficiency has a unit but no device class
    assert_eq!(sensors[3].unit_of_measurement.as_deref(), Some("%"));
    assert_eq!(sensors[3].device_class, None);
    // frequency sensor of the inverter
    assert_eq!(sensors[12].unit_of_measurement.as_deref(), Some("Hz"));
    assert_eq!(sensors[12].device_class.as_deref(), Some("frequency"));
    // the shared device descriptor
    assert_eq!(sensors[0].device.name, "Hoymiles HMS-WiFi 12345678");
    assert_eq!(sensors[0].device.model, "HMS-WiFi");
    assert_eq!(sensors[0].device.identifiers, vec!["hms_12345678".to_owned()]);
    assert_eq!(sensors[0].device.manufacturer, "Hoymiles");
}

#[test]
fn device_names_derive_from_the_serial() {
    let rec = record(vec![], vec![]);
    assert_eq!(rec.get_model(), "HMS-WiFi");
    assert_eq!(rec.short_dtu_sn(), "12345678");
    assert_eq!(rec.get_name(), "Hoymiles HMS-WiFi 12345678");
    assert_eq!(rec.device_id(), "hms_12345678");
}

#[test]
fn efficiency_is_zero_when_ports_are_idle() {
    let rec = record(vec![port(1)], vec![]);
    assert_eq!(rec.get_total_efficiency(), 0);
}

#[test]
fn efficiency_is_the_aggregate_share_of_port_power() {
    let mut p = port(1);
    p.pv_power = 1000;
    let rec = record(vec![p], vec![]);
    // aggregate raw 500 over port raw 1000 is 50.00 percent
    assert_eq!(rec.get_total_efficiency(), 5000);
}

#[test]
fn state_payload_of_a_bare_record() {
    let mut rec = record(vec![], vec![]);
    rec.pv_current_power = 0;
    rec.pv_daily_yield = 0;
    assert_eq!(
        rec.to_json_payload(),
        "{\"dtu_sn\":\"1234567890123456\",\"pv_current_power\":\"0.00\",\
         \"pv_daily_yield\":0,\"efficiency\":\"0.00\"}"
    );
}

#[test]
fn state_payload_carries_scaled_port_and_inverter_members() {
    let mut p = port(1);
    p.pv_vol = 2300;
    p.pv_cur = 123;
    p.pv_power = 1000;
    p.pv_energy_total = 54321;
    p.pv_daily_yield = 678;
    let mut v = inverter(1);
    v.grid_voltage = 2290;
    v.grid_freq = 4999;
    v.pv_current_power = 980;
    v.temperature = 375;
    let rec = record(vec![p], vec![v]);
    assert_eq!(
        rec.to_json_payload(),
        "{\"dtu_sn\":\"1234567890123456\",\"pv_current_power\":\"50.00\",\
         \"pv_daily_yield\":1200,\"efficiency\":\"50.00\",\
         \"pv_1_vol\":\"230.00\",\"pv_1_cur\":\"1.23\",\"pv_1_power\":\"100.00\",\
         \"pv_1_energy_total\":54321,\"pv_1_daily_yield\":678,\
         \"inv_1_grid_voltage\":\"229.00\",\"inv_1_grid_freq\":\"49.99\",\
         \"inv_1_pv_current_power\":\"98.00\",\"inv_1_temperature\":\"37.50\"}"
    );
}

#[test]
fn config_payload_spells_out_the_sensor() {
    let device = DeviceConfig::new(
        "Hoymiles HMS-WiFi 12345678".to_owned(),
        "HMS-WiFi".to_owned(),
        vec!["hms_12345678".to_owned()],
    );
    let sensor = SensorConfig::power(
        "solar/hms_12345678/state",
        &device,
        "Total Power",
        "pv_current_power",
    );
    assert_eq!(
        sensor.config_json(),
        "{\"unique_id\":\"hms_12345678_pv_current_power\",\"name\":\"Total Power\",\
         \"state_topic\":\"solar/hms_12345678/state\",\
         \"value_template\":\"{{ value_json.pv_current_power }}\",\
         \"device\":{\"name\":\"Hoymiles HMS-WiFi 12345678\",\"model\":\"HMS-WiFi\",\
         \"identifiers\":[\"hms_12345678\"],\"manufacturer\":\"Hoymiles\",\
         \"sw_version\":\"0.1.0\"},\
         \"unit_of_measurement\":\"W\",\"device_class\":\"power\",\
         \"state_class\":\"measurement\"}"
    );
}

#[test]
fn state_payload_escapes_the_serial() {
    let mut rec = record(vec![], vec![]);
    rec.dtu_sn = "12\"345678\\".to_owned();
    let payload = rec.to_json_payload();
    assert!(payload.starts_with("{\"dtu_sn\":\"12\\\"345678\\\\\","));
}

#[test]
fn sensor_ids_are_stable_across_polls() {
    let first = record(vec![port(1), port(2)], vec![inverter(1)]);
    let mut changed_port = port(1);
    changed_port.pv_power = 9999;
    let mut second = record(vec![changed_port, port(2)], vec![inverter(1)]);
    second.pv_current_power = 1;
    let a = first.create_sensor_configs("solar/hms_12345678/state");
    let b = second.create_sensor_configs("solar/hms_12345678/state");
    assert_eq!(a.len(), b.len());
    for (x, y) in a.iter().zip(b.iter()) {
        assert_eq!(x.unique_id, y.unique_id);
    }
}
