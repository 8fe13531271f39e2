use hms2mqtt::simple_mqtt::simple_pairs;
use hms2mqtt::telemetry::HMSStateResponse;
use hms2mqtt::telemetry::PortState;

#[test]
fn simple_sink_emits_seventeen_flat_pairs() {
    let rec = HMSStateResponse {
        dtu_sn: "1234567890123456".to_owned(),
        pv_current_power: 500,
        pv_daily_yield: 1200,
        port_state: vec![PortState {
            pv_port: 1,
            pv_vol: 2300,
            pv_cur: 0,
            pv_power: 1000,
            pv_energy_total: 0,
            pv_daily_yield: 0,
        }],
        inverter_state: vec![],
    };
    let pairs = simple_pairs(&rec);
    let expected: Vec<(&str, &str)> = vec![
        ("hms800wt2/pv_current_power", "50.00"),
        ("hms800wt2/pv_daily_yield", "1200"),
        ("hms800wt2/pv_current_power", "50.00"),
        ("hms800wt2/pv_daily_yield", "1200"),
        ("hms800wt2/pv_grid_voltage", "0.00"),
        ("hms800wt2/pv_grid_freq", "0.00"),
        ("hms800wt2/pv_inv_temperature", "0.00"),
        ("hms800wt2/pv_port1_voltage", "230.00"),
        ("hms800wt2/pv_port1_curr", "0.00"),
        ("hms800wt2/pv_port1_power", "100.00"),
        ("hms800wt2/pv_port1_energy", "0"),
        ("hms800wt2/pv_port1_daily_yield", "0"),
        ("hms800wt2/pv_port2_voltage", "0.00"),
        ("hms800wt2/pv_port2_curr", "0.00"),
        ("hms800wt2/pv_port2_power", "0.00"),
        ("hms800wt2/pv_port2_energy", "0"),
        ("hms800wt2/pv_port2_daily_yield", "0"),
    ];
    assert_eq!(pairs.len(), 17);
    for (got, want) in pairs.iter().zip(expected.iter()) {
        assert_eq!(got.0.as_str(), want.0);
        assert_eq!(got.1.as_str(), want.1);
    }
}

#[test]
fn simple_sink_scales_current_by_one_hundredth() {
    let rec = HMSStateResponse {
        dtu_sn: "1234567890123456".to_owned(),
        pv_current_power: 0,
        pv_daily_yield: 0,
        port_state: vec![PortState {
            pv_port: 1,
            pv_vol: 0,
            pv_cur: 123,
            pv_power: 0,
            pv_energy_total: 54321,
            pv_daily_yield: 678,
        }],
        inverter_state: vec![],
    };
    let pairs = simple_pairs(&rec);
    assert_eq!(pairs[8].1, "1.23");
    // energy and daily yield pass through unscaled
    assert_eq!(pairs[10].1, "54321");
    assert_eq!(pairs[11].1, "678");
}
