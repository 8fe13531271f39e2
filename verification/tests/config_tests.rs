use hms2mqtt::config::Config;
use hms2mqtt::mqtt_config::MqttConfig;

fn broker(host: &str) -> MqttConfig {
    MqttConfig {
        host: host.to_owned(),
        port: None,
        username: None,
        password: None,
        client_id: None,
        tls: None,
    }
}

#[test]
fn config_needs_an_inverter_host_and_one_sink() {
    let valid = Config {
        inverter_host: "10.0.0.1".to_owned(),
        home_assistant: Some(broker("broker")),
        simple_mqtt: None,
    };
    assert!(valid.is_valid());

    let no_host = Config {
        inverter_host: String::new(),
        home_assistant: Some(broker("broker")),
        simple_mqtt: None,
    };
    assert!(!no_host.is_valid());

    let no_sink = Config {
        inverter_host: "10.0.0.1".to_owned(),
        home_assistant: None,
        simple_mqtt: None,
    };
    assert!(!no_sink.is_valid());

    let empty_broker = Config {
        inverter_host: "10.0.0.1".to_owned(),
        home_assistant: Some(broker("")),
        simple_mqtt: None,
    };
    assert!(!empty_broker.is_valid());

    let second_sink_only = Config {
        inverter_host: "10.0.0.1".to_owned(),
        home_assistant: None,
        simple_mqtt: Some(broker("broker")),
    };
    assert!(second_sink_only.is_valid());
}
