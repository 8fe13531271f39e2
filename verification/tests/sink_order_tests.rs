use std::sync::Mutex;
use std::sync::OnceLock;

use hms2mqtt::home_assistant::HomeAssistant;
use hms2mqtt::metric_collector::MetricCollector;
use hms2mqtt::mqtt_config::MqttConfig;
use hms2mqtt::mqtt_wrapper::ClientError;
use hms2mqtt::mqtt_wrapper::MqttWrapper;
use hms2mqtt::mqtt_wrapper::QoS;
use hms2mqtt::telemetry::HMSStateResponse;
use hms2mqtt::telemetry::InverterState;
use hms2mqtt::telemetry::PortState;

fn published_topics() -> &'static Mutex<Vec<String>> {
    static TOPICS: OnceLock<Mutex<Vec<String>>> = OnceLock::new();
    TOPICS.get_or_init(|| Mutex::new(Vec::new()))
}

struct RecordingMqtt;

impl MqttWrapper for RecordingMqtt {
    fn subscribe(&mut self, _topic: &str, _qos: QoS) -> Result<(), ClientError> {
        Ok(())
    }

    fn publish(
        &mut self,
        topic: &str,
        _qos: QoS,
        _retain: bool,
        _payload: String,
    ) -> Result<(), ClientError> {
        published_topics().lock().unwrap().push(topic.to_owned());
        Ok(())
    }

    fn new(_config: &MqttConfig, _suffix: &str) -> Self {
        RecordingMqtt
    }
}

#[test]
fn discovery_sink_publishes_every_config_before_the_state() {
    let config = MqttConfig {
        host: "broker".to_owned(),
        port: None,
        username: None,
        password: None,
        client_id: None,
        tls: None,
    };
    let mut sink: HomeAssistant<RecordingMqtt> = HomeAssistant::new(&config);
    let rec = HMSStateResponse {
        dtu_sn: "1234567890123456".to_owned(),
        pv_current_power: 500,
        pv_daily_yield: 1200,
        port_state: vec![PortState {
            pv_port: 1,
            pv_vol: 2300,
            pv_cur: 0,
            pv_power: 1000,
            pv_energy_total: 0,
            pv_daily_yield: 0,
        }],
        inverter_state: vec![InverterState {
            port_id: 1,
            grid_voltage: 2290,
            grid_freq: 4999,
            pv_current_power: 980,
            temperature: 375,
        }],
    };
    sink.publish(&rec);
    let topics = published_topics().lock().unwrap();
    // four whole-device sensors, five for the port, four for the inverter,
    // then exactly one state payload
    assert_eq!(topics.len(), 14);
    for topic in &topics[..13] {
        assert!(topic.starts_with("homeassistant/sensor/hms_12345678/"));
        assert!(topic.ends_with("/config"));
    }
    assert_eq!(topics[13], "solar/hms_12345678/state");
    assert_eq!(topics[0], "homeassistant/sensor/hms_12345678/hms_12345678_dtu_sn/config");
}
