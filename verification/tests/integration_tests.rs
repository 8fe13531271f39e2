use hms2mqtt::mqtt_config::MqttConfig;
use hms2mqtt::mqtt_wrapper::ClientError;
use hms2mqtt::mqtt_wrapper::MqttWrapper;
use hms2mqtt::mqtt_wrapper::QoS;

struct MqttTester {
    published_values: Vec<(String, Vec<u8>)>,
}

impl MqttTester {
    pub fn len(&self) -> usize {
        self.published_values.len()
    }

    pub fn is_empty(&self) -> bool {
        self.len() == 0
    }
}

impl MqttWrapper for MqttTester {
    fn subscribe(&mut self, _topic: &str, _qos: QoS) -> Result<(), ClientError> {
        Ok(())
    }

    fn publish(
        &mut self,
        topic: &str,
        _qos: QoS,
        _retain: bool,
        payload: String,
    ) -> Result<(), ClientError> {
        self.published_values.push((topic.to_owned(), payload.into_bytes()));
        Ok(())
    }

    fn new(_config: &MqttConfig, _suffix: &str) -> Self {
        Self { published_values: Vec::new() }
    }
}

#[test]
fn publish_one_message() {
    let mut mqtt = MqttTester::new(
        &MqttConfig {
            host: "frob".to_owned(),
            port: Some(1234),
            username: None,
            password: None,
            tls: None,
            client_id: Some("myclient".to_string()),
        },
        "-test",
    );
    let result = mqtt.publish("foo", QoS::AtMostOnce, true, "Hooray".to_string());
    assert!(result.is_ok());
    assert!(!mqtt.is_empty());
    assert_eq!(mqtt.len(), 1);
}
