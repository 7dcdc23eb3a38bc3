use glowmarkt_logger::settings::{
    BrokerParameters, ConnectionOptions, MqttSettings, CONNECT_TIMEOUT_SECS, MAX_RETRY_INTERVAL_SECS,
    MIN_RETRY_INTERVAL_SECS, QOS,
};

fn settings(hostname: &str, topic: &str, username: &str, password: &str) -> MqttSettings {
    MqttSettings {
        hostname: hostname.to_string(),
        topic: topic.to_string(),
        username: username.to_string(),
        password: password.to_string(),
    }
}

#[test]
fn settings_with_all_four_texts_are_complete() {
    assert!(settings("tcp://broker:1883", "glow/meter", "user", "secret").is_complete());
    assert!(settings("h", "t", "u", "p").is_complete());
}

#[test]
fn settings_with_an_empty_text_are_incomplete() {
    assert!(!settings("", "glow/meter", "user", "secret").is_complete());
    assert!(!settings("tcp://broker:1883", "", "user", "secret").is_complete());
    assert!(!settings("tcp://broker:1883", "glow/meter", "", "secret").is_complete());
    assert!(!settings("tcp://broker:1883", "glow/meter", "user", "").is_complete());
    assert!(!settings("", "", "", "").is_complete());
}

#[test]
fn broker_parameters_follow_the_settings() {
    let settings = settings("tcp://broker:1883", "glow/meter", "user", "secret");
    let parameters = BrokerParameters::new("glowmarkt_logger-0", &settings);
    assert_eq!(
        parameters,
        BrokerParameters {
            server_uri: "tcp://broker:1883".to_string(),
            client_id: "glowmarkt_logger-0".to_string(),
            clean_session: true,
            user_name: "user".to_string(),
            password: "secret".to_string(),
            connect_timeout_secs: 5,
            min_retry_interval_secs: 1,
            max_retry_interval_secs: 30,
            topic: "glow/meter".to_string(),
            qos: 1,
        }
    );
}

#[test]
fn protocol_constants_are_fixed() {
    assert_eq!(QOS, 1);
    assert_eq!(CONNECT_TIMEOUT_SECS, 5);
    assert_eq!(MIN_RETRY_INTERVAL_SECS, 1);
    assert_eq!(MAX_RETRY_INTERVAL_SECS, 30);
}

#[test]
fn write_ahead_logging_is_switched_on_where_enabled() {
    assert_eq!(
        ConnectionOptions { enable_wal: true }.on_acquire(),
        Some("PRAGMA journal_mode = WAL; PRAGMA synchronous = NORMAL;")
    );
    assert_eq!(ConnectionOptions { enable_wal: false }.on_acquire(), None);
}
