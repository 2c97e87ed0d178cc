use rustroast::config::{default_client_id, parse_u16, MqttConfig, MqttEnv};

#[test]
fn numbers_are_read_as_the_standard_library_reads_them() {
    for text in [
        "0", "1", "1883", "65535", "65536", "99999", "00001", "0000065535", "+5", "+", "", "-1",
        "-0", "12a", "a12", " 12", "12 ", "1_000", "++1", "+-1", "١٢", "4294967296",
        "18446744073709551616", "1.0",
    ] {
        assert_eq!(parse_u16(text), text.parse::<u16>().ok(), "for {:?}", text);
    }
}

#[test]
fn number_examples() {
    assert_eq!(parse_u16("1883"), Some(1883));
    assert_eq!(parse_u16("+30"), Some(30));
    assert_eq!(parse_u16("007"), Some(7));
    assert_eq!(parse_u16("65535"), Some(65535));
    assert_eq!(parse_u16("65536"), None);
    assert_eq!(parse_u16(""), None);
    assert_eq!(parse_u16("+"), None);
    assert_eq!(parse_u16("-1"), None);
}

#[test]
fn client_ids() {
    assert_eq!(default_client_id(Some("kitchen".to_string()), 4242), "rustroast-kitchen-4242");
    assert_eq!(default_client_id(None, 1), "rustroast-unknown-host-1");
    assert_eq!(default_client_id(Some("".to_string()), 0), "rustroast--0");
    assert_eq!(default_client_id(None, u32::MAX), "rustroast-unknown-host-4294967295");
}

#[test]
fn default_settings() {
    let config = MqttConfig::new("me".to_string());
    assert_eq!(
        config,
        MqttConfig {
            host: "192.168.1.254".to_string(),
            port: 1883,
            client_id: "me".to_string(),
            username: None,
            password: None,
            keep_alive_secs: 30,
            clean_session: true,
        }
    );
}

#[test]
fn an_empty_environment_changes_nothing() {
    let base = MqttConfig::new("me".to_string());
    assert_eq!(MqttConfig::from_env(base.clone(), MqttEnv::default()), base);
}

#[test]
fn the_environment_overrides_the_settings() {
    let env = MqttEnv {
        broker_host: Some("broker.local".to_string()),
        broker_port: Some("8883".to_string()),
        client_id: Some("gateway-1".to_string()),
        username: Some("user".to_string()),
        password: Some("SECRET-REDACTED".to_string()),
        keep_alive_secs: Some("15".to_string()),
    };
    assert_eq!(
        MqttConfig::from_env(MqttConfig::new("me".to_string()), env),
        MqttConfig {
            host: "broker.local".to_string(),
            port: 8883,
            client_id: "gateway-1".to_string(),
            username: Some("user".to_string()),
            password: Some("SECRET-REDACTED".to_string()),
            keep_alive_secs: 15,
            clean_session: true,
        }
    );
}

#[test]
fn empty_and_ill_formed_variables_are_passed_over() {
    let mut base = MqttConfig::new("me".to_string());
    base.username = Some("kept".to_string());
    base.clean_session = false;
    let env = MqttEnv {
        broker_host: Some("".to_string()),
        broker_port: Some("eighty".to_string()),
        client_id: Some("".to_string()),
        username: Some("".to_string()),
        password: Some("".to_string()),
        keep_alive_secs: Some("70000".to_string()),
    };
    assert_eq!(MqttConfig::from_env(base.clone(), env), base);
}
