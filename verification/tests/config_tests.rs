use streambus::config::{
    BusConfig, ConfigValue, PublishMode, StartPosition, DEFAULT_BACKOFF_BASE_MS,
    DEFAULT_BACKOFF_MAX_MS, DEFAULT_CHANNEL_CAPACITY, DEFAULT_MAX_ENTRY_BYTES,
    DEFAULT_MAX_RETRIES, DEFAULT_PORT,
};
use streambus::errors::ConstructionError;
use streambus::identity::IdentityContext;

fn text(k: &str, v: &str) -> (String, ConfigValue) {
    (String::from(k), ConfigValue::Text(String::from(v)))
}

fn uint(k: &str, v: u64) -> (String, ConfigValue) {
    (String::from(k), ConfigValue::UInt(v))
}

fn other(k: &str) -> (String, ConfigValue) {
    (String::from(k), ConfigValue::Other)
}

#[test]
fn empty_mapping_yields_defaults() {
    let cfg = BusConfig::from_pairs(&Vec::new()).expect("defaults");
    assert_eq!(cfg.host.as_str(), "127.0.0.1");
    assert_eq!(cfg.port, DEFAULT_PORT);
    assert_eq!(cfg.stream_key_prefix.as_str(), "stream");
    assert_eq!(cfg.start_position, StartPosition::Now);
    assert_eq!(cfg.channel_capacity, DEFAULT_CHANNEL_CAPACITY);
    assert_eq!(cfg.publish_mode, PublishMode::Ack);
    assert_eq!(cfg.backoff_base_ms, DEFAULT_BACKOFF_BASE_MS);
    assert_eq!(cfg.backoff_max_ms, DEFAULT_BACKOFF_MAX_MS);
    assert_eq!(cfg.max_retries, DEFAULT_MAX_RETRIES);
    assert_eq!(cfg.max_entry_bytes, DEFAULT_MAX_ENTRY_BYTES);
}

#[test]
fn recognized_keys_are_read() {
    let pairs = vec![
        text("host", "bus.example"),
        uint("port", 7000),
        text("stream_key_prefix", "feed"),
        text("start_position", "earliest"),
        uint("channel_capacity", 4),
        text("publish_mode", "buffered"),
        uint("reconnect_backoff_ms", 10),
        uint("reconnect_backoff_max_ms", 40),
        uint("reconnect_max_retries", 2),
        uint("max_entry_bytes", 64),
    ];
    let cfg = BusConfig::from_pairs(&pairs).expect("valid");
    assert_eq!(cfg.host.as_str(), "bus.example");
    assert_eq!(cfg.port, 7000);
    assert_eq!(cfg.stream_key_prefix.as_str(), "feed");
    assert_eq!(cfg.start_position, StartPosition::Earliest);
    assert_eq!(cfg.channel_capacity, 4);
    assert_eq!(cfg.publish_mode, PublishMode::Buffered);
    assert_eq!(cfg.backoff_base_ms, 10);
    assert_eq!(cfg.backoff_max_ms, 40);
    assert_eq!(cfg.max_retries, 2);
    assert_eq!(cfg.max_entry_bytes, 64);
}

#[test]
fn unknown_keys_are_ignored() {
    let pairs = vec![text("color", "green"), other("extra"), uint("channel_capacity", 2)];
    let cfg = BusConfig::from_pairs(&pairs).expect("valid");
    assert_eq!(cfg.channel_capacity, 2);
}

#[test]
fn start_position_now_and_offset() {
    let cfg = BusConfig::from_pairs(&vec![text("start_position", "now")]).expect("valid");
    assert_eq!(cfg.start_position, StartPosition::Now);
    let cfg = BusConfig::from_pairs(&vec![uint("start_position", 5)]).expect("valid");
    assert_eq!(cfg.start_position, StartPosition::Offset(5));
}

#[test]
fn invalid_values_name_their_key() {
    assert!(matches!(
        BusConfig::from_pairs(&vec![uint("host", 1)]),
        Err(ConstructionError::InvalidHost)
    ));
    assert!(matches!(
        BusConfig::from_pairs(&vec![uint("port", 70000)]),
        Err(ConstructionError::InvalidPort)
    ));
    assert!(matches!(
        BusConfig::from_pairs(&vec![uint("stream_key_prefix", 3)]),
        Err(ConstructionError::InvalidStreamKeyPrefix)
    ));
    assert!(matches!(
        BusConfig::from_pairs(&vec![text("start_position", "someday")]),
        Err(ConstructionError::InvalidStartPosition)
    ));
    assert!(matches!(
        BusConfig::from_pairs(&vec![uint("channel_capacity", 0)]),
        Err(ConstructionError::InvalidChannelCapacity)
    ));
    assert!(matches!(
        BusConfig::from_pairs(&vec![text("publish_mode", "maybe")]),
        Err(ConstructionError::InvalidPublishMode)
    ));
    assert!(matches!(
        BusConfig::from_pairs(&vec![text("reconnect_backoff_ms", "fast")]),
        Err(ConstructionError::InvalidReconnectBackoff)
    ));
    assert!(matches!(
        BusConfig::from_pairs(&vec![uint("reconnect_max_retries", u64::MAX)]),
        Err(ConstructionError::InvalidReconnectRetries)
    ));
    assert!(matches!(
        BusConfig::from_pairs(&vec![uint("max_entry_bytes", 0)]),
        Err(ConstructionError::InvalidMaxEntryBytes)
    ));
}

#[test]
fn first_error_in_field_order_wins() {
    let pairs = vec![uint("channel_capacity", 0), uint("port", 70000)];
    assert!(matches!(BusConfig::from_pairs(&pairs), Err(ConstructionError::InvalidPort)));
}

#[test]
fn first_binding_of_a_key_wins() {
    let pairs = vec![uint("channel_capacity", 7), uint("channel_capacity", 9)];
    let cfg = BusConfig::from_pairs(&pairs).expect("valid");
    assert_eq!(cfg.channel_capacity, 7);
}

#[test]
fn identity_rejects_empty_parts() {
    assert!(matches!(
        IdentityContext::new(String::new(), String::from("i-1")),
        Err(ConstructionError::EmptyTraderId)
    ));
    assert!(matches!(
        IdentityContext::new(String::from("t-1"), String::new()),
        Err(ConstructionError::EmptyInstanceId)
    ));
    let id = IdentityContext::new(String::from("t-1"), String::from("i-1")).expect("valid");
    assert_eq!(id.trader_id().as_str(), "t-1");
    assert_eq!(id.instance_id().as_str(), "i-1");
}

#[test]
fn stream_key_joins_prefix_and_identity() {
    let id = IdentityContext::new(String::from("trader-7"), String::from("ab12")).expect("valid");
    let key = id.derive_stream_key("stream");
    assert_eq!(key, b"stream:trader-7:ab12".to_vec());
}

#[test]
fn backoff_doubles_up_to_ceiling() {
    let cfg = BusConfig::from_pairs(&vec![
        uint("reconnect_backoff_ms", 100),
        uint("reconnect_backoff_max_ms", 5000),
    ])
    .expect("valid");
    assert_eq!(cfg.backoff_delay_ms(0), 100);
    assert_eq!(cfg.backoff_delay_ms(1), 200);
    assert_eq!(cfg.backoff_delay_ms(2), 400);
    assert_eq!(cfg.backoff_delay_ms(5), 3200);
    assert_eq!(cfg.backoff_delay_ms(6), 5000);
    assert_eq!(cfg.backoff_delay_ms(7), 5000);
}

#[test]
fn backoff_base_above_ceiling_is_held_at_ceiling() {
    let cfg = BusConfig::from_pairs(&vec![
        uint("reconnect_backoff_ms", 900),
        uint("reconnect_backoff_max_ms", 300),
    ])
    .expect("valid");
    assert_eq!(cfg.backoff_delay_ms(0), 300);
    assert_eq!(cfg.backoff_delay_ms(3), 300);
}

#[test]
fn json_members_come_through_reduced() {
    let data = b"{\"port\": 9, \"host\": \"h1\", \"extras\": [1,2]}".to_vec();
    let pairs = streambus::config::config_pairs_from_json(&data).expect("object");
    assert_eq!(pairs.len(), 3);
    let mut saw_port = false;
    let mut saw_host = false;
    let mut saw_extras = false;
    for (k, v) in &pairs {
        match k.as_str() {
            "port" => {
                saw_port = true;
                assert!(matches!(v, ConfigValue::UInt(9)));
            },
            "host" => {
                saw_host = true;
                match v {
                    ConfigValue::Text(s) => assert_eq!(s.as_str(), "h1"),
                    _ => panic!("host should be a string"),
                }
            },
            "extras" => {
                saw_extras = true;
                assert!(matches!(v, ConfigValue::Other));
            },
            other => panic!("unexpected key {other}"),
        }
    }
    assert!(saw_port && saw_host && saw_extras);
}

#[test]
fn non_object_text_is_rejected() {
    assert!(matches!(
        streambus::config::config_pairs_from_json(&b"[1,2,3]".to_vec()),
        Err(ConstructionError::InvalidConfigText)
    ));
    assert!(matches!(
        streambus::config::config_pairs_from_json(&b"".to_vec()),
        Err(ConstructionError::InvalidConfigText)
    ));
}
