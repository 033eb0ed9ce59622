use document_generation_service::config::{parse_count, Config, ConfigError};

fn entries(items: &[(&str, &str)]) -> Vec<(String, String)> {
    items.iter().map(|(k, v)| (String::from(*k), String::from(*v))).collect()
}

#[test]
fn defaults_when_nothing_is_configured() {
    let config = Config::load(&Vec::new()).unwrap();
    assert_eq!(config.service.name, "document-generation-service");
    assert_eq!(config.service.log_level, "info");
    assert_eq!(config.pubsub.project_id, "mcxtest");
    assert_eq!(config.pubsub.request_subscription, "document-generation-requests-sub");
    assert_eq!(config.pubsub.response_topic, "document-generation-results");
    assert_eq!(config.pubsub.max_concurrent_messages, 10);
    assert_eq!(config.templates.path, "./templates");
    assert_eq!(Config::defaults().pubsub.max_concurrent_messages, 10);
}

#[test]
fn entries_override_defaults_and_later_entries_win() {
    let config = Config::load(&entries(&[
        ("service.name", "docgen"),
        ("service.log_level", "debug"),
        ("pubsub.project_id", "proj"),
        ("pubsub.request_subscription", "sub"),
        ("pubsub.response_topic", "topic"),
        ("pubsub.max_concurrent_messages", "32"),
        ("templates.path", "/srv/templates"),
        ("service.log_level", "warn"),
        ("unknown.key", "ignored"),
    ]))
    .unwrap();
    assert_eq!(config.service.name, "docgen");
    assert_eq!(config.service.log_level, "warn");
    assert_eq!(config.pubsub.project_id, "proj");
    assert_eq!(config.pubsub.request_subscription, "sub");
    assert_eq!(config.pubsub.response_topic, "topic");
    assert_eq!(config.pubsub.max_concurrent_messages, 32);
    assert_eq!(config.templates.path, "/srv/templates");
}

#[test]
fn a_bound_that_is_no_count_is_refused() {
    for bad in ["", "ten", "-1", "1.5", " 7", "99999999999999999999999999"] {
        let loaded = Config::load(&entries(&[
            ("service.name", "docgen"),
            ("pubsub.max_concurrent_messages", bad),
            ("pubsub.max_concurrent_messages", "5"),
        ]));
        match loaded {
            Err(ConfigError::InvalidNumber { key, value }) => {
                assert_eq!(key, "pubsub.max_concurrent_messages");
                assert_eq!(value, bad);
            }
            Ok(_) => panic!("{:?} was taken for a count", bad),
        }
    }
}

#[test]
fn counts_are_read_from_decimal_digits() {
    assert_eq!(parse_count("0"), Some(0));
    assert_eq!(parse_count("10"), Some(10));
    assert_eq!(parse_count("007"), Some(7));
    assert_eq!(parse_count(&usize::MAX.to_string()), Some(usize::MAX));
    assert_eq!(parse_count("18446744073709551616"), None);
    assert_eq!(parse_count(""), None);
    assert_eq!(parse_count("+1"), None);
    assert_eq!(parse_count("1a"), None);
    assert_eq!(parse_count("١٢"), None);
}
