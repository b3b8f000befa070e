use async_log::appender::{
    AsyncConsoleAppender, AsyncFileAppender, AsyncServerAppender, AsyncWebSockAppender,
};
use async_log::config::{
    make_json_pattern, AsyncConsoleAppenderCreator, AsyncFileAppenderCreator,
    AsyncServerAppenderCreator, AsyncWebSockAppenderCreator, ConfigEntry, ConfigValue,
    PatternChoice,
};

fn entry(key: &str, value: ConfigValue) -> ConfigEntry {
    ConfigEntry { key: key.to_string(), value }
}

fn table(entries: Vec<ConfigEntry>) -> ConfigValue {
    ConfigValue::Table(entries)
}

#[test]
fn console_builder_builds() {
    let _config = AsyncConsoleAppender::builder().build();
}

#[test]
fn file_builder_defaults_to_append() {
    let config = AsyncFileAppender::builder("logs/out.log".to_string()).build();
    assert_eq!(config.path, "logs/out.log");
    assert!(config.append);
}

#[test]
fn file_builder_can_truncate() {
    let config = AsyncFileAppender::builder("out.log".to_string()).append(false).build();
    assert!(!config.append);
}

#[test]
fn server_builder_defaults_to_no_delay() {
    let config = AsyncServerAppender::builder("127.0.0.1:5000".to_string()).build();
    assert_eq!(config.addr, "127.0.0.1:5000");
    assert!(config.no_delay);
}

#[test]
fn server_builder_can_buffer() {
    let config =
        AsyncServerAppender::builder("127.0.0.1:5000".to_string()).no_delay(false).build();
    assert!(!config.no_delay);
}

#[test]
fn websock_builder_keeps_url() {
    let config = AsyncWebSockAppender::builder("ws://localhost:9000".to_string()).build();
    assert_eq!(config.url, "ws://localhost:9000");
}

#[test]
fn console_config_accepts_empty_map() {
    let r = AsyncConsoleAppenderCreator.deserialize(table(vec![])).unwrap();
    assert!(matches!(r.pattern, PatternChoice::DefaultPattern));
}

#[test]
fn console_config_must_be_a_map() {
    let e = AsyncConsoleAppenderCreator.deserialize(ConfigValue::Flag(true)).unwrap_err();
    assert_eq!(e.description(), "config must be a map");
}

#[test]
fn console_config_pattern_must_be_text() {
    let e = AsyncConsoleAppenderCreator
        .deserialize(table(vec![entry("pattern", ConfigValue::Flag(false))]))
        .unwrap_err();
    assert_eq!(e.description(), "`pattern` must be a string");
}

#[test]
fn console_config_takes_explicit_pattern() {
    let r = AsyncConsoleAppenderCreator
        .deserialize(table(vec![entry("pattern", ConfigValue::Text("{m}".to_string()))]))
        .unwrap();
    match r.pattern {
        PatternChoice::Pattern(p) => assert_eq!(p, "{m}"),
        PatternChoice::DefaultPattern => panic!("expected the explicit pattern"),
    }
}

#[test]
fn file_config_reads_all_fields() {
    let r = AsyncFileAppenderCreator
        .deserialize(table(vec![
            entry("path", ConfigValue::Text("a.log".to_string())),
            entry("append", ConfigValue::Flag(false)),
        ]))
        .unwrap();
    assert_eq!(r.path, "a.log");
    assert!(!r.append);
    assert!(matches!(r.pattern, PatternChoice::DefaultPattern));
}

#[test]
fn file_config_append_defaults_to_true() {
    let r = AsyncFileAppenderCreator
        .deserialize(table(vec![entry("path", ConfigValue::Text("a.log".to_string()))]))
        .unwrap();
    assert!(r.append);
}

#[test]
fn file_config_path_is_required() {
    let e = AsyncFileAppenderCreator.deserialize(table(vec![])).unwrap_err();
    assert_eq!(e.description(), "`path` is required");
}

#[test]
fn file_config_path_must_be_text() {
    let e = AsyncFileAppenderCreator
        .deserialize(table(vec![entry("path", ConfigValue::Flag(true))]))
        .unwrap_err();
    assert_eq!(e.description(), "`path` must be a string");
}

#[test]
fn file_config_append_must_be_bool() {
    let e = AsyncFileAppenderCreator
        .deserialize(table(vec![
            entry("path", ConfigValue::Text("a.log".to_string())),
            entry("append", ConfigValue::Text("yes".to_string())),
        ]))
        .unwrap_err();
    assert_eq!(e.description(), "`append` must be a bool");
}

#[test]
fn server_config_reads_all_fields() {
    let r = AsyncServerAppenderCreator
        .deserialize(table(vec![
            entry("server_addr", ConfigValue::Text("127.0.0.1:5555".to_string())),
            entry("no_delay", ConfigValue::Flag(false)),
        ]))
        .unwrap();
    assert_eq!(r.addr, "127.0.0.1:5555");
    assert!(!r.no_delay);
}

#[test]
fn server_config_addr_is_required() {
    // a configuration missing its required destination field fails up front
    let e = AsyncServerAppenderCreator
        .deserialize(table(vec![entry("no_delay", ConfigValue::Flag(true))]))
        .unwrap_err();
    assert_eq!(e.description(), "`server_addr` is required");
}

#[test]
fn server_config_addr_must_be_text() {
    let e = AsyncServerAppenderCreator
        .deserialize(table(vec![entry("server_addr", ConfigValue::Flag(true))]))
        .unwrap_err();
    assert_eq!(e.description(), "`server_addr` must be a string");
}

#[test]
fn server_config_no_delay_must_be_bool() {
    let e = AsyncServerAppenderCreator
        .deserialize(table(vec![
            entry("server_addr", ConfigValue::Text("h:1".to_string())),
            entry("no_delay", ConfigValue::Text("yes".to_string())),
        ]))
        .unwrap_err();
    assert_eq!(e.description(), "`no_delay` must be a boolean");
}

#[test]
fn websock_config_url_is_required() {
    let e = AsyncWebSockAppenderCreator.deserialize(table(vec![])).unwrap_err();
    assert_eq!(e.description(), "`server_url` is required");
}

#[test]
fn websock_config_url_must_be_text() {
    let e = AsyncWebSockAppenderCreator
        .deserialize(table(vec![entry("server_url", ConfigValue::Other)]))
        .unwrap_err();
    assert_eq!(e.description(), "`server_url` must be a string");
}

#[test]
fn websock_config_defaults_to_json_pattern() {
    let r = AsyncWebSockAppenderCreator
        .deserialize(table(vec![entry("server_url", ConfigValue::Text("ws://h:1".to_string()))]))
        .unwrap();
    assert_eq!(r.url, "ws://h:1");
    match r.pattern {
        PatternChoice::Pattern(p) => {
            assert!(p.starts_with("{{\"id\":\""));
            assert!(p.ends_with(
                "\",\"level\":\"{l}\",\"time\":\"{d}\",\"thread\":\"{T}\",\"module\":\"{M}\",\
                 \"file\":\"{f}\",\"line\":\"{L}\",\"msg\":\"{m}\"}}"
            ));
        }
        PatternChoice::DefaultPattern => panic!("expected the JSON pattern"),
    }
}

#[test]
fn json_pattern_embeds_the_id() {
    let p = make_json_pattern(12345);
    assert_eq!(
        p,
        "{{\"id\":\"12345\",\"level\":\"{l}\",\"time\":\"{d}\",\"thread\":\"{T}\",\
         \"module\":\"{M}\",\"file\":\"{f}\",\"line\":\"{L}\",\"msg\":\"{m}\"}}"
    );
}

#[test]
fn json_pattern_of_zero() {
    let p = make_json_pattern(0);
    assert!(p.starts_with("{{\"id\":\"0\","));
}

#[test]
fn duplicate_keys_use_the_first() {
    let r = AsyncFileAppenderCreator
        .deserialize(table(vec![
            entry("path", ConfigValue::Text("first.log".to_string())),
            entry("path", ConfigValue::Text("second.log".to_string())),
        ]))
        .unwrap();
    assert_eq!(r.path, "first.log");
}
