use created::config::{dirs_fallback_home, load_config, Config, SerialConfig};
use created::heartbeat::{heartbeat_step, HeartbeatAction};

#[test]
fn defaults_apply_when_nothing_is_configured() {
    let cfg = Config::default();
    assert_eq!(cfg.interval(), 5_000);
    assert_eq!(cfg.message(), "hello world");
    let serial = SerialConfig::default();
    assert_eq!(serial.effective_baud(), 57_600);
    assert!(serial.path.is_none());
}

#[test]
fn configured_values_are_taken_as_given() {
    let cfg = Config {
        interval_ms: Some(250),
        message: Some("beep".to_string()),
        serial: Some(SerialConfig { path: Some("/dev/robot".to_string()), baud: Some(19_200) }),
    };
    assert_eq!(cfg.interval(), 250);
    assert_eq!(cfg.message(), "beep");
    assert_eq!(cfg.serial.as_ref().unwrap().effective_baud(), 19_200);
}

#[test]
fn load_config_takes_a_parsed_configuration() {
    let cfg = load_config(Some(Ok(Config {
        interval_ms: Some(100),
        message: None,
        serial: None,
    })));
    assert_eq!(cfg.interval(), 100);
}

#[test]
fn load_config_falls_back_on_parse_failure() {
    let cfg = load_config(Some(Err("toml: bad value".to_string())));
    assert!(cfg.interval_ms.is_none());
    assert!(cfg.message.is_none());
    assert!(cfg.serial.is_none());
}

#[test]
fn load_config_falls_back_when_no_file_was_found() {
    let cfg = load_config(None);
    assert!(cfg.interval_ms.is_none());
    assert!(cfg.message.is_none());
    assert!(cfg.serial.is_none());
}

#[test]
fn no_home_fallback_on_this_build() {
    assert!(dirs_fallback_home().is_none());
}

#[test]
fn heartbeat_emits_until_cancelled() {
    assert!(matches!(heartbeat_step(false), HeartbeatAction::Emit));
    assert!(matches!(heartbeat_step(true), HeartbeatAction::Stop));
}
