use created::config::SerialConfig;
use created::locator::{pick_serial_port, DeviceNamespace, DirEntry};

fn entry(path: &str, name: &str, exists: bool) -> DirEntry {
    DirEntry { path: path.to_string(), name: name.to_string(), exists }
}

fn empty_ns() -> DeviceNamespace {
    DeviceNamespace {
        configured_exists: false,
        vendor_entries: Vec::new(),
        by_id_entries: Vec::new(),
        dev_entries: Vec::new(),
    }
}

fn no_path_cfg() -> SerialConfig {
    SerialConfig { path: None, baud: None }
}

#[test]
fn configured_path_wins_over_everything() {
    let cfg = SerialConfig { path: Some("/dev/robot".to_string()), baud: None };
    let ns = DeviceNamespace {
        configured_exists: true,
        vendor_entries: vec![entry("/dev/serial/by-irobot-a", "by-irobot-a", true)],
        by_id_entries: vec![entry("/dev/serial/by-id/usb-x", "usb-x", true)],
        dev_entries: vec![entry("/dev/ttyUSB0", "ttyUSB0", true)],
    };
    assert_eq!(pick_serial_port(&cfg, &ns), Some("/dev/robot".to_string()));
}

#[test]
fn configured_path_absent_falls_through() {
    let cfg = SerialConfig { path: Some("/dev/robot".to_string()), baud: None };
    let mut ns = empty_ns();
    ns.vendor_entries = vec![entry("/dev/serial/by-irobot-a", "by-irobot-a", true)];
    assert_eq!(pick_serial_port(&cfg, &ns), Some("/dev/serial/by-irobot-a".to_string()));
}

#[test]
fn vendor_symlink_preferred_over_lower_tiers() {
    let mut ns = empty_ns();
    ns.vendor_entries = vec![
        entry("/dev/serial/by-id", "by-id", true),
        entry("/dev/serial/by-irobot-create", "by-irobot-create", true),
    ];
    ns.by_id_entries = vec![entry("/dev/serial/by-id/usb-x", "usb-x", true)];
    ns.dev_entries = vec![entry("/dev/ttyUSB0", "ttyUSB0", true)];
    assert_eq!(
        pick_serial_port(&no_path_cfg(), &ns),
        Some("/dev/serial/by-irobot-create".to_string())
    );
}

#[test]
fn vendor_entry_must_exist() {
    let mut ns = empty_ns();
    ns.vendor_entries = vec![entry("/dev/serial/by-irobot-gone", "by-irobot-gone", false)];
    ns.by_id_entries = vec![entry("/dev/serial/by-id/usb-x", "usb-x", true)];
    assert_eq!(pick_serial_port(&no_path_cfg(), &ns), Some("/dev/serial/by-id/usb-x".to_string()));
}

#[test]
fn by_id_tier_takes_first_existing() {
    let mut ns = empty_ns();
    ns.by_id_entries = vec![
        entry("/dev/serial/by-id/usb-gone", "usb-gone", false),
        entry("/dev/serial/by-id/usb-b", "usb-b", true),
        entry("/dev/serial/by-id/usb-a", "usb-a", true),
    ];
    ns.dev_entries = vec![entry("/dev/ttyACM0", "ttyACM0", true)];
    assert_eq!(pick_serial_port(&no_path_cfg(), &ns), Some("/dev/serial/by-id/usb-b".to_string()));
}

#[test]
fn flat_fallback_returns_smallest_match() {
    let mut ns = empty_ns();
    ns.dev_entries = vec![
        entry("/dev/ttyUSB1", "ttyUSB1", true),
        entry("/dev/ttyUSB0", "ttyUSB0", true),
        entry("/dev/ttyACM2", "ttyACM2", true),
        entry("/dev/ttyACM10", "ttyACM10", true),
    ];
    assert_eq!(pick_serial_port(&no_path_cfg(), &ns), Some("/dev/ttyACM10".to_string()));
}

#[test]
fn flat_fallback_ignores_other_names() {
    let mut ns = empty_ns();
    ns.dev_entries = vec![
        entry("/dev/ttyS0", "ttyS0", true),
        entry("/dev/sda", "sda", true),
        entry("/dev/null", "null", true),
    ];
    assert_eq!(pick_serial_port(&no_path_cfg(), &ns), None);
}

#[test]
fn nothing_present_returns_none() {
    assert_eq!(pick_serial_port(&no_path_cfg(), &empty_ns()), None);
}
