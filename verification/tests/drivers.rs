use shunt_monitor::ble::{
    evaluate_peripheral, find_notify_characteristic, name_matches_filter, GattCharacteristic,
    PeripheralDecision,
};
use shunt_monitor::serial::{plan_serial_session, SerialPlan};
use shunt_monitor::sink::{log_file_name, timestamped_line};

const NOTIFY_UUID_BITS: u128 = 0xae84d642_7f4b_11ec_a8a3_0242ac120002;

#[test]
fn other_device_is_skipped() {
    assert!(!name_matches_filter("Other Device"));
    let d = evaluate_peripheral("Other Device", false);
    assert_eq!(d, PeripheralDecision::Skip);
}

#[test]
fn matching_name_is_connected_to() {
    assert!(name_matches_filter("M5Atom-MCP3424 BLE Sender"));
    let d = evaluate_peripheral("M5Atom-MCP3424 BLE Sender", false);
    assert_eq!(d, PeripheralDecision::Connect);
}

#[test]
fn name_filter_matches_by_substring() {
    let d = evaluate_peripheral("xx M5Atom-MCP3424 BLE Sender yy", true);
    assert_eq!(d, PeripheralDecision::UseExisting);
    assert!(!name_matches_filter("M5Atom-MCP3424"));
    assert!(!name_matches_filter(""));
}

#[test]
fn notify_characteristic_needs_uuid_and_capability() {
    let chars = vec![
        GattCharacteristic { uuid_bits: 7, can_notify: true },
        GattCharacteristic { uuid_bits: NOTIFY_UUID_BITS, can_notify: false },
        GattCharacteristic { uuid_bits: NOTIFY_UUID_BITS, can_notify: true },
        GattCharacteristic { uuid_bits: NOTIFY_UUID_BITS, can_notify: true },
    ];
    assert_eq!(find_notify_characteristic(&chars), Some(2));
}

#[test]
fn missing_notify_characteristic_is_reported() {
    let chars = vec![GattCharacteristic { uuid_bits: 7, can_notify: true }];
    assert_eq!(find_notify_characteristic(&chars), None);
    assert_eq!(find_notify_characteristic(&Vec::new()), None);
}

#[test]
fn configured_interface_opens_the_port() {
    let p = plan_serial_session(Some(String::from("/dev/ttyUSB0")), 115200);
    match p {
        SerialPlan::Open { interface, baud } => {
            assert_eq!(interface, "/dev/ttyUSB0");
            assert_eq!(baud, 115200);
        }
        SerialPlan::ListPorts => panic!("expected the port to be opened"),
    }
}

#[test]
fn missing_interface_lists_ports() {
    let p = plan_serial_session(None, 9600);
    assert!(matches!(p, SerialPlan::ListPorts));
}

#[test]
fn emitted_line_ends_with_the_sample() {
    let line = timestamped_line("1000, 0.5");
    assert!(line.ends_with(", 1000, 0.5"));
    assert!(line.len() > ", 1000, 0.5".len());
}

#[test]
fn log_file_name_has_prefix_and_extension() {
    let name = log_file_name();
    assert!(name.starts_with("current_"));
    assert!(name.ends_with(".txt"));
    assert!(name.len() > "current_.txt".len());
}

#[test]
fn log_file_stamp_has_date_time_and_zone() {
    let name = log_file_name();
    let stamp = &name["current_".len()..name.len() - ".txt".len()];
    let bytes = stamp.as_bytes();
    // year-to-day digits, underscore, time digits, underscore, non-empty zone
    assert!(bytes.len() > 16);
    assert!(bytes[..8].iter().all(|b| b.is_ascii_digit()));
    assert_eq!(bytes[8], b'_');
    assert!(bytes[9..15].iter().all(|b| b.is_ascii_digit()));
    assert_eq!(bytes[15], b'_');
}
