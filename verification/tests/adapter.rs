use bluez_adapter::adapter::Adapter;
use bluez_adapter::bus::{
    ObjectEntry, adapter_iface, bluez_service_name, le_advertising_manager_iface,
    powered_property, root_object_path, DISCOVERY_TIMEOUT_MS, PROPERTY_TIMEOUT_MS,
};
use bluez_adapter::error::Error;

fn entry(path: &str, interfaces: &[&str]) -> ObjectEntry {
    ObjectEntry {
        path: path.to_string(),
        interfaces: interfaces.iter().map(|i| i.to_string()).collect(),
    }
}

#[test]
fn constants_match_bluez_names() {
    assert_eq!(bluez_service_name(), "org.bluez");
    assert_eq!(root_object_path(), "/");
    assert_eq!(adapter_iface(), "org.bluez.Adapter1");
    assert_eq!(le_advertising_manager_iface(), "org.bluez.LEAdvertisingManager1");
    assert_eq!(powered_property(), "Powered");
    assert_eq!(DISCOVERY_TIMEOUT_MS, 5000);
    assert_eq!(PROPERTY_TIMEOUT_MS, 1000);
}

#[test]
fn discovery_returns_single_match() {
    let table = vec![
        entry("/org/bluez", &["org.freedesktop.DBus.Introspectable"]),
        entry("/org/bluez/hci0", &["org.bluez.Adapter1", "org.bluez.LEAdvertisingManager1"]),
        entry("/org/bluez/hci0/dev_AA", &["org.bluez.Device1"]),
    ];
    let adapter = Adapter::new(&table).unwrap();
    assert_eq!(adapter.object_path, "/org/bluez/hci0");
}

#[test]
fn discovery_takes_first_match_in_table_order() {
    let table = vec![
        entry("/org/bluez/hci1", &["org.bluez.LEAdvertisingManager1"]),
        entry("/org/bluez/hci0", &["org.bluez.LEAdvertisingManager1"]),
    ];
    let adapter = Adapter::new(&table).unwrap();
    assert_eq!(adapter.object_path, "/org/bluez/hci1");
}

#[test]
fn discovery_not_found_is_catchable_error() {
    let table = vec![
        entry("/org/bluez", &["org.freedesktop.DBus.Introspectable"]),
        entry("/org/bluez/hci0/dev_AA", &["org.bluez.Device1"]),
    ];
    let r = Adapter::new(&table);
    assert_eq!(r.unwrap_err(), Error::NotFound);
}

#[test]
fn discovery_empty_table_not_found() {
    let table: Vec<ObjectEntry> = Vec::new();
    let r = Adapter::new(&table);
    assert_eq!(r.unwrap_err(), Error::NotFound);
}

#[test]
fn discovery_scenario_ignores_interface_free_entry() {
    let table = vec![
        entry("/org/bluez/hci0", &["org.bluez.LEAdvertisingManager1"]),
        entry("/org/bluez/hci0/dev", &[]),
    ];
    let adapter = Adapter::new(&table).unwrap();
    assert_eq!(adapter.object_path, "/org/bluez/hci0");
}

#[test]
fn set_powered_write_shape() {
    let table = vec![entry("/org/bluez/hci0", &["org.bluez.LEAdvertisingManager1"])];
    let adapter = Adapter::new(&table).unwrap();
    let w = adapter.powered_on(true);
    assert_eq!(w.service, "org.bluez");
    assert_eq!(w.object_path, "/org/bluez/hci0");
    assert_eq!(w.interface, "org.bluez.Adapter1");
    assert_eq!(w.property, "Powered");
    assert!(w.value);
    assert_eq!(w.timeout_ms, 1000);
}

#[test]
fn write_independence_two_writes_no_read() {
    let table = vec![entry("/org/bluez/hci0", &["org.bluez.LEAdvertisingManager1"])];
    let adapter = Adapter::new(&table).unwrap();
    let first = adapter.powered_on(true);
    let second = adapter.powered_on(false);
    assert!(first.value);
    assert!(!second.value);
    assert_eq!(first.service, second.service);
    assert_eq!(first.object_path, second.object_path);
    assert_eq!(first.interface, second.interface);
    assert_eq!(first.property, second.property);
    assert_eq!(first.timeout_ms, second.timeout_ms);
}
