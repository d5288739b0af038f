use fake_bluetooth::errors::FakeBluetoothError;
use fake_bluetooth::fake_adapter::FakeBluetoothAdapter;
use fake_bluetooth::fake_device::FakeBluetoothDevice;

#[test]
fn device_new_empty_defaults() {
    let d = FakeBluetoothDevice::new_empty();
    assert_eq!(d.get_id(), "");
    assert_eq!(d.get_adapter().unwrap(), "");
    assert_eq!(d.get_address().unwrap(), "");
    assert_eq!(d.get_appearance().unwrap(), 0);
    assert_eq!(d.get_class().unwrap(), 0);
    assert_eq!(d.get_gatt_services().unwrap().len(), 0);
    assert_eq!(d.is_paired().unwrap(), false);
    assert_eq!(d.is_connectable().unwrap(), false);
    assert_eq!(d.is_connected().unwrap(), false);
    assert_eq!(d.is_trusted().unwrap(), false);
    assert_eq!(d.is_blocked().unwrap(), false);
    assert_eq!(d.is_legacy_pairing().unwrap(), false);
    assert_eq!(d.get_uuids().unwrap().len(), 0);
    assert_eq!(d.get_name().unwrap(), "");
    assert_eq!(d.get_icon().unwrap(), "");
    assert_eq!(d.get_alias().unwrap(), "");
    assert_eq!(d.get_rssi().unwrap(), 0);
    assert_eq!(d.get_tx_power().unwrap(), 0);
}

#[test]
fn device_new_registers_with_adapter() {
    let mut a = FakeBluetoothAdapter::new_empty();
    a.set_id("adapter1".to_string());
    let d = FakeBluetoothDevice::new(&mut a, "headset".to_string());
    assert_eq!(d.get_name().unwrap(), "headset");
    assert_eq!(d.get_id(), "");
    assert_eq!(d.get_adapter().unwrap(), "adapter1");
    let devs = a.get_devices().unwrap();
    assert_eq!(devs.len(), 1);
    assert_eq!(devs[0].get_name().unwrap(), "headset");
}

#[test]
fn device_new_returns_existing_device_by_id() {
    let mut a = FakeBluetoothAdapter::new_empty();
    let mut existing = FakeBluetoothDevice::new_empty();
    existing.set_id("headset".to_string());
    existing.set_name("already here".to_string()).unwrap();
    a.add_device(existing).unwrap();
    let d = FakeBluetoothDevice::new(&mut a, "headset".to_string());
    assert_eq!(d.get_name().unwrap(), "already here");
    assert_eq!(a.get_devices().unwrap().len(), 1);
}

#[test]
fn device_scalar_setters() {
    let mut d = FakeBluetoothDevice::new_empty();
    d.set_id("dev1".to_string());
    assert_eq!(d.get_id(), "dev1");
    d.set_address("AA:BB:CC:DD:EE:FF".to_string()).unwrap();
    assert_eq!(d.get_address().unwrap(), "AA:BB:CC:DD:EE:FF");
    d.set_name("mouse".to_string()).unwrap();
    assert_eq!(d.get_name().unwrap(), "mouse");
    d.set_icon("input-mouse".to_string()).unwrap();
    assert_eq!(d.get_icon().unwrap(), "input-mouse");
    d.set_class(9600).unwrap();
    assert_eq!(d.get_class().unwrap(), 9600);
    d.set_appearance(962).unwrap();
    assert_eq!(d.get_appearance().unwrap(), 962);
    d.set_uuids(vec!["1812".to_string()]).unwrap();
    assert_eq!(d.get_uuids().unwrap(), vec!["1812".to_string()]);
    d.set_trusted(true).unwrap();
    assert_eq!(d.is_trusted().unwrap(), true);
    d.set_blocked(true).unwrap();
    assert_eq!(d.is_blocked().unwrap(), true);
    d.set_alias("my mouse".to_string()).unwrap();
    assert_eq!(d.get_alias().unwrap(), "my mouse");
    d.set_legacy_pairing(true).unwrap();
    assert_eq!(d.is_legacy_pairing().unwrap(), true);
    d.set_rssi(-70).unwrap();
    assert_eq!(d.get_rssi().unwrap(), -70);
    d.set_tx_power(4).unwrap();
    assert_eq!(d.get_tx_power().unwrap(), 4);
}

#[test]
fn device_setters_on_distinct_attributes_are_independent() {
    let mut d = FakeBluetoothDevice::new_empty();
    d.set_name("mouse".to_string()).unwrap();
    d.set_alias("my mouse".to_string()).unwrap();
    assert_eq!(d.get_name().unwrap(), "mouse");
    assert_eq!(d.get_alias().unwrap(), "my mouse");

    let mut e = FakeBluetoothDevice::new_empty();
    e.set_alias("my mouse".to_string()).unwrap();
    e.set_name("mouse".to_string()).unwrap();
    assert_eq!(e.get_name().unwrap(), "mouse");
    assert_eq!(e.get_alias().unwrap(), "my mouse");
}

#[test]
fn device_pairing_is_ungated() {
    let mut d = FakeBluetoothDevice::new_empty();
    d.pair().unwrap();
    assert_eq!(d.is_paired().unwrap(), true);
    d.cancel_pairing().unwrap();
    assert_eq!(d.is_paired().unwrap(), false);
}

#[test]
fn connect_fails_when_not_connectable() {
    let mut d = FakeBluetoothDevice::new_empty();
    d.set_connectable(false).unwrap();
    assert_eq!(d.connect().unwrap_err(), FakeBluetoothError::ConnectFailed);
    assert_eq!(d.is_connected().unwrap(), false);
}

#[test]
fn connect_succeeds_once_then_fails() {
    let mut d = FakeBluetoothDevice::new_empty();
    d.set_connectable(true).unwrap();
    d.connect().unwrap();
    assert_eq!(d.is_connected().unwrap(), true);
    assert_eq!(d.connect().unwrap_err(), FakeBluetoothError::ConnectFailed);
    assert_eq!(d.is_connected().unwrap(), true);
}

#[test]
fn disconnect_fails_when_disconnected() {
    let mut d = FakeBluetoothDevice::new_empty();
    assert_eq!(d.disconnect().unwrap_err(), FakeBluetoothError::NotConnected);
}

#[test]
fn disconnect_succeeds_when_connected() {
    let mut d = FakeBluetoothDevice::new_empty();
    d.set_connectable(true).unwrap();
    d.connect().unwrap();
    d.disconnect().unwrap();
    assert_eq!(d.is_connected().unwrap(), false);
    assert_eq!(d.disconnect().unwrap_err(), FakeBluetoothError::NotConnected);
}

#[test]
fn set_connected_bypasses_the_gate() {
    let mut d = FakeBluetoothDevice::new_empty();
    d.set_connected(true).unwrap();
    assert_eq!(d.is_connected().unwrap(), true);
    assert_eq!(d.is_connectable().unwrap(), false);
}

#[test]
fn profile_operations_are_unimplemented() {
    let d = FakeBluetoothDevice::new_empty();
    assert_eq!(
        d.connect_profile("1812".to_string()).unwrap_err(),
        FakeBluetoothError::Unimplemented
    );
    assert_eq!(
        d.disconnect_profile("1812".to_string()).unwrap_err(),
        FakeBluetoothError::Unimplemented
    );
}

#[test]
fn device_modalias_decodes_reference_value() {
    let mut d = FakeBluetoothDevice::new_empty();
    d.set_modalias("bluetooth:v1234p5678d9ABC".to_string()).unwrap();
    let (source, vendor, product, device) = d.get_modalias().unwrap();
    assert_eq!(source, "bluetooth");
    assert_eq!(vendor, 4660);
    assert_eq!(product, 22136);
    assert_eq!(device, 39612);
    assert_eq!(d.get_vendor_id_source().unwrap(), "bluetooth");
    assert_eq!(d.get_vendor_id().unwrap(), 4660);
    assert_eq!(d.get_product_id().unwrap(), 22136);
    assert_eq!(d.get_device_id().unwrap(), 39612);
}

#[test]
fn device_modalias_lowercase_hex_decodes() {
    let mut d = FakeBluetoothDevice::new_empty();
    d.set_modalias("bluetooth:v00e0p1200d1436".to_string()).unwrap();
    assert_eq!(d.get_vendor_id().unwrap(), 0x00E0);
    assert_eq!(d.get_product_id().unwrap(), 0x1200);
    assert_eq!(d.get_device_id().unwrap(), 0x1436);
}

#[test]
fn device_modalias_without_separator_is_malformed() {
    let mut d = FakeBluetoothDevice::new_empty();
    d.set_modalias("bluetooth v1234p5678d9ABC".to_string()).unwrap();
    assert_eq!(d.get_modalias().unwrap_err(), FakeBluetoothError::MalformedModalias);
}

#[test]
fn device_modalias_too_short_is_malformed() {
    let mut d = FakeBluetoothDevice::new_empty();
    d.set_modalias("usb:v12".to_string()).unwrap();
    assert_eq!(d.get_modalias().unwrap_err(), FakeBluetoothError::MalformedModalias);
    assert_eq!(d.get_vendor_id().unwrap_err(), FakeBluetoothError::MalformedModalias);
}

#[test]
fn device_modalias_bad_hex_is_malformed() {
    let mut d = FakeBluetoothDevice::new_empty();
    d.set_modalias("bluetooth:vXYZWp5678d9ABC".to_string()).unwrap();
    assert_eq!(d.get_modalias().unwrap_err(), FakeBluetoothError::MalformedModalias);
    d.set_modalias("bluetooth:v1234p5678d9AB-".to_string()).unwrap();
    assert_eq!(d.get_device_id().unwrap_err(), FakeBluetoothError::MalformedModalias);
}

#[test]
fn device_modalias_set_is_reflected_immediately() {
    let mut d = FakeBluetoothDevice::new_empty();
    d.set_modalias("usb:v0001p0002d0003".to_string()).unwrap();
    assert_eq!(d.get_vendor_id().unwrap(), 1);
    d.set_modalias("usb:v000Ap000Bd000C".to_string()).unwrap();
    assert_eq!(d.get_vendor_id().unwrap(), 10);
    assert_eq!(d.get_product_id().unwrap(), 11);
    assert_eq!(d.get_device_id().unwrap(), 12);
}
