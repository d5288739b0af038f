use fake_bluetooth::errors::FakeBluetoothError;
use fake_bluetooth::fake_adapter::FakeBluetoothAdapter;
use fake_bluetooth::fake_device::FakeBluetoothDevice;

#[test]
fn adapter_new_empty_defaults() {
    let a = FakeBluetoothAdapter::new_empty();
    assert_eq!(a.get_id(), "");
    assert_eq!(a.is_present().unwrap(), true);
    assert_eq!(a.is_powered().unwrap(), false);
    assert_eq!(a.get_can_start_discovery().unwrap(), false);
    assert_eq!(a.get_can_stop_siscovery().unwrap(), false);
    assert_eq!(a.get_devices().unwrap().len(), 0);
    assert_eq!(a.get_ad_datas().unwrap().len(), 0);
    assert_eq!(a.get_address().unwrap(), "");
    assert_eq!(a.get_name().unwrap(), "");
    assert_eq!(a.get_alias().unwrap(), "");
    assert_eq!(a.get_class().unwrap(), 0);
    assert_eq!(a.is_discoverable().unwrap(), false);
    assert_eq!(a.is_pairable().unwrap(), false);
    assert_eq!(a.get_pairable_timeout().unwrap(), 0);
    assert_eq!(a.get_discoverable_timeout().unwrap(), 0);
    assert_eq!(a.is_discovering().unwrap(), false);
    assert_eq!(a.get_uuids().unwrap().len(), 0);
}

#[test]
fn adapter_scalar_setters() {
    let mut a = FakeBluetoothAdapter::new_empty();
    a.set_id("adapter1".to_string());
    assert_eq!(a.get_id(), "adapter1");
    a.set_present(false).unwrap();
    assert_eq!(a.is_present().unwrap(), false);
    a.set_powered(true).unwrap();
    assert_eq!(a.is_powered().unwrap(), true);
    a.set_can_start_discovery(true).unwrap();
    assert_eq!(a.get_can_start_discovery().unwrap(), true);
    a.set_can_stop_discovery(true).unwrap();
    assert_eq!(a.get_can_stop_siscovery().unwrap(), true);
    a.set_address("01:02:03:04:05:06".to_string()).unwrap();
    assert_eq!(a.get_address().unwrap(), "01:02:03:04:05:06");
    a.set_name("controller".to_string()).unwrap();
    assert_eq!(a.get_name().unwrap(), "controller");
    a.set_alias("hci0".to_string()).unwrap();
    assert_eq!(a.get_alias().unwrap(), "hci0");
    a.set_class(7936).unwrap();
    assert_eq!(a.get_class().unwrap(), 7936);
    a.set_discoverable(true).unwrap();
    assert_eq!(a.is_discoverable().unwrap(), true);
    a.set_pairable(true).unwrap();
    assert_eq!(a.is_pairable().unwrap(), true);
    a.set_pairable_timeout(180).unwrap();
    assert_eq!(a.get_pairable_timeout().unwrap(), 180);
    a.set_discoverable_timeout(60).unwrap();
    assert_eq!(a.get_discoverable_timeout().unwrap(), 60);
    a.set_discovering(true).unwrap();
    assert_eq!(a.is_discovering().unwrap(), true);
    a.set_uuids(vec!["180d".to_string(), "180f".to_string()]).unwrap();
    assert_eq!(a.get_uuids().unwrap(), vec!["180d".to_string(), "180f".to_string()]);
}

#[test]
fn adapter_setters_on_distinct_attributes_are_independent() {
    let mut a = FakeBluetoothAdapter::new_empty();
    a.set_name("controller".to_string()).unwrap();
    a.set_alias("hci0".to_string()).unwrap();
    assert_eq!(a.get_name().unwrap(), "controller");
    assert_eq!(a.get_alias().unwrap(), "hci0");

    let mut b = FakeBluetoothAdapter::new_empty();
    b.set_alias("hci0".to_string()).unwrap();
    b.set_name("controller".to_string()).unwrap();
    assert_eq!(b.get_name().unwrap(), "controller");
    assert_eq!(b.get_alias().unwrap(), "hci0");
}

#[test]
fn adapter_device_registry_and_lookup() {
    let mut a = FakeBluetoothAdapter::new_empty();
    assert_eq!(a.get_device("missing".to_string()).unwrap_err(), FakeBluetoothError::NotFound);
    assert_eq!(a.get_first_device().unwrap_err(), FakeBluetoothError::NotFound);

    let mut d1 = FakeBluetoothDevice::new_empty();
    d1.set_id("dev1".to_string());
    d1.set_name("mouse".to_string()).unwrap();
    let mut d2 = FakeBluetoothDevice::new_empty();
    d2.set_id("dev2".to_string());
    d2.set_name("keyboard".to_string()).unwrap();
    a.add_device(d1).unwrap();
    a.add_device(d2).unwrap();

    assert_eq!(a.get_devices().unwrap().len(), 2);
    assert_eq!(a.get_first_device().unwrap().get_id(), "dev1");
    assert_eq!(a.get_device("dev2".to_string()).unwrap().get_name().unwrap(), "keyboard");
    assert_eq!(a.get_device("dev3".to_string()).unwrap_err(), FakeBluetoothError::NotFound);
    assert_eq!(
        a.get_device_list().unwrap(),
        vec!["mouse".to_string(), "keyboard".to_string()]
    );
}

#[test]
fn adapter_duplicate_ids_first_match_wins() {
    let mut a = FakeBluetoothAdapter::new_empty();
    let mut d1 = FakeBluetoothDevice::new_empty();
    d1.set_id("dup".to_string());
    d1.set_name("first".to_string()).unwrap();
    let mut d2 = FakeBluetoothDevice::new_empty();
    d2.set_id("dup".to_string());
    d2.set_name("second".to_string()).unwrap();
    a.add_device(d1).unwrap();
    a.add_device(d2).unwrap();
    let found = a.get_device("dup".to_string()).unwrap();
    assert_eq!(found.get_name().unwrap(), "first");
}

#[test]
fn adapter_registry_snapshot_is_stable() {
    let mut a = FakeBluetoothAdapter::new_empty();
    let mut d1 = FakeBluetoothDevice::new_empty();
    d1.set_id("dev1".to_string());
    a.add_device(d1).unwrap();
    let snapshot = a.get_devices().unwrap();
    let mut d2 = FakeBluetoothDevice::new_empty();
    d2.set_id("dev2".to_string());
    a.add_device(d2).unwrap();
    assert_eq!(snapshot.len(), 1);
    assert_eq!(a.get_devices().unwrap().len(), 2);
}

#[test]
fn adapter_set_devices_replaces_registry() {
    let mut a = FakeBluetoothAdapter::new_empty();
    let mut d1 = FakeBluetoothDevice::new_empty();
    d1.set_id("dev1".to_string());
    a.add_device(d1).unwrap();
    let mut d2 = FakeBluetoothDevice::new_empty();
    d2.set_id("dev2".to_string());
    a.set_devices(vec![d2]).unwrap();
    let devs = a.get_devices().unwrap();
    assert_eq!(devs.len(), 1);
    assert_eq!(devs[0].get_id(), "dev2");
}

#[test]
fn adapter_ad_datas() {
    let mut a = FakeBluetoothAdapter::new_empty();
    assert_eq!(a.get_first_ad_data().unwrap_err(), FakeBluetoothError::NotFound);
    a.set_ad_datas(vec!["adv0".to_string(), "adv1".to_string()]).unwrap();
    assert_eq!(a.get_ad_datas().unwrap(), vec!["adv0".to_string(), "adv1".to_string()]);
    assert_eq!(a.get_first_ad_data().unwrap(), "adv0");
}

#[test]
fn adapter_modalias_decodes() {
    let mut a = FakeBluetoothAdapter::new_empty();
    a.set_modalias("usb:v05ACp820Ad0210".to_string()).unwrap();
    let (source, vendor, product, device) = a.get_modalias().unwrap();
    assert_eq!(source, "usb");
    assert_eq!(vendor, 0x05AC);
    assert_eq!(product, 0x820A);
    assert_eq!(device, 0x0210);
    assert_eq!(a.get_vendor_id_source().unwrap(), "usb");
    assert_eq!(a.get_vendor_id().unwrap(), 0x05AC);
    assert_eq!(a.get_product_id().unwrap(), 0x820A);
    assert_eq!(a.get_device_id().unwrap(), 0x0210);
}

#[test]
fn adapter_modalias_without_separator_is_malformed() {
    let mut a = FakeBluetoothAdapter::new_empty();
    a.set_modalias("bluetoothv1234p5678d9ABC".to_string()).unwrap();
    assert_eq!(a.get_modalias().unwrap_err(), FakeBluetoothError::MalformedModalias);
    assert_eq!(a.get_vendor_id_source().unwrap_err(), FakeBluetoothError::MalformedModalias);
}

#[test]
fn error_messages() {
    assert_eq!(FakeBluetoothError::LockFailure.message(), "Could not get the value.");
    assert_eq!(FakeBluetoothError::NotFound.message(), "No matching entity found.");
    assert_eq!(
        FakeBluetoothError::MalformedModalias.message(),
        "The modalias string is malformed."
    );
    assert_eq!(FakeBluetoothError::ConnectFailed.message(), "Could not connect to the device.");
    assert_eq!(FakeBluetoothError::NotConnected.message(), "The device is not connected.");
    assert_eq!(
        FakeBluetoothError::Unimplemented.message(),
        "Profile operations are not supported."
    );
}
