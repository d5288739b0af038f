use fake_bluetooth::fake_adapter::FakeBluetoothAdapter;
use fake_bluetooth::fake_characteristic::FakeBluetoothGATTCharacteristic;
use fake_bluetooth::fake_descriptor::FakeBluetoothGATTDescriptor;
use fake_bluetooth::fake_device::FakeBluetoothDevice;
use fake_bluetooth::fake_service::FakeBluetoothGATTService;

#[test]
fn service_new_registers_with_device() {
    let mut d = FakeBluetoothDevice::new_empty();
    d.set_id("dev1".to_string());
    let s = FakeBluetoothGATTService::new("svc1".to_string(), &mut d);
    assert_eq!(s.get_id(), "svc1");
    assert_eq!(s.get_device().unwrap(), "dev1");
    assert_eq!(s.is_primary().unwrap(), false);
    let services = d.get_gatt_services().unwrap();
    assert_eq!(services.len(), 1);
    assert_eq!(services[0].get_id(), "svc1");
}

#[test]
fn service_attributes() {
    let mut s = FakeBluetoothGATTService::new_empty();
    s.set_id("svc1".to_string());
    assert_eq!(s.get_id(), "svc1");
    s.set_uuid("180d".to_string()).unwrap();
    assert_eq!(s.get_uuid().unwrap(), "180d");
    s.set_is_primary(true).unwrap();
    assert_eq!(s.is_primary().unwrap(), true);
    assert_eq!(s.get_includes().unwrap().len(), 0);
    s.set_includes(vec!["svc2".to_string(), "svc3".to_string()]).unwrap();
    assert_eq!(s.get_includes().unwrap(), vec!["svc2".to_string(), "svc3".to_string()]);
}

#[test]
fn service_characteristic_registry() {
    let mut s = FakeBluetoothGATTService::new_empty();
    let c = FakeBluetoothGATTCharacteristic::new("ch1".to_string(), &mut s);
    assert_eq!(c.get_id(), "ch1");
    let list = s.get_gatt_characteristics().unwrap();
    assert_eq!(list.len(), 1);
    assert_eq!(list[0].get_id(), "ch1");

    let mut c2 = FakeBluetoothGATTCharacteristic::new_empty();
    c2.set_id("ch2".to_string());
    s.set_gatt_characteristics(vec![c2]).unwrap();
    let list = s.get_gatt_characteristics().unwrap();
    assert_eq!(list.len(), 1);
    assert_eq!(list[0].get_id(), "ch2");
}

#[test]
fn characteristic_new_empty_defaults() {
    let c = FakeBluetoothGATTCharacteristic::new_empty();
    assert_eq!(c.get_id(), "");
    assert_eq!(c.get_uuid().unwrap(), "");
    assert_eq!(c.get_service().unwrap(), "");
    assert_eq!(c.get_value().unwrap(), Vec::<u8>::new());
    assert_eq!(c.is_notifying().unwrap(), false);
    assert_eq!(c.get_flags().unwrap().len(), 0);
    assert_eq!(c.get_gatt_descriptors().unwrap().len(), 0);
}

#[test]
fn characteristic_write_then_read_returns_written_bytes() {
    let mut c = FakeBluetoothGATTCharacteristic::new_empty();
    c.write_value(vec![1, 2, 3]).unwrap();
    assert_eq!(c.read_value().unwrap(), vec![1, 2, 3]);
    c.write_value(Vec::new()).unwrap();
    assert_eq!(c.read_value().unwrap(), Vec::<u8>::new());
    c.write_value(vec![0, 255, 128]).unwrap();
    assert_eq!(c.read_value().unwrap(), vec![0, 255, 128]);
    assert_eq!(c.get_value().unwrap(), vec![0, 255, 128]);
}

#[test]
fn characteristic_notify_flags() {
    let mut c = FakeBluetoothGATTCharacteristic::new_empty();
    c.start_notify().unwrap();
    assert_eq!(c.is_notifying().unwrap(), true);
    c.stop_notify().unwrap();
    assert_eq!(c.is_notifying().unwrap(), false);
    c.set_notifying(true).unwrap();
    assert_eq!(c.is_notifying().unwrap(), true);
}

#[test]
fn characteristic_attributes() {
    let mut c = FakeBluetoothGATTCharacteristic::new_empty();
    c.set_id("ch1".to_string());
    assert_eq!(c.get_id(), "ch1");
    c.set_uuid("2a37".to_string()).unwrap();
    assert_eq!(c.get_uuid().unwrap(), "2a37");
    c.set_flags(vec!["read".to_string(), "notify".to_string()]).unwrap();
    assert_eq!(c.get_flags().unwrap(), vec!["read".to_string(), "notify".to_string()]);
}

#[test]
fn characteristic_descriptor_registry() {
    let mut c = FakeBluetoothGATTCharacteristic::new_empty();
    c.set_id("ch1".to_string());
    let desc = FakeBluetoothGATTDescriptor::new("desc1".to_string(), &mut c);
    assert_eq!(desc.get_id(), "desc1");
    assert_eq!(desc.get_characteristic().unwrap(), "ch1");
    let list = c.get_gatt_descriptors().unwrap();
    assert_eq!(list.len(), 1);
    assert_eq!(list[0].get_id(), "desc1");

    let mut d2 = FakeBluetoothGATTDescriptor::new_empty();
    d2.set_id("desc2".to_string());
    c.set_gatt_descriptors(vec![d2]).unwrap();
    let list = c.get_gatt_descriptors().unwrap();
    assert_eq!(list.len(), 1);
    assert_eq!(list[0].get_id(), "desc2");
}

#[test]
fn descriptor_new_empty_defaults() {
    let d = FakeBluetoothGATTDescriptor::new_empty();
    assert_eq!(d.get_id(), "");
    assert_eq!(d.get_uuid().unwrap(), "");
    assert_eq!(d.get_characteristic().unwrap(), "");
    assert_eq!(d.get_value().unwrap(), Vec::<u8>::new());
    assert_eq!(d.get_flags().unwrap().len(), 0);
}

#[test]
fn descriptor_attributes() {
    let mut d = FakeBluetoothGATTDescriptor::new_empty();
    d.set_id("desc1".to_string());
    assert_eq!(d.get_id(), "desc1");
    d.set_uuid("2902".to_string()).unwrap();
    assert_eq!(d.get_uuid().unwrap(), "2902");
    d.set_flags(vec!["read".to_string(), "write".to_string()]).unwrap();
    assert_eq!(d.get_flags().unwrap(), vec!["read".to_string(), "write".to_string()]);
}

#[test]
fn descriptor_write_then_read_returns_written_bytes() {
    let mut d = FakeBluetoothGATTDescriptor::new_empty();
    d.write_value(vec![42]).unwrap();
    assert_eq!(d.read_value().unwrap(), vec![42]);
    d.write_value(Vec::new()).unwrap();
    assert_eq!(d.read_value().unwrap(), Vec::<u8>::new());
}

#[test]
fn chain_navigation_round_trip() {
    let mut adapter = FakeBluetoothAdapter::new_empty();
    adapter.set_id("adapter1".to_string());

    let mut device = FakeBluetoothDevice::new(&mut adapter, "peer".to_string());
    assert_eq!(device.get_adapter().unwrap(), adapter.get_id());
    let devices = adapter.get_devices().unwrap();
    assert_eq!(devices.len(), 1);
    assert_eq!(devices[0].get_name().unwrap(), "peer");

    device.set_id("dev1".to_string());
    let mut service = FakeBluetoothGATTService::new("svc1".to_string(), &mut device);
    assert_eq!(service.get_device().unwrap(), device.get_id());
    let services = device.get_gatt_services().unwrap();
    assert_eq!(services.len(), 1);
    assert_eq!(services[0].get_id(), service.get_id());

    let mut characteristic =
        FakeBluetoothGATTCharacteristic::new("ch1".to_string(), &mut service);
    assert_eq!(characteristic.get_service().unwrap(), service.get_id());
    let characteristics = service.get_gatt_characteristics().unwrap();
    assert_eq!(characteristics.len(), 1);
    assert_eq!(characteristics[0].get_id(), characteristic.get_id());

    let descriptor = FakeBluetoothGATTDescriptor::new("desc1".to_string(), &mut characteristic);
    assert_eq!(descriptor.get_characteristic().unwrap(), characteristic.get_id());
    let descriptors = characteristic.get_gatt_descriptors().unwrap();
    assert_eq!(descriptors.len(), 1);
    assert_eq!(descriptors[0].get_id(), descriptor.get_id());
}
