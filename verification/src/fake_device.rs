use vstd::prelude::*;

use crate::errors::FakeBluetoothError;
use crate::fake_adapter::AdapterView;
use crate::fake_adapter::FakeBluetoothAdapter;
use crate::fake_adapter::has_device_with_id;
use crate::fake_service::FakeBluetoothGATTService;
use crate::fake_service::ServiceView;
use crate::modalias::decode_modalias;
use crate::modalias::modalias_device_id;
use crate::modalias::modalias_product_id;
use crate::modalias::modalias_source;
use crate::modalias::modalias_vendor_id;
use crate::modalias::modalias_well_formed;

verus! {

/// Mathematical model of a remote device.  The `adapter` field is the
/// identifier of the owning adapter at registration time (a non-owning
/// back-reference); `gatt_services` models the owned child registry in
/// insertion order.
#[verifier::ext_equal]
pub ghost struct DeviceView {
    pub id: Seq<char>,
    pub adapter: Seq<char>,
    pub address: Seq<char>,
    pub appearance: u16,
    pub class: u32,
    pub gatt_services: Seq<ServiceView>,
    pub is_paired: bool,
    pub is_connectable: bool,
    pub is_connected: bool,
    pub is_trusted: bool,
    pub is_blocked: bool,
    pub is_legacy_pairing: bool,
    pub uuids: Seq<Seq<char>>,
    pub name: Seq<char>,
    pub icon: Seq<char>,
    pub alias: Seq<char>,
    pub rssi: i16,
    pub tx_power: i16,
    pub modalias: Seq<char>,
}

/// The state of a device as the constructors build it: every attribute
/// default-valued except the name and the back-reference.
pub open spec fn fresh_device_view(name: Seq<char>, adapter: Seq<char>) -> DeviceView {
    DeviceView {
        id: Seq::empty(),
        adapter: adapter,
        address: Seq::empty(),
        appearance: 0,
        class: 0,
        gatt_services: Seq::empty(),
        is_paired: false,
        is_connectable: false,
        is_connected: false,
        is_trusted: false,
        is_blocked: false,
        is_legacy_pairing: false,
        uuids: Seq::empty(),
        name: name,
        icon: Seq::empty(),
        alias: Seq::empty(),
        rssi: 0,
        tx_power: 0,
        modalias: Seq::empty(),
    }
}

/// Whether `connect` is allowed to succeed: the device must be connectable
/// and currently disconnected.
pub open spec fn connect_allowed(d: DeviceView) -> bool {
    d.is_connectable && !d.is_connected
}

/// A remote device known to an adapter, owning an ordered registry of GATT
/// services and carrying the connection state machine.
#[derive(Debug)]
pub struct FakeBluetoothDevice {
    id: String,
    adapter: String,
    address: String,
    appearance: u16,
    class: u32,
    gatt_services: Vec<FakeBluetoothGATTService>,
    is_paired: bool,
    is_connectable: bool,
    is_connected: bool,
    is_trusted: bool,
    is_blocked: bool,
    is_legacy_pairing: bool,
    uuids: Vec<String>,
    name: String,
    icon: String,
    alias: String,
    rssi: i16,
    tx_power: i16,
    modalias: String,
}

impl View for FakeBluetoothDevice {
    type V = DeviceView;

    closed spec fn view(&self) -> DeviceView {
        DeviceView {
            id: self.id@,
            adapter: self.adapter@,
            address: self.address@,
            appearance: self.appearance,
            class: self.class,
            gatt_services: self.gatt_services.deep_view(),
            is_paired: self.is_paired,
            is_connectable: self.is_connectable,
            is_connected: self.is_connected,
            is_trusted: self.is_trusted,
            is_blocked: self.is_blocked,
            is_legacy_pairing: self.is_legacy_pairing,
            uuids: self.uuids.deep_view(),
            name: self.name@,
            icon: self.icon@,
            alias: self.alias@,
            rssi: self.rssi,
            tx_power: self.tx_power,
            modalias: self.modalias@,
        }
    }
}

impl DeepView for FakeBluetoothDevice {
    type V = DeviceView;

    open spec fn deep_view(&self) -> DeviceView {
        self.view()
    }
}

impl Clone for FakeBluetoothDevice {
    fn clone(&self) -> (r: Self)
        ensures
            r@ == self@,
    {
        let r = FakeBluetoothDevice {
            id: self.id.clone(),
            adapter: self.adapter.clone(),
            address: self.address.clone(),
            appearance: self.appearance,
            class: self.class,
            gatt_services: self.gatt_services.clone(),
            is_paired: self.is_paired,
            is_connectable: self.is_connectable,
            is_connected: self.is_connected,
            is_trusted: self.is_trusted,
            is_blocked: self.is_blocked,
            is_legacy_pairing: self.is_legacy_pairing,
            uuids: self.uuids.clone(),
            name: self.name.clone(),
            icon: self.icon.clone(),
            alias: self.alias.clone(),
            rssi: self.rssi,
            tx_power: self.tx_power,
            modalias: self.modalias.clone(),
        };
        proof {
            assert(r.gatt_services.deep_view() =~= self.gatt_services.deep_view());
            assert(r.uuids.deep_view() =~= self.uuids.deep_view());
            assert(r@ =~= self@);
        }
        r
    }
}

impl FakeBluetoothDevice {
    /// Registers a device named `name` with the adapter, or returns the
    /// existing one: when some registered device already carries `name` as
    /// its identifier, the first such device is returned and the adapter is
    /// left unchanged; otherwise a default-valued device with that name is
    /// appended to the registry and returned.  The back-reference recorded
    /// on a fresh device is the adapter's identifier at this moment; the
    /// parent link is fixed here and never reassigned.  Note that a fresh
    /// device's identifier starts empty — the name, not the identifier,
    /// carries `name`.
    pub fn new(adapter: &mut FakeBluetoothAdapter, name: String) -> (r: FakeBluetoothDevice)
        ensures
            has_device_with_id(old(adapter)@.devices, name@) ==> (final(adapter)@ == old(adapter)@
                && exists|i: int|
                #![auto]
                0 <= i < old(adapter)@.devices.len() && old(adapter)@.devices[i].id == name@ && r@
                    == old(adapter)@.devices[i] && (forall|j: int|
                    0 <= j < i ==> old(adapter)@.devices[j].id != name@)),
            !has_device_with_id(old(adapter)@.devices, name@) ==> (r@ == fresh_device_view(
                name@,
                old(adapter)@.id,
            ) && final(adapter)@ == (AdapterView {
                devices: old(adapter)@.devices.push(r@),
                ..old(adapter)@
            })),
    {
        match adapter.get_device(name.clone()) {
            Ok(existing_device) => {
                return existing_device;
            },
            Err(_) => {},
        }
        let device = FakeBluetoothDevice {
            id: String::new(),
            adapter: adapter.get_id(),
            address: String::new(),
            appearance: 0,
            class: 0,
            gatt_services: Vec::new(),
            is_paired: false,
            is_connectable: false,
            is_connected: false,
            is_trusted: false,
            is_blocked: false,
            is_legacy_pairing: false,
            uuids: Vec::new(),
            name: name,
            icon: String::new(),
            alias: String::new(),
            rssi: 0,
            tx_power: 0,
            modalias: String::new(),
        };
        proof {
            assert(device@ =~= fresh_device_view(device.name@, old(adapter)@.id));
        }
        let _ = adapter.add_device(device.clone());
        device
    }

    /// A fully default-valued, parent-less device, used as a placeholder.
    pub fn new_empty() -> (r: FakeBluetoothDevice)
        ensures
            r@ == fresh_device_view(Seq::<char>::empty(), Seq::<char>::empty()),
    {
        let r = FakeBluetoothDevice {
            id: String::new(),
            adapter: String::new(),
            address: String::new(),
            appearance: 0,
            class: 0,
            gatt_services: Vec::new(),
            is_paired: false,
            is_connectable: false,
            is_connected: false,
            is_trusted: false,
            is_blocked: false,
            is_legacy_pairing: false,
            uuids: Vec::new(),
            name: String::new(),
            icon: String::new(),
            alias: String::new(),
            rssi: 0,
            tx_power: 0,
            modalias: String::new(),
        };
        proof {
            assert(r@ =~= fresh_device_view(Seq::<char>::empty(), Seq::<char>::empty()));
        }
        r
    }

    /// The device's identifier.  Identifier access never fails.
    pub fn get_id(&self) -> (r: String)
        ensures
            r@ == self@.id,
    {
        self.id.clone()
    }

    /// Overwrites the device's identifier; every other attribute is kept.
    pub fn set_id(&mut self, value: String)
        ensures
            final(self)@ == (DeviceView { id: value@, ..old(self)@ }),
    {
        self.id = value;
    }

    /// The identifier of the owning adapter, recorded at registration.
    pub fn get_adapter(&self) -> (r: Result<String, FakeBluetoothError>)
        ensures
            r matches Ok(v) && v@ == self@.adapter,
    {
        Ok(self.adapter.clone())
    }

    /// The device's hardware address.
    pub fn get_address(&self) -> (r: Result<String, FakeBluetoothError>)
        ensures
            r matches Ok(v) && v@ == self@.address,
    {
        Ok(self.address.clone())
    }

    /// Overwrites the device's hardware address; every other attribute is
    /// kept.
    pub fn set_address(&mut self, value: String) -> (r: Result<(), FakeBluetoothError>)
        ensures
            r is Ok,
            final(self)@ == (DeviceView { address: value@, ..old(self)@ }),
    {
        self.address = value;
        Ok(())
    }

    /// The device's name.
    pub fn get_name(&self) -> (r: Result<String, FakeBluetoothError>)
        ensures
            r matches Ok(v) && v@ == self@.name,
    {
        Ok(self.name.clone())
    }

    /// Overwrites the device's name; every other attribute is kept.
    pub fn set_name(&mut self, value: String) -> (r: Result<(), FakeBluetoothError>)
        ensures
            r is Ok,
            final(self)@ == (DeviceView { name: value@, ..old(self)@ }),
    {
        self.name = value;
        Ok(())
    }

    /// The device's icon name.
    pub fn get_icon(&self) -> (r: Result<String, FakeBluetoothError>)
        ensures
            r matches Ok(v) && v@ == self@.icon,
    {
        Ok(self.icon.clone())
    }

    /// Overwrites the device's icon name; every other attribute is kept.
    pub fn set_icon(&mut self, value: String) -> (r: Result<(), FakeBluetoothError>)
        ensures
            r is Ok,
            final(self)@ == (DeviceView { icon: value@, ..old(self)@ }),
    {
        self.icon = value;
        Ok(())
    }

    /// The device's class value.
    pub fn get_class(&self) -> (r: Result<u32, FakeBluetoothError>)
        ensures
            r matches Ok(v) && v == self@.class,
    {
        Ok(self.class)
    }

    /// Overwrites the device's class value; every other attribute is kept.
    pub fn set_class(&mut self, value: u32) -> (r: Result<(), FakeBluetoothError>)
        ensures
            r is Ok,
            final(self)@ == (DeviceView { class: value, ..old(self)@ }),
    {
        self.class = value;
        Ok(())
    }

    /// The device's appearance value.
    pub fn get_appearance(&self) -> (r: Result<u16, FakeBluetoothError>)
        ensures
            r matches Ok(v) && v == self@.appearance,
    {
        Ok(self.appearance)
    }

    /// Overwrites the device's appearance value; every other attribute is
    /// kept.
    pub fn set_appearance(&mut self, value: u16) -> (r: Result<(), FakeBluetoothError>)
        ensures
            r is Ok,
            final(self)@ == (DeviceView { appearance: value, ..old(self)@ }),
    {
        self.appearance = value;
        Ok(())
    }

    /// The device's advertised UUIDs.
    pub fn get_uuids(&self) -> (r: Result<Vec<String>, FakeBluetoothError>)
        ensures
            r matches Ok(v) && v.deep_view() == self@.uuids,
    {
        let v = self.uuids.clone();
        proof {
            assert(v.deep_view() =~= self@.uuids);
        }
        Ok(v)
    }

    /// Overwrites the device's advertised UUIDs; every other attribute is
    /// kept.
    pub fn set_uuids(&mut self, value: Vec<String>) -> (r: Result<(), FakeBluetoothError>)
        ensures
            r is Ok,
            final(self)@ == (DeviceView { uuids: value.deep_view(), ..old(self)@ }),
    {
        self.uuids = value;
        Ok(())
    }

    /// Whether the device is marked paired.
    pub fn is_paired(&self) -> (r: Result<bool, FakeBluetoothError>)
        ensures
            r matches Ok(v) && v == self@.is_paired,
    {
        Ok(self.is_paired)
    }

    /// Marks the device paired.  There is no state-machine gating: any
    /// device can be marked paired regardless of its connection state.
    pub fn pair(&mut self) -> (r: Result<(), FakeBluetoothError>)
        ensures
            r is Ok,
            final(self)@ == (DeviceView { is_paired: true, ..old(self)@ }),
    {
        self.is_paired = true;
        Ok(())
    }

    /// Marks the device unpaired, unconditionally.
    pub fn cancel_pairing(&mut self) -> (r: Result<(), FakeBluetoothError>)
        ensures
            r is Ok,
            final(self)@ == (DeviceView { is_paired: false, ..old(self)@ }),
    {
        self.is_paired = false;
        Ok(())
    }

    /// Whether the device is currently connected.
    pub fn is_connected(&self) -> (r: Result<bool, FakeBluetoothError>)
        ensures
            r matches Ok(v) && v == self@.is_connected,
    {
        Ok(self.is_connected)
    }

    /// Overwrites the connection flag directly, bypassing the state
    /// machine; every other attribute is kept.
    pub fn set_connected(&mut self, value: bool) -> (r: Result<(), FakeBluetoothError>)
        ensures
            r is Ok,
            final(self)@ == (DeviceView { is_connected: value, ..old(self)@ }),
    {
        self.is_connected = value;
        Ok(())
    }

    /// Whether the device accepts connections.
    pub fn is_connectable(&self) -> (r: Result<bool, FakeBluetoothError>)
        ensures
            r matches Ok(v) && v == self@.is_connectable,
    {
        Ok(self.is_connectable)
    }

    /// Overwrites the connectable flag; every other attribute is kept.
    pub fn set_connectable(&mut self, value: bool) -> (r: Result<(), FakeBluetoothError>)
        ensures
            r is Ok,
            final(self)@ == (DeviceView { is_connectable: value, ..old(self)@ }),
    {
        self.is_connectable = value;
        Ok(())
    }

    /// Whether the device is marked trusted.
    pub fn is_trusted(&self) -> (r: Result<bool, FakeBluetoothError>)
        ensures
            r matches Ok(v) && v == self@.is_trusted,
    {
        Ok(self.is_trusted)
    }

    /// Overwrites the trusted flag; every other attribute is kept.
    pub fn set_trusted(&mut self, value: bool) -> (r: Result<(), FakeBluetoothError>)
        ensures
            r is Ok,
            final(self)@ == (DeviceView { is_trusted: value, ..old(self)@ }),
    {
        self.is_trusted = value;
        Ok(())
    }

    /// Whether the device is marked blocked.
    pub fn is_blocked(&self) -> (r: Result<bool, FakeBluetoothError>)
        ensures
            r matches Ok(v) && v == self@.is_blocked,
    {
        Ok(self.is_blocked)
    }

    /// Overwrites the blocked flag; every other attribute is kept.
    pub fn set_blocked(&mut self, value: bool) -> (r: Result<(), FakeBluetoothError>)
        ensures
            r is Ok,
            final(self)@ == (DeviceView { is_blocked: value, ..old(self)@ }),
    {
        self.is_blocked = value;
        Ok(())
    }

    /// The device's alias.
    pub fn get_alias(&self) -> (r: Result<String, FakeBluetoothError>)
        ensures
            r matches Ok(v) && v@ == self@.alias,
    {
        Ok(self.alias.clone())
    }

    /// Overwrites the device's alias; every other attribute is kept.
    pub fn set_alias(&mut self, value: String) -> (r: Result<(), FakeBluetoothError>)
        ensures
            r is Ok,
            final(self)@ == (DeviceView { alias: value@, ..old(self)@ }),
    {
        self.alias = value;
        Ok(())
    }

    /// Whether the device uses legacy pairing.
    pub fn is_legacy_pairing(&self) -> (r: Result<bool, FakeBluetoothError>)
        ensures
            r matches Ok(v) && v == self@.is_legacy_pairing,
    {
        Ok(self.is_legacy_pairing)
    }

    /// Overwrites the legacy-pairing flag; every other attribute is kept.
    pub fn set_legacy_pairing(&mut self, value: bool) -> (r: Result<(), FakeBluetoothError>)
        ensures
            r is Ok,
            final(self)@ == (DeviceView { is_legacy_pairing: value, ..old(self)@ }),
    {
        self.is_legacy_pairing = value;
        Ok(())
    }

    /// Decodes the stored modalias string into its source identifier and the
    /// vendor, product and device identifiers.  The decode is re-run on every
    /// call, so a `set_modalias` is reflected immediately.
    pub fn get_modalias(&self) -> (r: Result<(String, u32, u32, u32), FakeBluetoothError>)
        ensures
            modalias_well_formed(self@.modalias) ==> (r matches Ok(t) && t.0@ == modalias_source(
                self@.modalias,
            ) && t.1 == modalias_vendor_id(self@.modalias) && t.2 == modalias_product_id(
                self@.modalias,
            ) && t.3 == modalias_device_id(self@.modalias)),
            !modalias_well_formed(self@.modalias) ==> r == Err::<
                (String, u32, u32, u32),
                FakeBluetoothError,
            >(FakeBluetoothError::MalformedModalias),
    {
        decode_modalias(self.modalias.as_str())
    }

    /// Overwrites the stored modalias string; no validation is performed
    /// here, the decode happens on read.
    pub fn set_modalias(&mut self, value: String) -> (r: Result<(), FakeBluetoothError>)
        ensures
            r is Ok,
            final(self)@ == (DeviceView { modalias: value@, ..old(self)@ }),
    {
        self.modalias = value;
        Ok(())
    }

    /// The source part of the modalias, re-running the full decode.
    pub fn get_vendor_id_source(&self) -> (r: Result<String, FakeBluetoothError>)
        ensures
            modalias_well_formed(self@.modalias) ==> (r matches Ok(v) && v@ == modalias_source(
                self@.modalias,
            )),
            !modalias_well_formed(self@.modalias) ==> r == Err::<String, FakeBluetoothError>(
                FakeBluetoothError::MalformedModalias,
            ),
    {
        match self.get_modalias() {
            Ok(t) => Ok(t.0),
            Err(e) => Err(e),
        }
    }

    /// The vendor identifier of the modalias, re-running the full decode.
    pub fn get_vendor_id(&self) -> (r: Result<u32, FakeBluetoothError>)
        ensures
            modalias_well_formed(self@.modalias) ==> (r matches Ok(v) && v == modalias_vendor_id(
                self@.modalias,
            )),
            !modalias_well_formed(self@.modalias) ==> r == Err::<u32, FakeBluetoothError>(
                FakeBluetoothError::MalformedModalias,
            ),
    {
        match self.get_modalias() {
            Ok(t) => Ok(t.1),
            Err(e) => Err(e),
        }
    }

    /// The product identifier of the modalias, re-running the full decode.
    pub fn get_product_id(&self) -> (r: Result<u32, FakeBluetoothError>)
        ensures
            modalias_well_formed(self@.modalias) ==> (r matches Ok(v) && v == modalias_product_id(
                self@.modalias,
            )),
            !modalias_well_formed(self@.modalias) ==> r == Err::<u32, FakeBluetoothError>(
                FakeBluetoothError::MalformedModalias,
            ),
    {
        match self.get_modalias() {
            Ok(t) => Ok(t.2),
            Err(e) => Err(e),
        }
    }

    /// The device identifier of the modalias, re-running the full decode.
    pub fn get_device_id(&self) -> (r: Result<u32, FakeBluetoothError>)
        ensures
            modalias_well_formed(self@.modalias) ==> (r matches Ok(v) && v == modalias_device_id(
                self@.modalias,
            )),
            !modalias_well_formed(self@.modalias) ==> r == Err::<u32, FakeBluetoothError>(
                FakeBluetoothError::MalformedModalias,
            ),
    {
        match self.get_modalias() {
            Ok(t) => Ok(t.3),
            Err(e) => Err(e),
        }
    }

    /// The device's received signal strength indication.
    pub fn get_rssi(&self) -> (r: Result<i16, FakeBluetoothError>)
        ensures
            r matches Ok(v) && v == self@.rssi,
    {
        Ok(self.rssi)
    }

    /// Overwrites the device's received signal strength indication; every
    /// other attribute is kept.
    pub fn set_rssi(&mut self, value: i16) -> (r: Result<(), FakeBluetoothError>)
        ensures
            r is Ok,
            final(self)@ == (DeviceView { rssi: value, ..old(self)@ }),
    {
        self.rssi = value;
        Ok(())
    }

    /// The device's transmission power.
    pub fn get_tx_power(&self) -> (r: Result<i16, FakeBluetoothError>)
        ensures
            r matches Ok(v) && v == self@.tx_power,
    {
        Ok(self.tx_power)
    }

    /// Overwrites the device's transmission power; every other attribute is
    /// kept.
    pub fn set_tx_power(&mut self, value: i16) -> (r: Result<(), FakeBluetoothError>)
        ensures
            r is Ok,
            final(self)@ == (DeviceView { tx_power: value, ..old(self)@ }),
    {
        self.tx_power = value;
        Ok(())
    }

    /// A snapshot of the service registry: later mutations of the device are
    /// not visible through the returned list.
    pub fn get_gatt_services(&self) -> (r: Result<
        Vec<FakeBluetoothGATTService>,
        FakeBluetoothError,
    >)
        ensures
            r matches Ok(v) && v.deep_view() == self@.gatt_services,
    {
        let v = self.gatt_services.clone();
        proof {
            assert(v.deep_view() =~= self@.gatt_services);
        }
        Ok(v)
    }

    /// Replaces the whole service registry; every other attribute is kept.
    pub fn set_gatt_service(&mut self, services: Vec<FakeBluetoothGATTService>) -> (r: Result<
        (),
        FakeBluetoothError,
    >)
        ensures
            r is Ok,
            final(self)@ == (DeviceView { gatt_services: services.deep_view(), ..old(self)@ }),
    {
        self.gatt_services = services;
        Ok(())
    }

    /// Appends a service to the registry.  Duplicate identifiers are never
    /// rejected; lookups elsewhere resolve to the first match.
    pub fn add_service(&mut self, service: FakeBluetoothGATTService) -> (r: Result<
        (),
        FakeBluetoothError,
    >)
        ensures
            r is Ok,
            final(self)@ == (DeviceView {
                gatt_services: old(self)@.gatt_services.push(service@),
                ..old(self)@
            }),
    {
        let ghost pre = self@;
        self.gatt_services.push(service);
        proof {
            assert(self.gatt_services.deep_view() =~= pre.gatt_services.push(service@));
            assert(self@ =~= (DeviceView { gatt_services: pre.gatt_services.push(service@), ..pre }));
        }
        Ok(())
    }

    /// Profile-level connect is not supported by this fake; the call always
    /// fails and changes nothing.
    pub fn connect_profile(&self, _uuid: String) -> (r: Result<(), FakeBluetoothError>)
        ensures
            r == Err::<(), FakeBluetoothError>(FakeBluetoothError::Unimplemented),
    {
        Err(FakeBluetoothError::Unimplemented)
    }

    /// Profile-level disconnect is not supported by this fake; the call
    /// always fails and changes nothing.
    pub fn disconnect_profile(&self, _uuid: String) -> (r: Result<(), FakeBluetoothError>)
        ensures
            r == Err::<(), FakeBluetoothError>(FakeBluetoothError::Unimplemented),
    {
        Err(FakeBluetoothError::Unimplemented)
    }

    /// Transitions the device to connected, gated by the connectable flag:
    /// the call succeeds exactly when the device is connectable and currently
    /// disconnected, and fails with `ConnectFailed` both when the device is
    /// not connectable and when it is already connected.
    pub fn connect(&mut self) -> (r: Result<(), FakeBluetoothError>)
        ensures
            connect_allowed(old(self)@) ==> (r is Ok && final(self)@ == (DeviceView {
                is_connected: true,
                ..old(self)@
            })),
            !connect_allowed(old(self)@) ==> (r == Err::<(), FakeBluetoothError>(
                FakeBluetoothError::ConnectFailed,
            ) && final(self)@ == old(self)@),
    {
        if self.is_connectable && !self.is_connected {
            self.set_connected(true)
        } else {
            Err(FakeBluetoothError::ConnectFailed)
        }
    }

    /// Transitions the device to disconnected: the call succeeds exactly
    /// when the device is currently connected, and fails with `NotConnected`
    /// otherwise.
    pub fn disconnect(&mut self) -> (r: Result<(), FakeBluetoothError>)
        ensures
            old(self)@.is_connected ==> (r is Ok && final(self)@ == (DeviceView {
                is_connected: false,
                ..old(self)@
            })),
            !old(self)@.is_connected ==> (r == Err::<(), FakeBluetoothError>(
                FakeBluetoothError::NotConnected,
            ) && final(self)@ == old(self)@),
    {
        if self.is_connected {
            self.set_connected(false)
        } else {
            Err(FakeBluetoothError::NotConnected)
        }
    }
}

/// Law (referential round trip): after a device is registered by `new`, the
/// adapter contains that very device in its device list — whether `new`
/// appended a fresh device or resolved to an already-registered one — and a
/// fresh device's back-reference is the adapter's identifier, so navigating
/// child to parent and back to the children yields a collection containing
/// the original child.  The `requires` clauses are exactly what `new`
/// ensures of its result and of the adapter.
pub proof fn lemma_device_round_trip(
    a0: AdapterView,
    a1: AdapterView,
    d: DeviceView,
    name: Seq<char>,
)
    requires
        has_device_with_id(a0.devices, name) ==> (a1 == a0 && exists|i: int|
            #![auto]
            0 <= i < a0.devices.len() && a0.devices[i].id == name && d == a0.devices[i] && (
            forall|j: int| 0 <= j < i ==> a0.devices[j].id != name)),
        !has_device_with_id(a0.devices, name) ==> (d == fresh_device_view(name, a0.id) && a1 == (
        AdapterView { devices: a0.devices.push(d), ..a0 })),
    ensures
        exists|i: int| 0 <= i < a1.devices.len() && a1.devices[i] == d,
        !has_device_with_id(a0.devices, name) ==> d.adapter == a0.id,
{
    if has_device_with_id(a0.devices, name) {
        let i = choose|i: int|
            #![auto]
            0 <= i < a0.devices.len() && a0.devices[i].id == name && d == a0.devices[i] && (
            forall|j: int| 0 <= j < i ==> a0.devices[j].id != name);
        assert(a1.devices[i] == d);
    } else {
        assert(a1.devices[a1.devices.len() - 1] == d);
    }
}

/// Law (connection state machine): on a device that is not connectable,
/// `connect` is never allowed to succeed; on a connectable, disconnected
/// device it succeeds and leaves the device connected, after which a second
/// `connect` is again not allowed and fails.
pub proof fn lemma_connect_state_machine(d: DeviceView)
    ensures
        !d.is_connectable ==> !connect_allowed(d),
        connect_allowed(d) ==> (DeviceView { is_connected: true, ..d }).is_connected,
        connect_allowed(d) ==> !connect_allowed((DeviceView { is_connected: true, ..d })),
{
}

/// Law (disconnection): after a successful `disconnect` the device reads as
/// disconnected; that `disconnect` on a disconnected device fails with
/// `NotConnected` is part of `disconnect`'s own contract.
pub proof fn lemma_disconnect_state_machine(d: DeviceView)
    ensures
        d.is_connected ==> !(DeviceView { is_connected: false, ..d }).is_connected,
{
}

/// Law: setters of two distinct attributes of the same device are
/// independent.  Applied in either order they produce the same state, and
/// each attribute ends exactly as written; shown here for the name and the
/// alias, whose setters' contracts are the record updates below.
pub proof fn lemma_device_setters_independent(d: DeviceView, n: Seq<char>, a: Seq<char>)
    ensures
        (DeviceView { alias: a, ..(DeviceView { name: n, ..d }) }) == (DeviceView {
            name: n,
            ..(DeviceView { alias: a, ..d })
        }),
        (DeviceView { alias: a, ..(DeviceView { name: n, ..d }) }).name == n,
        (DeviceView { alias: a, ..(DeviceView { name: n, ..d }) }).alias == a,
{
}

} // verus!
