use vstd::prelude::*;

use crate::errors::FakeBluetoothError;
use crate::fake_device::DeviceView;
use crate::fake_device::FakeBluetoothDevice;
use crate::modalias::decode_modalias;
use crate::modalias::modalias_device_id;
use crate::modalias::modalias_product_id;
use crate::modalias::modalias_source;
use crate::modalias::modalias_vendor_id;
use crate::modalias::modalias_well_formed;

verus! {

/// Mathematical model of an adapter: every attribute as a plain value, with
/// `devices` modelling the owned child registry in insertion order.
#[verifier::ext_equal]
pub ghost struct AdapterView {
    pub id: Seq<char>,
    pub is_present: bool,
    pub is_powered: bool,
    pub can_start_discovery: bool,
    pub can_stop_discovery: bool,
    pub devices: Seq<DeviceView>,
    pub ad_datas: Seq<Seq<char>>,
    pub address: Seq<char>,
    pub name: Seq<char>,
    pub alias: Seq<char>,
    pub class: u32,
    pub is_discoverable: bool,
    pub is_pairable: bool,
    pub pairable_timeout: u32,
    pub discoverable_timeout: u32,
    pub is_discovering: bool,
    pub uuids: Seq<Seq<char>>,
    pub modalias: Seq<char>,
}

/// The state of an adapter as `new_empty` builds it: present, powered off,
/// with every other attribute default-valued.
pub open spec fn fresh_adapter_view() -> AdapterView {
    AdapterView {
        id: Seq::empty(),
        is_present: true,
        is_powered: false,
        can_start_discovery: false,
        can_stop_discovery: false,
        devices: Seq::empty(),
        ad_datas: Seq::empty(),
        address: Seq::empty(),
        name: Seq::empty(),
        alias: Seq::empty(),
        class: 0,
        is_discoverable: false,
        is_pairable: false,
        pairable_timeout: 0,
        discoverable_timeout: 0,
        is_discovering: false,
        uuids: Seq::empty(),
        modalias: Seq::empty(),
    }
}

/// Whether some device in `devs` carries the identifier `id`.
pub open spec fn has_device_with_id(devs: Seq<DeviceView>, id: Seq<char>) -> bool {
    exists|i: int| 0 <= i < devs.len() && devs[i].id == id
}

/// The names of the devices in `devs`, in registry order.
pub open spec fn device_names(devs: Seq<DeviceView>) -> Seq<Seq<char>> {
    devs.map_values(|d: DeviceView| d.name)
}

/// The local Bluetooth controller abstraction: the root of the ownership
/// tree, owning an ordered registry of devices and the adapter-wide state.
#[derive(Debug)]
pub struct FakeBluetoothAdapter {
    id: String,
    is_present: bool,
    is_powered: bool,
    can_start_discovery: bool,
    can_stop_discovery: bool,
    devices: Vec<FakeBluetoothDevice>,
    ad_datas: Vec<String>,
    address: String,
    name: String,
    alias: String,
    class: u32,
    is_discoverable: bool,
    is_pairable: bool,
    pairable_timeout: u32,
    discoverable_timeout: u32,
    is_discovering: bool,
    uuids: Vec<String>,
    modalias: String,
}

impl View for FakeBluetoothAdapter {
    type V = AdapterView;

    closed spec fn view(&self) -> AdapterView {
        AdapterView {
            id: self.id@,
            is_present: self.is_present,
            is_powered: self.is_powered,
            can_start_discovery: self.can_start_discovery,
            can_stop_discovery: self.can_stop_discovery,
            devices: self.devices.deep_view(),
            ad_datas: self.ad_datas.deep_view(),
            address: self.address@,
            name: self.name@,
            alias: self.alias@,
            class: self.class,
            is_discoverable: self.is_discoverable,
            is_pairable: self.is_pairable,
            pairable_timeout: self.pairable_timeout,
            discoverable_timeout: self.discoverable_timeout,
            is_discovering: self.is_discovering,
            uuids: self.uuids.deep_view(),
            modalias: self.modalias@,
        }
    }
}

impl DeepView for FakeBluetoothAdapter {
    type V = AdapterView;

    open spec fn deep_view(&self) -> AdapterView {
        self.view()
    }
}

impl Clone for FakeBluetoothAdapter {
    fn clone(&self) -> (r: Self)
        ensures
            r@ == self@,
    {
        let r = FakeBluetoothAdapter {
            id: self.id.clone(),
            is_present: self.is_present,
            is_powered: self.is_powered,
            can_start_discovery: self.can_start_discovery,
            can_stop_discovery: self.can_stop_discovery,
            devices: self.devices.clone(),
            ad_datas: self.ad_datas.clone(),
            address: self.address.clone(),
            name: self.name.clone(),
            alias: self.alias.clone(),
            class: self.class,
            is_discoverable: self.is_discoverable,
            is_pairable: self.is_pairable,
            pairable_timeout: self.pairable_timeout,
            discoverable_timeout: self.discoverable_timeout,
            is_discovering: self.is_discovering,
            uuids: self.uuids.clone(),
            modalias: self.modalias.clone(),
        };
        proof {
            assert(r.devices.deep_view() =~= self.devices.deep_view());
            assert(r.ad_datas.deep_view() =~= self.ad_datas.deep_view());
            assert(r.uuids.deep_view() =~= self.uuids.deep_view());
            assert(r@ =~= self@);
        }
        r
    }
}

impl FakeBluetoothAdapter {
    /// Builds an adapter from every attribute, registering the given devices
    /// as its child registry in the given order.
    pub fn new(
        id: String,
        is_present: bool,
        is_powered: bool,
        can_start_discovery: bool,
        can_stop_discovery: bool,
        devices: Vec<FakeBluetoothDevice>,
        ad_datas: Vec<String>,
        address: String,
        name: String,
        alias: String,
        class: u32,
        is_discoverable: bool,
        is_pairable: bool,
        pairable_timeout: u32,
        discoverable_timeout: u32,
        is_discovering: bool,
        uuids: Vec<String>,
        modalias: String,
    ) -> (r: FakeBluetoothAdapter)
        ensures
            r@ == (AdapterView {
                id: id@,
                is_present: is_present,
                is_powered: is_powered,
                can_start_discovery: can_start_discovery,
                can_stop_discovery: can_stop_discovery,
                devices: devices.deep_view(),
                ad_datas: ad_datas.deep_view(),
                address: address@,
                name: name@,
                alias: alias@,
                class: class,
                is_discoverable: is_discoverable,
                is_pairable: is_pairable,
                pairable_timeout: pairable_timeout,
                discoverable_timeout: discoverable_timeout,
                is_discovering: is_discovering,
                uuids: uuids.deep_view(),
                modalias: modalias@,
            }),
    {
        FakeBluetoothAdapter {
            id,
            is_present,
            is_powered,
            can_start_discovery,
            can_stop_discovery,
            devices,
            ad_datas,
            address,
            name,
            alias,
            class,
            is_discoverable,
            is_pairable,
            pairable_timeout,
            discoverable_timeout,
            is_discovering,
            uuids,
            modalias,
        }
    }

    /// A fully default-valued adapter: present, powered off, with no
    /// devices.
    pub fn new_empty() -> (r: FakeBluetoothAdapter)
        ensures
            r@ == fresh_adapter_view(),
    {
        let r = FakeBluetoothAdapter::new(
            String::new(),
            true,
            false,
            false,
            false,
            Vec::new(),
            Vec::new(),
            String::new(),
            String::new(),
            String::new(),
            0,
            false,
            false,
            0,
            0,
            false,
            Vec::new(),
            String::new(),
        );
        proof {
            assert(r@ =~= fresh_adapter_view());
        }
        r
    }

    /// The adapter's identifier.  Identifier access never fails.
    pub fn get_id(&self) -> (r: String)
        ensures
            r@ == self@.id,
    {
        self.id.clone()
    }

    /// Overwrites the adapter's identifier; every other attribute is kept.
    pub fn set_id(&mut self, value: String)
        ensures
            final(self)@ == (AdapterView { id: value@, ..old(self)@ }),
    {
        self.id = value;
    }

    /// Whether the adapter is present.  Reads always succeed: every
    /// attribute is exclusively owned, so there is no lock to fail.
    pub fn is_present(&self) -> (r: Result<bool, FakeBluetoothError>)
        ensures
            r matches Ok(v) && v == self@.is_present,
    {
        Ok(self.is_present)
    }

    /// Overwrites the present flag; every other attribute is kept.
    pub fn set_present(&mut self, value: bool) -> (r: Result<(), FakeBluetoothError>)
        ensures
            r is Ok,
            final(self)@ == (AdapterView { is_present: value, ..old(self)@ }),
    {
        self.is_present = value;
        Ok(())
    }

    /// Whether the adapter is powered on.
    pub fn is_powered(&self) -> (r: Result<bool, FakeBluetoothError>)
        ensures
            r matches Ok(v) && v == self@.is_powered,
    {
        Ok(self.is_powered)
    }

    /// Overwrites the powered flag; every other attribute is kept.
    pub fn set_powered(&mut self, value: bool) -> (r: Result<(), FakeBluetoothError>)
        ensures
            r is Ok,
            final(self)@ == (AdapterView { is_powered: value, ..old(self)@ }),
    {
        self.is_powered = value;
        Ok(())
    }

    /// Whether the adapter may start discovery.
    pub fn get_can_start_discovery(&self) -> (r: Result<bool, FakeBluetoothError>)
        ensures
            r matches Ok(v) && v == self@.can_start_discovery,
    {
        Ok(self.can_start_discovery)
    }

    /// Overwrites the start-discovery capability; every other attribute is
    /// kept.
    pub fn set_can_start_discovery(&mut self, value: bool) -> (r: Result<(), FakeBluetoothError>)
        ensures
            r is Ok,
            final(self)@ == (AdapterView { can_start_discovery: value, ..old(self)@ }),
    {
        self.can_start_discovery = value;
        Ok(())
    }

    /// Whether the adapter may stop discovery.
    pub fn get_can_stop_siscovery(&self) -> (r: Result<bool, FakeBluetoothError>)
        ensures
            r matches Ok(v) && v == self@.can_stop_discovery,
    {
        Ok(self.can_stop_discovery)
    }

    /// Overwrites the stop-discovery capability; every other attribute is
    /// kept.
    pub fn set_can_stop_discovery(&mut self, value: bool) -> (r: Result<(), FakeBluetoothError>)
        ensures
            r is Ok,
            final(self)@ == (AdapterView { can_stop_discovery: value, ..old(self)@ }),
    {
        self.can_stop_discovery = value;
        Ok(())
    }

    /// A snapshot of the device registry: later mutations of the adapter are
    /// not visible through the returned list.
    pub fn get_devices(&self) -> (r: Result<Vec<FakeBluetoothDevice>, FakeBluetoothError>)
        ensures
            r matches Ok(v) && v.deep_view() == self@.devices,
    {
        let v = self.devices.clone();
        proof {
            assert(v.deep_view() =~= self@.devices);
        }
        Ok(v)
    }

    /// Looks a device up by identifier: a linear scan of the registry in
    /// insertion order, returning the first device whose identifier equals
    /// `id`, or `NotFound` when no device matches.  With duplicate
    /// identifiers the first-registered device wins.
    pub fn get_device(&self, id: String) -> (r: Result<FakeBluetoothDevice, FakeBluetoothError>)
        ensures
            has_device_with_id(self@.devices, id@) ==> (r matches Ok(d) && exists|i: int|
                #![auto]
                0 <= i < self@.devices.len() && self@.devices[i].id == id@ && d@
                    == self@.devices[i] && (forall|j: int| 0 <= j < i ==> self@.devices[j].id
                    != id@)),
            !has_device_with_id(self@.devices, id@) ==> r == Err::<
                FakeBluetoothDevice,
                FakeBluetoothError,
            >(FakeBluetoothError::NotFound),
    {
        let mut idx: usize = 0;
        while idx < self.devices.len()
            invariant
                idx <= self.devices.len(),
                forall|j: int| 0 <= j < idx ==> self@.devices[j].id != id@,
            decreases self.devices.len() - idx,
        {
            let device_id = self.devices[idx].get_id();
            if device_id == id {
                let d = self.devices[idx].clone();
                proof {
                    assert(self@.devices[idx as int].id == id@);
                }
                return Ok(d);
            }
            idx += 1;
        }
        proof {
            assert(!has_device_with_id(self@.devices, id@));
        }
        Err(FakeBluetoothError::NotFound)
    }

    /// The names of all registered devices, in registry order.
    pub fn get_device_list(&self) -> (r: Result<Vec<String>, FakeBluetoothError>)
        ensures
            r matches Ok(v) && v.deep_view() == device_names(self@.devices),
    {
        let mut names: Vec<String> = Vec::new();
        let mut idx: usize = 0;
        while idx < self.devices.len()
            invariant
                idx <= self.devices.len(),
                names@.len() == idx,
                forall|j: int| 0 <= j < idx ==> names@[j]@ == self@.devices[j].name,
            decreases self.devices.len() - idx,
        {
            let name = match self.devices[idx].get_name() {
                Ok(n) => n,
                Err(e) => {
                    return Err(e);
                },
            };
            names.push(name);
            idx += 1;
        }
        proof {
            assert(names.deep_view() =~= device_names(self@.devices));
        }
        Ok(names)
    }

    /// Replaces the whole device registry; every other attribute is kept.
    pub fn set_devices(&mut self, value: Vec<FakeBluetoothDevice>) -> (r: Result<
        (),
        FakeBluetoothError,
    >)
        ensures
            r is Ok,
            final(self)@ == (AdapterView { devices: value.deep_view(), ..old(self)@ }),
    {
        self.devices = value;
        Ok(())
    }

    /// The first-registered device; `NotFound` when the registry is empty.
    /// Selection is by position, not by identifier.
    pub fn get_first_device(&self) -> (r: Result<FakeBluetoothDevice, FakeBluetoothError>)
        ensures
            self@.devices.len() == 0 ==> r == Err::<FakeBluetoothDevice, FakeBluetoothError>(
                FakeBluetoothError::NotFound,
            ),
            self@.devices.len() > 0 ==> (r matches Ok(d) && d@ == self@.devices[0]),
    {
        if self.devices.len() == 0 {
            return Err(FakeBluetoothError::NotFound);
        }
        Ok(self.devices[0].clone())
    }

    /// Appends a device to the registry.  Duplicate identifiers are never
    /// rejected; `get_device` resolves them to the first match.
    pub fn add_device(&mut self, device: FakeBluetoothDevice) -> (r: Result<
        (),
        FakeBluetoothError,
    >)
        ensures
            r is Ok,
            final(self)@ == (AdapterView {
                devices: old(self)@.devices.push(device@),
                ..old(self)@
            }),
    {
        let ghost pre = self@;
        self.devices.push(device);
        proof {
            assert(self.devices.deep_view() =~= pre.devices.push(device@));
            assert(self@ =~= (AdapterView { devices: pre.devices.push(device@), ..pre }));
        }
        Ok(())
    }

    /// The adapter's advertising data entries.
    pub fn get_ad_datas(&self) -> (r: Result<Vec<String>, FakeBluetoothError>)
        ensures
            r matches Ok(v) && v.deep_view() == self@.ad_datas,
    {
        let v = self.ad_datas.clone();
        proof {
            assert(v.deep_view() =~= self@.ad_datas);
        }
        Ok(v)
    }

    /// Replaces the advertising data entries; every other attribute is kept.
    pub fn set_ad_datas(&mut self, value: Vec<String>) -> (r: Result<(), FakeBluetoothError>)
        ensures
            r is Ok,
            final(self)@ == (AdapterView { ad_datas: value.deep_view(), ..old(self)@ }),
    {
        self.ad_datas = value;
        Ok(())
    }

    /// The first advertising data entry; `NotFound` when there is none.
    pub fn get_first_ad_data(&self) -> (r: Result<String, FakeBluetoothError>)
        ensures
            self@.ad_datas.len() == 0 ==> r == Err::<String, FakeBluetoothError>(
                FakeBluetoothError::NotFound,
            ),
            self@.ad_datas.len() > 0 ==> (r matches Ok(v) && v@ == self@.ad_datas[0]),
    {
        if self.ad_datas.len() == 0 {
            return Err(FakeBluetoothError::NotFound);
        }
        Ok(self.ad_datas[0].clone())
    }

    /// The adapter's hardware address.
    pub fn get_address(&self) -> (r: Result<String, FakeBluetoothError>)
        ensures
            r matches Ok(v) && v@ == self@.address,
    {
        Ok(self.address.clone())
    }

    /// Overwrites the adapter's hardware address; every other attribute is
    /// kept.
    pub fn set_address(&mut self, value: String) -> (r: Result<(), FakeBluetoothError>)
        ensures
            r is Ok,
            final(self)@ == (AdapterView { address: value@, ..old(self)@ }),
    {
        self.address = value;
        Ok(())
    }

    /// The adapter's name.
    pub fn get_name(&self) -> (r: Result<String, FakeBluetoothError>)
        ensures
            r matches Ok(v) && v@ == self@.name,
    {
        Ok(self.name.clone())
    }

    /// Overwrites the adapter's name; every other attribute is kept.
    pub fn set_name(&mut self, value: String) -> (r: Result<(), FakeBluetoothError>)
        ensures
            r is Ok,
            final(self)@ == (AdapterView { name: value@, ..old(self)@ }),
    {
        self.name = value;
        Ok(())
    }

    /// The adapter's alias.
    pub fn get_alias(&self) -> (r: Result<String, FakeBluetoothError>)
        ensures
            r matches Ok(v) && v@ == self@.alias,
    {
        Ok(self.alias.clone())
    }

    /// Overwrites the adapter's alias; every other attribute is kept.
    pub fn set_alias(&mut self, value: String) -> (r: Result<(), FakeBluetoothError>)
        ensures
            r is Ok,
            final(self)@ == (AdapterView { alias: value@, ..old(self)@ }),
    {
        self.alias = value;
        Ok(())
    }

    /// The adapter's class value.
    pub fn get_class(&self) -> (r: Result<u32, FakeBluetoothError>)
        ensures
            r matches Ok(v) && v == self@.class,
    {
        Ok(self.class)
    }

    /// Overwrites the adapter's class value; every other attribute is kept.
    pub fn set_class(&mut self, value: u32) -> (r: Result<(), FakeBluetoothError>)
        ensures
            r is Ok,
            final(self)@ == (AdapterView { class: value, ..old(self)@ }),
    {
        self.class = value;
        Ok(())
    }

    /// Whether the adapter is discoverable.
    pub fn is_discoverable(&self) -> (r: Result<bool, FakeBluetoothError>)
        ensures
            r matches Ok(v) && v == self@.is_discoverable,
    {
        Ok(self.is_discoverable)
    }

    /// Overwrites the discoverable flag; every other attribute is kept.
    pub fn set_discoverable(&mut self, value: bool) -> (r: Result<(), FakeBluetoothError>)
        ensures
            r is Ok,
            final(self)@ == (AdapterView { is_discoverable: value, ..old(self)@ }),
    {
        self.is_discoverable = value;
        Ok(())
    }

    /// Whether the adapter is pairable.
    pub fn is_pairable(&self) -> (r: Result<bool, FakeBluetoothError>)
        ensures
            r matches Ok(v) && v == self@.is_pairable,
    {
        Ok(self.is_pairable)
    }

    /// Overwrites the pairable flag; every other attribute is kept.
    pub fn set_pairable(&mut self, value: bool) -> (r: Result<(), FakeBluetoothError>)
        ensures
            r is Ok,
            final(self)@ == (AdapterView { is_pairable: value, ..old(self)@ }),
    {
        self.is_pairable = value;
        Ok(())
    }

    /// The pairable timeout, in seconds.
    pub fn get_pairable_timeout(&self) -> (r: Result<u32, FakeBluetoothError>)
        ensures
            r matches Ok(v) && v == self@.pairable_timeout,
    {
        Ok(self.pairable_timeout)
    }

    /// Overwrites the pairable timeout; every other attribute is kept.
    pub fn set_pairable_timeout(&mut self, value: u32) -> (r: Result<(), FakeBluetoothError>)
        ensures
            r is Ok,
            final(self)@ == (AdapterView { pairable_timeout: value, ..old(self)@ }),
    {
        self.pairable_timeout = value;
        Ok(())
    }

    /// The discoverable timeout, in seconds.
    pub fn get_discoverable_timeout(&self) -> (r: Result<u32, FakeBluetoothError>)
        ensures
            r matches Ok(v) && v == self@.discoverable_timeout,
    {
        Ok(self.discoverable_timeout)
    }

    /// Overwrites the discoverable timeout; every other attribute is kept.
    pub fn set_discoverable_timeout(&mut self, value: u32) -> (r: Result<(), FakeBluetoothError>)
        ensures
            r is Ok,
            final(self)@ == (AdapterView { discoverable_timeout: value, ..old(self)@ }),
    {
        self.discoverable_timeout = value;
        Ok(())
    }

    /// Whether the adapter is currently discovering.
    pub fn is_discovering(&self) -> (r: Result<bool, FakeBluetoothError>)
        ensures
            r matches Ok(v) && v == self@.is_discovering,
    {
        Ok(self.is_discovering)
    }

    /// Overwrites the discovering flag; every other attribute is kept.
    pub fn set_discovering(&mut self, value: bool) -> (r: Result<(), FakeBluetoothError>)
        ensures
            r is Ok,
            final(self)@ == (AdapterView { is_discovering: value, ..old(self)@ }),
    {
        self.is_discovering = value;
        Ok(())
    }

    /// The adapter's advertised UUIDs.
    pub fn get_uuids(&self) -> (r: Result<Vec<String>, FakeBluetoothError>)
        ensures
            r matches Ok(v) && v.deep_view() == self@.uuids,
    {
        let v = self.uuids.clone();
        proof {
            assert(v.deep_view() =~= self@.uuids);
        }
        Ok(v)
    }

    /// Overwrites the adapter's advertised UUIDs; every other attribute is
    /// kept.
    pub fn set_uuids(&mut self, value: Vec<String>) -> (r: Result<(), FakeBluetoothError>)
        ensures
            r is Ok,
            final(self)@ == (AdapterView { uuids: value.deep_view(), ..old(self)@ }),
    {
        self.uuids = value;
        Ok(())
    }

    /// Decodes the stored modalias string into its source identifier and the
    /// vendor, product and device identifiers.  The decode is re-run on
    /// every call, so a `set_modalias` is reflected immediately.
    pub fn get_modalias(&self) -> (r: Result<(String, u32, u32, u32), FakeBluetoothError>)
        ensures
            modalias_well_formed(self@.modalias) ==> (r matches Ok(t) && t.0@ == modalias_source(
                self@.modalias,
            ) && t.1 == modalias_vendor_id(self@.modalias) && t.2 == modalias_product_id(
                self@.modalias,
            ) && t.3 == modalias_device_id(self@.modalias)),
            !modalias_well_formed(self@.modalias) ==> r == Err::<
                (String, u32, u32, u32),
                FakeBluetoothError,
            >(FakeBluetoothError::MalformedModalias),
    {
        decode_modalias(self.modalias.as_str())
    }

    /// Overwrites the stored modalias string; no validation is performed
    /// here, the decode happens on read.
    pub fn set_modalias(&mut self, value: String) -> (r: Result<(), FakeBluetoothError>)
        ensures
            r is Ok,
            final(self)@ == (AdapterView { modalias: value@, ..old(self)@ }),
    {
        self.modalias = value;
        Ok(())
    }

    /// The source part of the modalias, re-running the full decode.
    pub fn get_vendor_id_source(&self) -> (r: Result<String, FakeBluetoothError>)
        ensures
            modalias_well_formed(self@.modalias) ==> (r matches Ok(v) && v@ == modalias_source(
                self@.modalias,
            )),
            !modalias_well_formed(self@.modalias) ==> r == Err::<String, FakeBluetoothError>(
                FakeBluetoothError::MalformedModalias,
            ),
    {
        match self.get_modalias() {
            Ok(t) => Ok(t.0),
            Err(e) => Err(e),
        }
    }

    /// The vendor identifier of the modalias, re-running the full decode.
    pub fn get_vendor_id(&self) -> (r: Result<u32, FakeBluetoothError>)
        ensures
            modalias_well_formed(self@.modalias) ==> (r matches Ok(v) && v == modalias_vendor_id(
                self@.modalias,
            )),
            !modalias_well_formed(self@.modalias) ==> r == Err::<u32, FakeBluetoothError>(
                FakeBluetoothError::MalformedModalias,
            ),
    {
        match self.get_modalias() {
            Ok(t) => Ok(t.1),
            Err(e) => Err(e),
        }
    }

    /// The product identifier of the modalias, re-running the full decode.
    pub fn get_product_id(&self) -> (r: Result<u32, FakeBluetoothError>)
        ensures
            modalias_well_formed(self@.modalias) ==> (r matches Ok(v) && v == modalias_product_id(
                self@.modalias,
            )),
            !modalias_well_formed(self@.modalias) ==> r == Err::<u32, FakeBluetoothError>(
                FakeBluetoothError::MalformedModalias,
            ),
    {
        match self.get_modalias() {
            Ok(t) => Ok(t.2),
            Err(e) => Err(e),
        }
    }

    /// The device identifier of the modalias, re-running the full decode.
    pub fn get_device_id(&self) -> (r: Result<u32, FakeBluetoothError>)
        ensures
            modalias_well_formed(self@.modalias) ==> (r matches Ok(v) && v == modalias_device_id(
                self@.modalias,
            )),
            !modalias_well_formed(self@.modalias) ==> r == Err::<u32, FakeBluetoothError>(
                FakeBluetoothError::MalformedModalias,
            ),
    {
        match self.get_modalias() {
            Ok(t) => Ok(t.3),
            Err(e) => Err(e),
        }
    }
}

/// Law (first match wins): when two devices at positions `k1 < k2` of the
/// registry share the looked-up identifier, the position a successful
/// `get_device` resolves to lies at or before the first of them, never at
/// the second.  The first four `requires` clauses are exactly what
/// `get_device` ensures of a successful lookup.
pub proof fn lemma_get_device_first_match(
    devs: Seq<DeviceView>,
    id: Seq<char>,
    d: DeviceView,
    i: int,
    k1: int,
    k2: int,
)
    requires
        0 <= i < devs.len(),
        devs[i].id == id,
        d == devs[i],
        forall|j: int| 0 <= j < i ==> devs[j].id != id,
        0 <= k1 < k2 < devs.len(),
        devs[k1].id == id,
        devs[k2].id == id,
    ensures
        i <= k1,
        i < k2,
{
}

} // verus!
