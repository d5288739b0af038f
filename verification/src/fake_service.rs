use vstd::prelude::*;

use crate::errors::FakeBluetoothError;
use crate::fake_characteristic::CharacteristicView;
use crate::fake_characteristic::FakeBluetoothGATTCharacteristic;
use crate::fake_device::DeviceView;
use crate::fake_device::FakeBluetoothDevice;

verus! {

/// Mathematical model of a GATT service.  The `device` field is the
/// identifier of the owning device at registration time (a non-owning
/// back-reference); `included_services` holds the identifiers of the
/// referenced services, never the services themselves, so no ownership cycle
/// can form.
#[verifier::ext_equal]
pub ghost struct ServiceView {
    pub id: Seq<char>,
    pub device: Seq<char>,
    pub gatt_characteristics: Seq<CharacteristicView>,
    pub is_primary: bool,
    pub included_services: Seq<Seq<char>>,
    pub uuid: Seq<char>,
}

/// The state of a service as the constructors build it: every attribute
/// default-valued except the identifier and the back-reference.
pub open spec fn fresh_service_view(id: Seq<char>, device: Seq<char>) -> ServiceView {
    ServiceView {
        id: id,
        device: device,
        gatt_characteristics: Seq::empty(),
        is_primary: false,
        included_services: Seq::empty(),
        uuid: Seq::empty(),
    }
}

/// A GATT service: a grouping of related characteristics under a UUID,
/// owning an ordered registry of characteristics and referencing other
/// services by identifier as included services.
#[derive(Debug)]
pub struct FakeBluetoothGATTService {
    id: String,
    device: String,
    gatt_characteristics: Vec<FakeBluetoothGATTCharacteristic>,
    is_primary: bool,
    included_services: Vec<String>,
    uuid: String,
}

impl View for FakeBluetoothGATTService {
    type V = ServiceView;

    closed spec fn view(&self) -> ServiceView {
        ServiceView {
            id: self.id@,
            device: self.device@,
            gatt_characteristics: self.gatt_characteristics.deep_view(),
            is_primary: self.is_primary,
            included_services: self.included_services.deep_view(),
            uuid: self.uuid@,
        }
    }
}

impl DeepView for FakeBluetoothGATTService {
    type V = ServiceView;

    open spec fn deep_view(&self) -> ServiceView {
        self.view()
    }
}

impl Clone for FakeBluetoothGATTService {
    fn clone(&self) -> (r: Self)
        ensures
            r@ == self@,
    {
        let r = FakeBluetoothGATTService {
            id: self.id.clone(),
            device: self.device.clone(),
            gatt_characteristics: self.gatt_characteristics.clone(),
            is_primary: self.is_primary,
            included_services: self.included_services.clone(),
            uuid: self.uuid.clone(),
        };
        proof {
            assert(r.gatt_characteristics.deep_view() =~= self.gatt_characteristics.deep_view());
            assert(r.included_services.deep_view() =~= self.included_services.deep_view());
            assert(r@ =~= self@);
        }
        r
    }
}

impl FakeBluetoothGATTService {
    /// Builds a default-valued service with the given identifier, registers
    /// it at the end of `device`'s service registry, and returns it.  The
    /// back-reference recorded on the service is the device's identifier at
    /// this moment; the parent link is fixed here and never reassigned.
    pub fn new(id: String, device: &mut FakeBluetoothDevice) -> (r: FakeBluetoothGATTService)
        ensures
            r@ == fresh_service_view(id@, old(device)@.id),
            final(device)@ == (DeviceView {
                gatt_services: old(device)@.gatt_services.push(r@),
                ..old(device)@
            }),
    {
        let service = FakeBluetoothGATTService {
            id: id,
            device: device.get_id(),
            gatt_characteristics: Vec::new(),
            is_primary: false,
            included_services: Vec::new(),
            uuid: String::new(),
        };
        proof {
            assert(service@ =~= fresh_service_view(service.id@, old(device)@.id));
        }
        let _ = device.add_service(service.clone());
        service
    }

    /// A fully default-valued, parent-less service, used as a placeholder.
    pub fn new_empty() -> (r: FakeBluetoothGATTService)
        ensures
            r@ == fresh_service_view(Seq::<char>::empty(), Seq::<char>::empty()),
    {
        let r = FakeBluetoothGATTService {
            id: String::new(),
            device: String::new(),
            gatt_characteristics: Vec::new(),
            is_primary: false,
            included_services: Vec::new(),
            uuid: String::new(),
        };
        proof {
            assert(r@ =~= fresh_service_view(Seq::<char>::empty(), Seq::<char>::empty()));
        }
        r
    }

    /// The service's identifier.  Identifier access never fails.
    pub fn get_id(&self) -> (r: String)
        ensures
            r@ == self@.id,
    {
        self.id.clone()
    }

    /// Overwrites the service's identifier; every other attribute is kept.
    pub fn set_id(&mut self, value: String)
        ensures
            final(self)@ == (ServiceView { id: value@, ..old(self)@ }),
    {
        self.id = value;
    }

    /// The identifier of the owning device, recorded at registration.
    pub fn get_device(&self) -> (r: Result<String, FakeBluetoothError>)
        ensures
            r matches Ok(v) && v@ == self@.device,
    {
        Ok(self.device.clone())
    }

    /// A snapshot of the characteristic registry: later mutations of the
    /// service are not visible through the returned list.
    pub fn get_gatt_characteristics(&self) -> (r: Result<
        Vec<FakeBluetoothGATTCharacteristic>,
        FakeBluetoothError,
    >)
        ensures
            r matches Ok(v) && v.deep_view() == self@.gatt_characteristics,
    {
        let v = self.gatt_characteristics.clone();
        proof {
            assert(v.deep_view() =~= self@.gatt_characteristics);
        }
        Ok(v)
    }

    /// Replaces the whole characteristic registry; every other attribute is
    /// kept.
    pub fn set_gatt_characteristics(&mut self, characteristics: Vec<
        FakeBluetoothGATTCharacteristic,
    >) -> (r: Result<(), FakeBluetoothError>)
        ensures
            r is Ok,
            final(self)@ == (ServiceView {
                gatt_characteristics: characteristics.deep_view(),
                ..old(self)@
            }),
    {
        self.gatt_characteristics = characteristics;
        Ok(())
    }

    /// Appends a characteristic to the registry.  Duplicate identifiers are
    /// never rejected; lookups elsewhere resolve to the first match.
    pub fn add_characteristic(&mut self, characteristic: FakeBluetoothGATTCharacteristic) -> (r:
        Result<(), FakeBluetoothError>)
        ensures
            r is Ok,
            final(self)@ == (ServiceView {
                gatt_characteristics: old(self)@.gatt_characteristics.push(characteristic@),
                ..old(self)@
            }),
    {
        let ghost pre = self@;
        self.gatt_characteristics.push(characteristic);
        proof {
            assert(self.gatt_characteristics.deep_view() =~= pre.gatt_characteristics.push(
                characteristic@,
            ));
            assert(self@ =~= (ServiceView {
                gatt_characteristics: pre.gatt_characteristics.push(characteristic@),
                ..pre
            }));
        }
        Ok(())
    }

    /// Whether this is a primary service.
    pub fn is_primary(&self) -> (r: Result<bool, FakeBluetoothError>)
        ensures
            r matches Ok(v) && v == self@.is_primary,
    {
        Ok(self.is_primary)
    }

    /// Overwrites the primary flag; every other attribute is kept.
    pub fn set_is_primary(&mut self, value: bool) -> (r: Result<(), FakeBluetoothError>)
        ensures
            r is Ok,
            final(self)@ == (ServiceView { is_primary: value, ..old(self)@ }),
    {
        self.is_primary = value;
        Ok(())
    }

    /// The identifiers of the included services.
    pub fn get_includes(&self) -> (r: Result<Vec<String>, FakeBluetoothError>)
        ensures
            r matches Ok(v) && v.deep_view() == self@.included_services,
    {
        let v = self.included_services.clone();
        proof {
            assert(v.deep_view() =~= self@.included_services);
        }
        Ok(v)
    }

    /// Replaces the identifiers of the included services; every other
    /// attribute is kept.
    pub fn set_includes(&mut self, value: Vec<String>) -> (r: Result<(), FakeBluetoothError>)
        ensures
            r is Ok,
            final(self)@ == (ServiceView { included_services: value.deep_view(), ..old(self)@ }),
    {
        self.included_services = value;
        Ok(())
    }

    /// The service's UUID.
    pub fn get_uuid(&self) -> (r: Result<String, FakeBluetoothError>)
        ensures
            r matches Ok(v) && v@ == self@.uuid,
    {
        Ok(self.uuid.clone())
    }

    /// Overwrites the service's UUID; every other attribute is kept.
    pub fn set_uuid(&mut self, value: String) -> (r: Result<(), FakeBluetoothError>)
        ensures
            r is Ok,
            final(self)@ == (ServiceView { uuid: value@, ..old(self)@ }),
    {
        self.uuid = value;
        Ok(())
    }
}

/// Law (referential round trip): when a service is registered by `new`, the
/// device afterwards contains that very service in its service list, and
/// the service's back-reference is the device's identifier, so navigating
/// child to parent and back to the children yields a collection containing
/// the original child.  The `requires` clauses are exactly what `new`
/// ensures of its result and of the device.
pub proof fn lemma_service_round_trip(
    d0: DeviceView,
    d1: DeviceView,
    s: ServiceView,
    id: Seq<char>,
)
    requires
        s == fresh_service_view(id, d0.id),
        d1 == (DeviceView { gatt_services: d0.gatt_services.push(s), ..d0 }),
    ensures
        exists|i: int| 0 <= i < d1.gatt_services.len() && d1.gatt_services[i] == s,
        s.device == d0.id,
{
    assert(d1.gatt_services[d1.gatt_services.len() - 1] == s);
}

} // verus!
