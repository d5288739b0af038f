use vstd::prelude::*;

use crate::errors::FakeBluetoothError;
use crate::fake_descriptor::DescriptorView;
use crate::fake_descriptor::FakeBluetoothGATTDescriptor;
use crate::fake_service::FakeBluetoothGATTService;
use crate::fake_service::ServiceView;

verus! {

/// Mathematical model of a GATT characteristic.  The `service` field is the
/// identifier of the owning service at registration time (a non-owning
/// back-reference); `gatt_descriptors` models the owned child registry in
/// insertion order.
#[verifier::ext_equal]
pub ghost struct CharacteristicView {
    pub id: Seq<char>,
    pub uuid: Seq<char>,
    pub service: Seq<char>,
    pub value: Seq<u8>,
    pub is_notifying: bool,
    pub flags: Seq<Seq<char>>,
    pub gatt_descriptors: Seq<DescriptorView>,
}

/// The state of a characteristic as the constructors build it: every
/// attribute default-valued except the identifier and the back-reference.
pub open spec fn fresh_characteristic_view(id: Seq<char>, service: Seq<char>) -> CharacteristicView {
    CharacteristicView {
        id: id,
        uuid: Seq::empty(),
        service: service,
        value: Seq::empty(),
        is_notifying: false,
        flags: Seq::empty(),
        gatt_descriptors: Seq::empty(),
    }
}

/// A GATT characteristic: a single readable, writable and notifiable value
/// within a service, owning an ordered registry of descriptors.
#[derive(Debug)]
pub struct FakeBluetoothGATTCharacteristic {
    id: String,
    uuid: String,
    service: String,
    value: Vec<u8>,
    is_notifying: bool,
    flags: Vec<String>,
    gatt_descriptors: Vec<FakeBluetoothGATTDescriptor>,
}

impl View for FakeBluetoothGATTCharacteristic {
    type V = CharacteristicView;

    closed spec fn view(&self) -> CharacteristicView {
        CharacteristicView {
            id: self.id@,
            uuid: self.uuid@,
            service: self.service@,
            value: self.value@,
            is_notifying: self.is_notifying,
            flags: self.flags.deep_view(),
            gatt_descriptors: self.gatt_descriptors.deep_view(),
        }
    }
}

impl DeepView for FakeBluetoothGATTCharacteristic {
    type V = CharacteristicView;

    open spec fn deep_view(&self) -> CharacteristicView {
        self.view()
    }
}

impl Clone for FakeBluetoothGATTCharacteristic {
    fn clone(&self) -> (r: Self)
        ensures
            r@ == self@,
    {
        let r = FakeBluetoothGATTCharacteristic {
            id: self.id.clone(),
            uuid: self.uuid.clone(),
            service: self.service.clone(),
            value: self.value.clone(),
            is_notifying: self.is_notifying,
            flags: self.flags.clone(),
            gatt_descriptors: self.gatt_descriptors.clone(),
        };
        proof {
            assert(r.value@ =~= self.value@);
            assert(r.flags.deep_view() =~= self.flags.deep_view());
            assert(r.gatt_descriptors.deep_view() =~= self.gatt_descriptors.deep_view());
            assert(r@ =~= self@);
        }
        r
    }
}

impl FakeBluetoothGATTCharacteristic {
    /// Builds a default-valued characteristic with the given identifier,
    /// registers it at the end of `service`'s characteristic registry, and
    /// returns it.  The back-reference recorded on the characteristic is the
    /// service's identifier at this moment; the parent link is fixed here and
    /// never reassigned.
    pub fn new(id: String, service: &mut FakeBluetoothGATTService) -> (r:
        FakeBluetoothGATTCharacteristic)
        ensures
            r@ == fresh_characteristic_view(id@, old(service)@.id),
            final(service)@ == (ServiceView {
                gatt_characteristics: old(service)@.gatt_characteristics.push(r@),
                ..old(service)@
            }),
    {
        let characteristic = FakeBluetoothGATTCharacteristic {
            id: id,
            uuid: String::new(),
            service: service.get_id(),
            value: Vec::new(),
            is_notifying: false,
            flags: Vec::new(),
            gatt_descriptors: Vec::new(),
        };
        proof {
            assert(characteristic@ =~= fresh_characteristic_view(
                characteristic.id@,
                old(service)@.id,
            ));
        }
        let _ = service.add_characteristic(characteristic.clone());
        characteristic
    }

    /// A fully default-valued, parent-less characteristic, used as a
    /// placeholder.
    pub fn new_empty() -> (r: FakeBluetoothGATTCharacteristic)
        ensures
            r@ == fresh_characteristic_view(Seq::<char>::empty(), Seq::<char>::empty()),
    {
        let r = FakeBluetoothGATTCharacteristic {
            id: String::new(),
            uuid: String::new(),
            service: String::new(),
            value: Vec::new(),
            is_notifying: false,
            flags: Vec::new(),
            gatt_descriptors: Vec::new(),
        };
        proof {
            assert(r@ =~= fresh_characteristic_view(Seq::<char>::empty(), Seq::<char>::empty()));
        }
        r
    }

    /// The characteristic's identifier.  Identifier access never fails.
    pub fn get_id(&self) -> (r: String)
        ensures
            r@ == self@.id,
    {
        self.id.clone()
    }

    /// Overwrites the characteristic's identifier; every other attribute is
    /// kept.
    pub fn set_id(&mut self, value: String)
        ensures
            final(self)@ == (CharacteristicView { id: value@, ..old(self)@ }),
    {
        self.id = value;
    }

    /// The characteristic's UUID.
    pub fn get_uuid(&self) -> (r: Result<String, FakeBluetoothError>)
        ensures
            r matches Ok(v) && v@ == self@.uuid,
    {
        Ok(self.uuid.clone())
    }

    /// Overwrites the characteristic's UUID; every other attribute is kept.
    pub fn set_uuid(&mut self, value: String) -> (r: Result<(), FakeBluetoothError>)
        ensures
            r is Ok,
            final(self)@ == (CharacteristicView { uuid: value@, ..old(self)@ }),
    {
        self.uuid = value;
        Ok(())
    }

    /// The identifier of the owning service, recorded at registration.
    pub fn get_service(&self) -> (r: Result<String, FakeBluetoothError>)
        ensures
            r matches Ok(v) && v@ == self@.service,
    {
        Ok(self.service.clone())
    }

    /// Whether notifications are currently enabled.
    pub fn is_notifying(&self) -> (r: Result<bool, FakeBluetoothError>)
        ensures
            r matches Ok(v) && v == self@.is_notifying,
    {
        Ok(self.is_notifying)
    }

    /// Overwrites the notification flag; every other attribute is kept.
    pub fn set_notifying(&mut self, value: bool) -> (r: Result<(), FakeBluetoothError>)
        ensures
            r is Ok,
            final(self)@ == (CharacteristicView { is_notifying: value, ..old(self)@ }),
    {
        self.is_notifying = value;
        Ok(())
    }

    /// Enables the notification flag.  No value-change callbacks are emitted:
    /// a consumer polls `get_value` to observe updates.
    pub fn start_notify(&mut self) -> (r: Result<(), FakeBluetoothError>)
        ensures
            r is Ok,
            final(self)@ == (CharacteristicView { is_notifying: true, ..old(self)@ }),
    {
        self.set_notifying(true)
    }

    /// Disables the notification flag.
    pub fn stop_notify(&mut self) -> (r: Result<(), FakeBluetoothError>)
        ensures
            r is Ok,
            final(self)@ == (CharacteristicView { is_notifying: false, ..old(self)@ }),
    {
        self.set_notifying(false)
    }

    /// The characteristic's capability flags.
    pub fn get_flags(&self) -> (r: Result<Vec<String>, FakeBluetoothError>)
        ensures
            r matches Ok(v) && v.deep_view() == self@.flags,
    {
        let v = self.flags.clone();
        proof {
            assert(v.deep_view() =~= self@.flags);
        }
        Ok(v)
    }

    /// Overwrites the characteristic's capability flags.
    pub fn set_flags(&mut self, value: Vec<String>) -> (r: Result<(), FakeBluetoothError>)
        ensures
            r is Ok,
            final(self)@ == (CharacteristicView { flags: value.deep_view(), ..old(self)@ }),
    {
        self.flags = value;
        Ok(())
    }

    /// A snapshot of the descriptor registry: later mutations of the
    /// characteristic are not visible through the returned list.
    pub fn get_gatt_descriptors(&self) -> (r: Result<
        Vec<FakeBluetoothGATTDescriptor>,
        FakeBluetoothError,
    >)
        ensures
            r matches Ok(v) && v.deep_view() == self@.gatt_descriptors,
    {
        let v = self.gatt_descriptors.clone();
        proof {
            assert(v.deep_view() =~= self@.gatt_descriptors);
        }
        Ok(v)
    }

    /// Replaces the whole descriptor registry; every other attribute is kept.
    pub fn set_gatt_descriptors(&mut self, descriptors: Vec<FakeBluetoothGATTDescriptor>) -> (r:
        Result<(), FakeBluetoothError>)
        ensures
            r is Ok,
            final(self)@ == (CharacteristicView {
                gatt_descriptors: descriptors.deep_view(),
                ..old(self)@
            }),
    {
        self.gatt_descriptors = descriptors;
        Ok(())
    }

    /// Appends a descriptor to the registry.  Duplicate identifiers are never
    /// rejected; lookups elsewhere resolve to the first match.
    pub fn add_descriptor(&mut self, descriptor: FakeBluetoothGATTDescriptor) -> (r: Result<
        (),
        FakeBluetoothError,
    >)
        ensures
            r is Ok,
            final(self)@ == (CharacteristicView {
                gatt_descriptors: old(self)@.gatt_descriptors.push(descriptor@),
                ..old(self)@
            }),
    {
        let ghost pre = self@;
        self.gatt_descriptors.push(descriptor);
        proof {
            assert(self.gatt_descriptors.deep_view() =~= pre.gatt_descriptors.push(descriptor@));
            assert(self@ =~= (CharacteristicView {
                gatt_descriptors: pre.gatt_descriptors.push(descriptor@),
                ..pre
            }));
        }
        Ok(())
    }

    /// The characteristic's stored byte value.
    pub fn get_value(&self) -> (r: Result<Vec<u8>, FakeBluetoothError>)
        ensures
            r matches Ok(v) && v@ == self@.value,
    {
        let v = self.value.clone();
        proof {
            assert(v@ =~= self@.value);
        }
        Ok(v)
    }

    /// Reading a characteristic value is defined as returning the stored
    /// bytes; no over-the-air round trip is simulated.
    pub fn read_value(&self) -> (r: Result<Vec<u8>, FakeBluetoothError>)
        ensures
            r matches Ok(v) && v@ == self@.value,
    {
        self.get_value()
    }

    /// Unconditionally overwrites the stored byte value; no capability check
    /// against `flags` is enforced.
    pub fn write_value(&mut self, new_value: Vec<u8>) -> (r: Result<(), FakeBluetoothError>)
        ensures
            r is Ok,
            final(self)@ == (CharacteristicView { value: new_value@, ..old(self)@ }),
    {
        self.value = new_value;
        Ok(())
    }
}

/// Law: writing a byte value and then reading it back yields exactly the
/// bytes written, for empty and non-empty values alike.  `write_value` leaves
/// the state with `value` equal to its argument, and `read_value` returns the
/// stored `value` unchanged.
pub proof fn lemma_characteristic_write_read_round_trip(c: CharacteristicView, v: Seq<u8>)
    ensures
        (CharacteristicView { value: v, ..c }).value == v,
{
}

/// Law (referential round trip): when a characteristic is registered by
/// `new`, the service afterwards contains that very characteristic in its
/// characteristic list, and the characteristic's back-reference is the
/// service's identifier, so navigating child to parent and back to the
/// children yields a collection containing the original child.  The
/// `requires` clauses are exactly what `new` ensures of its result and of
/// the service.
pub proof fn lemma_characteristic_round_trip(
    s0: ServiceView,
    s1: ServiceView,
    c: CharacteristicView,
    id: Seq<char>,
)
    requires
        c == fresh_characteristic_view(id, s0.id),
        s1 == (ServiceView { gatt_characteristics: s0.gatt_characteristics.push(c), ..s0 }),
    ensures
        exists|i: int| 0 <= i < s1.gatt_characteristics.len() && s1.gatt_characteristics[i] == c,
        c.service == s0.id,
{
    assert(s1.gatt_characteristics[s1.gatt_characteristics.len() - 1] == c);
}

/// Law: setters of two distinct attributes of the same characteristic are
/// independent.  Applied in either order they produce the same state, and
/// each attribute ends exactly as written; shown here for the byte value and
/// the notification flag, whose setters' contracts are the record updates
/// below.
pub proof fn lemma_characteristic_setters_independent(
    c: CharacteristicView,
    v: Seq<u8>,
    n: bool,
)
    ensures
        (CharacteristicView { is_notifying: n, ..(CharacteristicView { value: v, ..c }) })
            == (CharacteristicView { value: v, ..(CharacteristicView { is_notifying: n, ..c }) }),
        (CharacteristicView { is_notifying: n, ..(CharacteristicView { value: v, ..c }) }).value
            == v,
        (CharacteristicView {
            is_notifying: n,
            ..(CharacteristicView { value: v, ..c })
        }).is_notifying == n,
{
}

} // verus!
