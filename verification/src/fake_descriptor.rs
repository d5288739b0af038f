use vstd::prelude::*;

use crate::errors::FakeBluetoothError;
use crate::fake_characteristic::CharacteristicView;
use crate::fake_characteristic::FakeBluetoothGATTCharacteristic;

verus! {

/// Mathematical model of a GATT descriptor: every attribute as a plain value.
/// The `characteristic` field is the identifier of the owning characteristic
/// at registration time (a non-owning back-reference).
#[verifier::ext_equal]
pub ghost struct DescriptorView {
    pub id: Seq<char>,
    pub uuid: Seq<char>,
    pub characteristic: Seq<char>,
    pub value: Seq<u8>,
    pub flags: Seq<Seq<char>>,
}

/// The state of a descriptor as the constructors build it: every attribute
/// default-valued except the identifier and the back-reference.
pub open spec fn fresh_descriptor_view(id: Seq<char>, characteristic: Seq<char>) -> DescriptorView {
    DescriptorView {
        id: id,
        uuid: Seq::empty(),
        characteristic: characteristic,
        value: Seq::empty(),
        flags: Seq::empty(),
    }
}

/// A GATT descriptor: metadata attached to a characteristic, holding a byte
/// value and capability flags.
#[derive(Debug)]
pub struct FakeBluetoothGATTDescriptor {
    id: String,
    uuid: String,
    characteristic: String,
    value: Vec<u8>,
    flags: Vec<String>,
}

impl View for FakeBluetoothGATTDescriptor {
    type V = DescriptorView;

    closed spec fn view(&self) -> DescriptorView {
        DescriptorView {
            id: self.id@,
            uuid: self.uuid@,
            characteristic: self.characteristic@,
            value: self.value@,
            flags: self.flags.deep_view(),
        }
    }
}

impl DeepView for FakeBluetoothGATTDescriptor {
    type V = DescriptorView;

    open spec fn deep_view(&self) -> DescriptorView {
        self.view()
    }
}

impl Clone for FakeBluetoothGATTDescriptor {
    fn clone(&self) -> (r: Self)
        ensures
            r@ == self@,
    {
        let r = FakeBluetoothGATTDescriptor {
            id: self.id.clone(),
            uuid: self.uuid.clone(),
            characteristic: self.characteristic.clone(),
            value: self.value.clone(),
            flags: self.flags.clone(),
        };
        proof {
            assert(r.value@ =~= self.value@);
            assert(r.flags.deep_view() =~= self.flags.deep_view());
            assert(r@ =~= self@);
        }
        r
    }
}

impl FakeBluetoothGATTDescriptor {
    /// Builds a default-valued descriptor with the given identifier,
    /// registers it at the end of `characteristic`'s descriptor registry, and
    /// returns it.  The back-reference recorded on the descriptor is the
    /// characteristic's identifier at this moment; the parent link is fixed
    /// here and never reassigned.
    pub fn new(object_path: String, characteristic: &mut FakeBluetoothGATTCharacteristic) -> (r:
        FakeBluetoothGATTDescriptor)
        ensures
            r@ == fresh_descriptor_view(object_path@, old(characteristic)@.id),
            final(characteristic)@ == (CharacteristicView {
                gatt_descriptors: old(characteristic)@.gatt_descriptors.push(r@),
                ..old(characteristic)@
            }),
    {
        let descriptor = FakeBluetoothGATTDescriptor {
            id: object_path,
            uuid: String::new(),
            characteristic: characteristic.get_id(),
            value: Vec::new(),
            flags: Vec::new(),
        };
        proof {
            assert(descriptor@ =~= fresh_descriptor_view(
                descriptor.id@,
                old(characteristic)@.id,
            ));
        }
        let _ = characteristic.add_descriptor(descriptor.clone());
        descriptor
    }

    /// A fully default-valued, parent-less descriptor, used as a placeholder.
    pub fn new_empty() -> (r: FakeBluetoothGATTDescriptor)
        ensures
            r@ == fresh_descriptor_view(Seq::<char>::empty(), Seq::<char>::empty()),
    {
        FakeBluetoothGATTDescriptor {
            id: String::new(),
            uuid: String::new(),
            characteristic: String::new(),
            value: Vec::new(),
            flags: Vec::new(),
        }
    }

    /// The descriptor's identifier.  Identifier access never fails.
    pub fn get_id(&self) -> (r: String)
        ensures
            r@ == self@.id,
    {
        self.id.clone()
    }

    /// Overwrites the descriptor's identifier; every other attribute is kept.
    pub fn set_id(&mut self, value: String)
        ensures
            final(self)@ == (DescriptorView { id: value@, ..old(self)@ }),
    {
        self.id = value;
    }

    /// The descriptor's UUID.  Reads always succeed: every attribute is
    /// exclusively owned, so there is no lock to fail.
    pub fn get_uuid(&self) -> (r: Result<String, FakeBluetoothError>)
        ensures
            r matches Ok(v) && v@ == self@.uuid,
    {
        Ok(self.uuid.clone())
    }

    /// Overwrites the descriptor's UUID; every other attribute is kept.
    pub fn set_uuid(&mut self, value: String) -> (r: Result<(), FakeBluetoothError>)
        ensures
            r is Ok,
            final(self)@ == (DescriptorView { uuid: value@, ..old(self)@ }),
    {
        self.uuid = value;
        Ok(())
    }

    /// The identifier of the owning characteristic, recorded at registration.
    pub fn get_characteristic(&self) -> (r: Result<String, FakeBluetoothError>)
        ensures
            r matches Ok(v) && v@ == self@.characteristic,
    {
        Ok(self.characteristic.clone())
    }

    /// The descriptor's capability flags.
    pub fn get_flags(&self) -> (r: Result<Vec<String>, FakeBluetoothError>)
        ensures
            r matches Ok(v) && v.deep_view() == self@.flags,
    {
        let v = self.flags.clone();
        proof {
            assert(v.deep_view() =~= self@.flags);
        }
        Ok(v)
    }

    /// Overwrites the descriptor's capability flags.
    pub fn set_flags(&mut self, value: Vec<String>) -> (r: Result<(), FakeBluetoothError>)
        ensures
            r is Ok,
            final(self)@ == (DescriptorView { flags: value.deep_view(), ..old(self)@ }),
    {
        self.flags = value;
        Ok(())
    }

    /// The descriptor's stored byte value.
    pub fn get_value(&self) -> (r: Result<Vec<u8>, FakeBluetoothError>)
        ensures
            r matches Ok(v) && v@ == self@.value,
    {
        let v = self.value.clone();
        proof {
            assert(v@ =~= self@.value);
        }
        Ok(v)
    }

    /// Reading a descriptor value is defined as returning the stored bytes;
    /// no over-the-air round trip is simulated.
    pub fn read_value(&self) -> (r: Result<Vec<u8>, FakeBluetoothError>)
        ensures
            r matches Ok(v) && v@ == self@.value,
    {
        self.get_value()
    }

    /// Unconditionally overwrites the stored byte value; no capability check
    /// against `flags` is enforced.
    pub fn write_value(&mut self, new_value: Vec<u8>) -> (r: Result<(), FakeBluetoothError>)
        ensures
            r is Ok,
            final(self)@ == (DescriptorView { value: new_value@, ..old(self)@ }),
    {
        self.value = new_value;
        Ok(())
    }
}

/// Law: writing a byte value and then reading it back yields exactly the
/// bytes written, for empty and non-empty values alike.  `write_value` leaves
/// the state with `value` equal to its argument, and `read_value` returns the
/// stored `value` unchanged.
pub proof fn lemma_descriptor_write_read_round_trip(d: DescriptorView, v: Seq<u8>)
    ensures
        (DescriptorView { value: v, ..d }).value == v,
{
}

/// Law (referential round trip): when a descriptor is registered by `new`,
/// the characteristic afterwards contains that very descriptor in its
/// descriptor list, and the descriptor's back-reference is the
/// characteristic's identifier, so navigating child to parent and back to
/// the children yields a collection containing the original child.  The
/// `requires` clauses are exactly what `new` ensures of its result and of
/// the characteristic.
pub proof fn lemma_descriptor_round_trip(
    c0: CharacteristicView,
    c1: CharacteristicView,
    d: DescriptorView,
    object_path: Seq<char>,
)
    requires
        d == fresh_descriptor_view(object_path, c0.id),
        c1 == (CharacteristicView { gatt_descriptors: c0.gatt_descriptors.push(d), ..c0 }),
    ensures
        exists|i: int| 0 <= i < c1.gatt_descriptors.len() && c1.gatt_descriptors[i] == d,
        d.characteristic == c0.id,
{
    assert(c1.gatt_descriptors[c1.gatt_descriptors.len() - 1] == d);
}

} // verus!
