use vstd::prelude::*;

verus! {

/// The failure modes of the fake stack.
///
/// Every operation that can fail reports one of these values; none of them is
/// fatal to the caller.
#[derive(Clone, Copy, Debug, PartialEq, Eq)]
pub enum FakeBluetoothError {
    /// An attribute's lock could not be acquired.  Kept for interface
    /// compatibility with backends that share attributes between threads: in
    /// this crate every attribute is exclusively owned, so reads always
    /// succeed and no operation produces this value.
    LockFailure,
    /// A lookup by identifier, or for a first element, found nothing.
    NotFound,
    /// A modalias string does not follow the `source:vVVVVpPPPPdDDDD` shape.
    MalformedModalias,
    /// `connect` was called on a device that is not connectable or is already
    /// connected.
    ConnectFailed,
    /// `disconnect` was called on a device that is not connected.
    NotConnected,
    /// Profile-level connect and disconnect are not supported by this fake.
    Unimplemented,
}

impl FakeBluetoothError {
    /// A human-readable description of the failure.
    pub fn message(&self) -> (r: &'static str)
        ensures
            *self is LockFailure ==> r@ == "Could not get the value."@,
            *self is NotFound ==> r@ == "No matching entity found."@,
            *self is MalformedModalias ==> r@ == "The modalias string is malformed."@,
            *self is ConnectFailed ==> r@ == "Could not connect to the device."@,
            *self is NotConnected ==> r@ == "The device is not connected."@,
            *self is Unimplemented ==> r@ == "Profile operations are not supported."@,
    {
        match self {
            FakeBluetoothError::LockFailure => "Could not get the value.",
            FakeBluetoothError::NotFound => "No matching entity found.",
            FakeBluetoothError::MalformedModalias => "The modalias string is malformed.",
            FakeBluetoothError::ConnectFailed => "Could not connect to the device.",
            FakeBluetoothError::NotConnected => "The device is not connected.",
            FakeBluetoothError::Unimplemented => "Profile operations are not supported.",
        }
    }
}

} // verus!
