//! A deterministic test double for a Bluetooth Low Energy management stack.
//!
//! The crate models the logical state that a real backend would expose:
//! adapters own devices, devices own GATT services, services own
//! characteristics, and characteristics own descriptors.  Every attribute has
//! a getter and a setter with an exact contract, the device connection state
//! machine is specified in full, and the modalias decoder is proved against a
//! mathematical model of the string format.
//!
//! Children are owned by their parent's registry; the back-reference stored on
//! a child is the owning parent's identifier at registration time, never a
//! strong handle, so the ownership tree stays acyclic.

pub mod errors;
pub mod fake_adapter;
pub mod fake_characteristic;
pub mod fake_descriptor;
pub mod fake_device;
pub mod fake_service;
pub mod modalias;
