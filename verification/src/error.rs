use vstd::prelude::*;

verus! {

/// Why a discovery pass was abandoned. Both kinds are fatal to the whole pass.
#[derive(Clone, Copy, Debug, PartialEq, Eq, Structural)]
pub enum DecodeError {
    /// A descriptor carries a bus-type tag outside the recognized set.
    UnsupportedBusKind { tag: i32 },
    /// The enumeration left an entry empty where a descriptor was expected.
    InvalidDeviceHandle,
}

} // verus!
