use vstd::prelude::*;
use crate::bus::{
    BusKind, Host1xDeviceInfo, PciBusInfo, PciDeviceInfo, PlatformDeviceInfo, UsbBusInfo,
    UsbDeviceInfo,
};
use crate::nodes::SURFACED_ROLES;

verus! {

/// The bus-specific part of a foreign descriptor, copied out of the member
/// that the bus-type tag selects. The name buffers are copied whole, at
/// their declared capacity, terminated or not.
#[derive(Clone, Debug, PartialEq, Eq)]
#[allow(inconsistent_fields)]
pub enum RawBusPayload {
    Pci { bus: PciBusInfo, dev: PciDeviceInfo },
    Usb { bus: UsbBusInfo, dev: UsbDeviceInfo },
    Platform { fullname: Vec<u8>, dev: PlatformDeviceInfo },
    Host1x { fullname: Vec<u8>, dev: Host1xDeviceInfo },
    /// Nothing was read, because the tag selects no member.
    Unread,
}

impl RawBusPayload {
    /// The member that was read.
    pub open spec fn spec_kind(self) -> Option<BusKind> {
        match self {
            RawBusPayload::Pci { .. } => Some(BusKind::Pci),
            RawBusPayload::Usb { .. } => Some(BusKind::Usb),
            RawBusPayload::Platform { .. } => Some(BusKind::Platform),
            RawBusPayload::Host1x { .. } => Some(BusKind::Host1x),
            RawBusPayload::Unread => None,
        }
    }

    /// A payload fits a tag when it was read from the member that the tag
    /// selects. Under a tag that selects none, any payload fits: it is not
    /// looked at.
    pub open spec fn fits(self, tag: i32) -> bool {
        BusKind::spec_from_tag(tag) is Some ==> self.spec_kind() == BusKind::spec_from_tag(tag)
    }

    /// The member that was read.
    pub fn kind(&self) -> (k: Option<BusKind>)
        ensures
            k == self.spec_kind(),
    {
        match self {
            RawBusPayload::Pci { .. } => Some(BusKind::Pci),
            RawBusPayload::Usb { .. } => Some(BusKind::Usb),
            RawBusPayload::Platform { .. } => Some(BusKind::Platform),
            RawBusPayload::Host1x { .. } => Some(BusKind::Host1x),
            RawBusPayload::Unread => None,
        }
    }
}

/// One foreign device descriptor, copied into plain values.
#[derive(Clone, Debug, PartialEq, Eq)]
pub struct RawDevice {
    /// One slot for each node role, in the order of the roles. A slot whose
    /// role is not available holds whatever the caller put there, and is
    /// never looked at.
    pub nodes: Vec<Vec<u8>>,
    /// The node-availability mask.
    pub available_nodes: u32,
    /// The bus-type tag.
    pub bustype: i32,
    /// What was read under that tag.
    pub payload: RawBusPayload,
}

impl RawDevice {
    /// A descriptor is well formed when it has a slot for every surfaced
    /// role and its payload fits its tag.
    pub open spec fn wf(&self) -> bool {
        &&& self.nodes@.len() >= SURFACED_ROLES
        &&& self.payload.fits(self.bustype)
    }

    /// The node slots as byte sequences.
    pub open spec fn slots(&self) -> Seq<Seq<u8>> {
        Seq::new(self.nodes@.len(), |i: int| self.nodes@[i]@)
    }

    /// Tests whether the descriptor is well formed.
    pub fn is_well_formed(&self) -> (b: bool)
        ensures
            b == self.wf(),
    {
        if self.nodes.len() < SURFACED_ROLES {
            return false;
        }
        match BusKind::from_tag(self.bustype) {
            Err(_) => true,
            Ok(kind) => match self.payload.kind() {
                None => false,
                Some(read) => kind == read,
            },
        }
    }
}

} // verus!
