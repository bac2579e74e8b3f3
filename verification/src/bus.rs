use vstd::prelude::*;
use crate::error::DecodeError;
use crate::raw::{RawBusPayload, RawDevice};
use crate::text::{name_text, read_name};

verus! {

/// Bus-type tag of a PCI device.
pub const DRM_BUS_PCI: i32 = 0;

/// Bus-type tag of a USB device.
pub const DRM_BUS_USB: i32 = 1;

/// Bus-type tag of a platform device.
pub const DRM_BUS_PLATFORM: i32 = 2;

/// Bus-type tag of a Host1x device.
pub const DRM_BUS_HOST1X: i32 = 3;

/// The buses a device can sit on.
#[derive(Clone, Copy, Debug, PartialEq, Eq, Structural)]
pub enum BusKind {
    Pci,
    Usb,
    Platform,
    Host1x,
}

impl BusKind {
    /// The bus that a tag stands for, if it stands for one.
    pub open spec fn spec_from_tag(tag: i32) -> Option<BusKind> {
        if tag == DRM_BUS_PCI {
            Some(BusKind::Pci)
        } else if tag == DRM_BUS_USB {
            Some(BusKind::Usb)
        } else if tag == DRM_BUS_PLATFORM {
            Some(BusKind::Platform)
        } else if tag == DRM_BUS_HOST1X {
            Some(BusKind::Host1x)
        } else {
            None
        }
    }

    /// The tag that stands for a bus.
    pub open spec fn spec_tag(self) -> i32 {
        match self {
            BusKind::Pci => DRM_BUS_PCI,
            BusKind::Usb => DRM_BUS_USB,
            BusKind::Platform => DRM_BUS_PLATFORM,
            BusKind::Host1x => DRM_BUS_HOST1X,
        }
    }

    /// Maps a bus-type tag to its bus. A caller that holds a foreign
    /// descriptor asks this before it touches the payload: on an error there
    /// is nothing it may read.
    pub fn from_tag(tag: i32) -> (r: Result<BusKind, DecodeError>)
        ensures
            r == match Self::spec_from_tag(tag) {
                Some(kind) => Ok::<BusKind, DecodeError>(kind),
                None => Err(DecodeError::UnsupportedBusKind { tag }),
            },
    {
        if tag == DRM_BUS_PCI {
            Ok(BusKind::Pci)
        } else if tag == DRM_BUS_USB {
            Ok(BusKind::Usb)
        } else if tag == DRM_BUS_PLATFORM {
            Ok(BusKind::Platform)
        } else if tag == DRM_BUS_HOST1X {
            Ok(BusKind::Host1x)
        } else {
            Err(DecodeError::UnsupportedBusKind { tag })
        }
    }

    /// The tag of this bus.
    pub fn tag(self) -> (t: i32)
        ensures
            t == self.spec_tag(),
            Self::spec_from_tag(t) == Some(self),
    {
        match self {
            BusKind::Pci => DRM_BUS_PCI,
            BusKind::Usb => DRM_BUS_USB,
            BusKind::Platform => DRM_BUS_PLATFORM,
            BusKind::Host1x => DRM_BUS_HOST1X,
        }
    }
}

/// Where a PCI device sits.
#[derive(Clone, Copy, Debug, PartialEq, Eq, Structural)]
pub struct PciBusInfo {
    pub domain: u16,
    pub bus: u8,
    pub dev: u8,
    pub func: u8,
}

/// What a PCI device says it is.
#[derive(Clone, Copy, Debug, PartialEq, Eq, Structural)]
pub struct PciDeviceInfo {
    pub vendor_id: u16,
    pub device_id: u16,
    pub subvendor_id: u16,
    pub subdevice_id: u16,
    pub revision_id: u8,
}

/// Where a USB device sits.
#[derive(Clone, Copy, Debug, PartialEq, Eq, Structural)]
pub struct UsbBusInfo {
    pub bus: u8,
    pub dev: u8,
}

/// What a USB device says it is.
#[derive(Clone, Copy, Debug, PartialEq, Eq, Structural)]
pub struct UsbDeviceInfo {
    pub vendor: u16,
    pub product: u16,
}

/// Identity record of a platform device: the address of the foreign list of
/// compatible strings, kept as a number and never followed.
#[derive(Clone, Copy, Debug, PartialEq, Eq, Structural)]
pub struct PlatformDeviceInfo {
    pub compatible: usize,
}

/// Identity record of a Host1x device: the address of the foreign list of
/// compatible strings, kept as a number and never followed.
#[derive(Clone, Copy, Debug, PartialEq, Eq, Structural)]
pub struct Host1xDeviceInfo {
    pub compatible: usize,
}

/// Where a platform device sits: its full name in the device tree.
#[derive(Clone, Debug, PartialEq, Eq)]
pub struct PlatformBusInfo {
    pub fullname: String,
}

/// Where a Host1x device sits: its full name in the device tree.
#[derive(Clone, Debug, PartialEq, Eq)]
pub struct Host1xBusInfo {
    pub fullname: String,
}

/// Bus location and identity of a device, by the bus it sits on.
#[derive(Clone, Debug, PartialEq, Eq)]
#[allow(inconsistent_fields)]
pub enum DeviceInfo {
    Pci { bus: PciBusInfo, dev: PciDeviceInfo },
    Usb { bus: UsbBusInfo, dev: UsbDeviceInfo },
    Platform { bus: PlatformBusInfo, dev: PlatformDeviceInfo },
    Host1x { bus: Host1xBusInfo, dev: Host1xDeviceInfo },
}

/// What a `DeviceInfo` holds, with each name as its sequence of characters.
#[allow(inconsistent_fields)]
pub enum DeviceInfoModel {
    Pci { bus: PciBusInfo, dev: PciDeviceInfo },
    Usb { bus: UsbBusInfo, dev: UsbDeviceInfo },
    Platform { fullname: Seq<char>, dev: PlatformDeviceInfo },
    Host1x { fullname: Seq<char>, dev: Host1xDeviceInfo },
}

impl DeviceInfoModel {
    /// The bus of the variant.
    pub open spec fn kind(self) -> BusKind {
        match self {
            DeviceInfoModel::Pci { .. } => BusKind::Pci,
            DeviceInfoModel::Usb { .. } => BusKind::Usb,
            DeviceInfoModel::Platform { .. } => BusKind::Platform,
            DeviceInfoModel::Host1x { .. } => BusKind::Host1x,
        }
    }
}

impl View for DeviceInfo {
    type V = DeviceInfoModel;

    open spec fn view(&self) -> DeviceInfoModel {
        match *self {
            DeviceInfo::Pci { bus, dev } => DeviceInfoModel::Pci { bus, dev },
            DeviceInfo::Usb { bus, dev } => DeviceInfoModel::Usb { bus, dev },
            DeviceInfo::Platform { bus, dev } => DeviceInfoModel::Platform {
                fullname: bus.fullname@,
                dev,
            },
            DeviceInfo::Host1x { bus, dev } => DeviceInfoModel::Host1x {
                fullname: bus.fullname@,
                dev,
            },
        }
    }
}

/// What decoding makes of a payload: the fixed records as they are, a name
/// buffer as the text before its first terminator. `Unread` decodes to
/// nothing.
pub open spec fn decoded_payload(payload: RawBusPayload) -> Option<DeviceInfoModel> {
    match payload {
        RawBusPayload::Pci { bus, dev } => Some(DeviceInfoModel::Pci { bus, dev }),
        RawBusPayload::Usb { bus, dev } => Some(DeviceInfoModel::Usb { bus, dev }),
        RawBusPayload::Platform { fullname, dev } => Some(
            DeviceInfoModel::Platform { fullname: name_text(fullname@), dev },
        ),
        RawBusPayload::Host1x { fullname, dev } => Some(
            DeviceInfoModel::Host1x { fullname: name_text(fullname@), dev },
        ),
        RawBusPayload::Unread => None,
    }
}

/// What decoding makes of a descriptor's bus-specific part. The tag decides
/// alone whether there is a result.
pub open spec fn decoded_info(sys_dev: RawDevice) -> Result<DeviceInfoModel, DecodeError> {
    if BusKind::spec_from_tag(sys_dev.bustype) is Some && decoded_payload(sys_dev.payload) is Some {
        Ok(decoded_payload(sys_dev.payload).unwrap())
    } else {
        Err(DecodeError::UnsupportedBusKind { tag: sys_dev.bustype })
    }
}

/// Under a recognized tag, a payload that fits it decodes to the variant of
/// the tag's bus, and to no other.
pub proof fn lemma_decoded_kind_matches_tag(sys_dev: RawDevice)
    requires
        sys_dev.payload.fits(sys_dev.bustype),
        BusKind::spec_from_tag(sys_dev.bustype) is Some,
    ensures
        decoded_info(sys_dev) is Ok,
        Some(decoded_info(sys_dev).unwrap().kind()) == BusKind::spec_from_tag(sys_dev.bustype),
        decoded_info(sys_dev).unwrap().kind().spec_tag() == sys_dev.bustype,
{
}

/// Under an unrecognized tag decoding fails, and the payload has no part in
/// it: whatever stands there, the error is the same.
pub proof fn lemma_unrecognized_tag_ignores_payload(a: RawDevice, b: RawDevice)
    requires
        BusKind::spec_from_tag(a.bustype) is None,
        a.bustype == b.bustype,
    ensures
        decoded_info(a) == Err::<DeviceInfoModel, DecodeError>(
            DecodeError::UnsupportedBusKind { tag: a.bustype },
        ),
        decoded_info(a) == decoded_info(b),
{
}

/// The fixed records of a PCI or USB device come out as they went in.
pub proof fn lemma_fixed_records_unchanged(sys_dev: RawDevice)
    requires
        sys_dev.payload.fits(sys_dev.bustype),
    ensures
        sys_dev.bustype == DRM_BUS_PCI ==> decoded_info(sys_dev) == Ok::<
            DeviceInfoModel,
            DecodeError,
        >(DeviceInfoModel::Pci { bus: sys_dev.payload->Pci_bus, dev: sys_dev.payload->Pci_dev }),
        sys_dev.bustype == DRM_BUS_USB ==> decoded_info(sys_dev) == Ok::<
            DeviceInfoModel,
            DecodeError,
        >(DeviceInfoModel::Usb { bus: sys_dev.payload->Usb_bus, dev: sys_dev.payload->Usb_dev }),
{
}

impl DeviceInfo {
    /// The bus this device sits on.
    pub fn kind(&self) -> (k: BusKind)
        ensures
            k == self@.kind(),
    {
        match self {
            DeviceInfo::Pci { .. } => BusKind::Pci,
            DeviceInfo::Usb { .. } => BusKind::Usb,
            DeviceInfo::Platform { .. } => BusKind::Platform,
            DeviceInfo::Host1x { .. } => BusKind::Host1x,
        }
    }

    /// Decodes the bus-specific part of a descriptor. The tag alone decides:
    /// an unrecognized one is an error, and the payload is not looked at; a
    /// recognized one gives the variant of its bus, with the fixed records
    /// copied unchanged and a name read up to its first terminator or, where
    /// there is none, up to the buffer's capacity.
    pub fn from_sys(sys_dev: &RawDevice) -> (r: Result<DeviceInfo, DecodeError>)
        requires
            sys_dev.payload.fits(sys_dev.bustype),
        ensures
            r is Ok <==> BusKind::spec_from_tag(sys_dev.bustype) is Some,
            r is Ok ==> Some(r.unwrap()@.kind()) == BusKind::spec_from_tag(sys_dev.bustype),
            match decoded_info(*sys_dev) {
                Ok(info) => r is Ok && r.unwrap()@ == info,
                Err(e) => r == Err::<DeviceInfo, DecodeError>(e),
            },
    {
        let tag: i32 = sys_dev.bustype;
        if BusKind::from_tag(tag).is_err() {
            return Err(DecodeError::UnsupportedBusKind { tag });
        }
        match &sys_dev.payload {
            RawBusPayload::Pci { bus, dev } => Ok(DeviceInfo::Pci { bus: *bus, dev: *dev }),
            RawBusPayload::Usb { bus, dev } => Ok(DeviceInfo::Usb { bus: *bus, dev: *dev }),
            RawBusPayload::Platform { fullname, dev } => Ok(
                DeviceInfo::Platform {
                    bus: PlatformBusInfo { fullname: read_name(fullname.as_slice()) },
                    dev: *dev,
                },
            ),
            RawBusPayload::Host1x { fullname, dev } => Ok(
                DeviceInfo::Host1x {
                    bus: Host1xBusInfo { fullname: read_name(fullname.as_slice()) },
                    dev: *dev,
                },
            ),
            RawBusPayload::Unread => Err(DecodeError::UnsupportedBusKind { tag }),
        }
    }
}

} // verus!
