use libdrm::bus::{
    BusKind, DeviceInfo, Host1xBusInfo, Host1xDeviceInfo, PciBusInfo, PciDeviceInfo,
    PlatformBusInfo, PlatformDeviceInfo, UsbBusInfo, UsbDeviceInfo, DRM_BUS_HOST1X, DRM_BUS_PCI,
    DRM_BUS_PLATFORM, DRM_BUS_USB,
};
use libdrm::device::Device;
use libdrm::error::DecodeError;
use libdrm::nodes::{is_node_available, DeviceNodes};
use libdrm::raw::{RawBusPayload, RawDevice};
use libdrm::text::{read_name, scan_name};

const NAME_CAPACITY: usize = 512;

fn pci_bus() -> PciBusInfo {
    PciBusInfo { domain: 0x0001, bus: 0x02, dev: 0x1f, func: 0x03 }
}

fn pci_dev() -> PciDeviceInfo {
    PciDeviceInfo {
        vendor_id: 0x8086,
        device_id: 0x5916,
        subvendor_id: 0x17aa,
        subdevice_id: 0x224f,
        revision_id: 0x02,
    }
}

fn name_buffer(name: &[u8]) -> Vec<u8> {
    let mut buf = vec![0u8; NAME_CAPACITY];
    buf[..name.len()].copy_from_slice(name);
    buf
}

fn no_nodes() -> Vec<Vec<u8>> {
    vec![Vec::new(), Vec::new(), Vec::new()]
}

fn raw(bustype: i32, payload: RawBusPayload) -> RawDevice {
    RawDevice { nodes: no_nodes(), available_nodes: 0, bustype, payload }
}

#[test]
fn tags_map_to_their_buses() {
    assert_eq!(BusKind::from_tag(DRM_BUS_PCI), Ok(BusKind::Pci));
    assert_eq!(BusKind::from_tag(DRM_BUS_USB), Ok(BusKind::Usb));
    assert_eq!(BusKind::from_tag(DRM_BUS_PLATFORM), Ok(BusKind::Platform));
    assert_eq!(BusKind::from_tag(DRM_BUS_HOST1X), Ok(BusKind::Host1x));
    assert_eq!(BusKind::from_tag(0), Ok(BusKind::Pci));
    assert_eq!(BusKind::from_tag(3), Ok(BusKind::Host1x));
}

#[test]
fn tags_outside_the_set_are_refused() {
    for tag in [4, 5, 100, -1, i32::MAX, i32::MIN] {
        assert_eq!(BusKind::from_tag(tag), Err(DecodeError::UnsupportedBusKind { tag }));
    }
}

#[test]
fn bus_tag_round_trip() {
    for kind in [BusKind::Pci, BusKind::Usb, BusKind::Platform, BusKind::Host1x] {
        assert_eq!(BusKind::from_tag(kind.tag()), Ok(kind));
    }
    assert_eq!(BusKind::Platform.tag(), 2);
}

#[test]
fn decode_gives_the_variant_of_the_tag() {
    let pci = raw(DRM_BUS_PCI, RawBusPayload::Pci { bus: pci_bus(), dev: pci_dev() });
    let usb = raw(
        DRM_BUS_USB,
        RawBusPayload::Usb {
            bus: UsbBusInfo { bus: 1, dev: 4 },
            dev: UsbDeviceInfo { vendor: 0x17e9, product: 0x4301 },
        },
    );
    let platform = raw(
        DRM_BUS_PLATFORM,
        RawBusPayload::Platform {
            fullname: name_buffer(b"/soc/gpu@fd000000"),
            dev: PlatformDeviceInfo { compatible: 0x1000 },
        },
    );
    let host1x = raw(
        DRM_BUS_HOST1X,
        RawBusPayload::Host1x {
            fullname: name_buffer(b"/host1x@50000000/dc@54200000"),
            dev: Host1xDeviceInfo { compatible: 0x2000 },
        },
    );
    assert_eq!(DeviceInfo::from_sys(&pci).unwrap().kind(), BusKind::Pci);
    assert_eq!(DeviceInfo::from_sys(&usb).unwrap().kind(), BusKind::Usb);
    assert_eq!(DeviceInfo::from_sys(&platform).unwrap().kind(), BusKind::Platform);
    assert_eq!(DeviceInfo::from_sys(&host1x).unwrap().kind(), BusKind::Host1x);
    assert!(matches!(DeviceInfo::from_sys(&pci), Ok(DeviceInfo::Pci { .. })));
    assert!(matches!(DeviceInfo::from_sys(&usb), Ok(DeviceInfo::Usb { .. })));
    assert!(matches!(DeviceInfo::from_sys(&platform), Ok(DeviceInfo::Platform { .. })));
    assert!(matches!(DeviceInfo::from_sys(&host1x), Ok(DeviceInfo::Host1x { .. })));
}

#[test]
fn decode_refuses_an_unknown_tag() {
    let unread = raw(9, RawBusPayload::Unread);
    assert_eq!(DeviceInfo::from_sys(&unread), Err(DecodeError::UnsupportedBusKind { tag: 9 }));
    let stale = raw(-3, RawBusPayload::Pci { bus: pci_bus(), dev: pci_dev() });
    assert_eq!(DeviceInfo::from_sys(&stale), Err(DecodeError::UnsupportedBusKind { tag: -3 }));
}

#[test]
fn pci_records_are_copied_unchanged() {
    let sys_dev = raw(DRM_BUS_PCI, RawBusPayload::Pci { bus: pci_bus(), dev: pci_dev() });
    match DeviceInfo::from_sys(&sys_dev) {
        Ok(DeviceInfo::Pci { bus, dev }) => {
            assert_eq!(bus.domain, 0x0001);
            assert_eq!(bus.bus, 0x02);
            assert_eq!(bus.dev, 0x1f);
            assert_eq!(bus.func, 0x03);
            assert_eq!(dev.vendor_id, 0x8086);
            assert_eq!(dev.device_id, 0x5916);
            assert_eq!(dev.subvendor_id, 0x17aa);
            assert_eq!(dev.subdevice_id, 0x224f);
            assert_eq!(dev.revision_id, 0x02);
        }
        other => panic!("not a PCI device: {:?}", other),
    }
}

#[test]
fn usb_records_are_copied_unchanged() {
    let bus = UsbBusInfo { bus: 3, dev: 17 };
    let dev = UsbDeviceInfo { vendor: 0x17e9, product: 0x4301 };
    let sys_dev = raw(DRM_BUS_USB, RawBusPayload::Usb { bus, dev });
    assert_eq!(DeviceInfo::from_sys(&sys_dev), Ok(DeviceInfo::Usb { bus, dev }));
}

#[test]
fn platform_name_stops_at_the_terminator() {
    let mut fullname = name_buffer(b"/soc/gpu@fd000000");
    fullname[40] = b'x';
    let dev = PlatformDeviceInfo { compatible: 0xdead_beef };
    let sys_dev = raw(DRM_BUS_PLATFORM, RawBusPayload::Platform { fullname, dev });
    assert_eq!(
        DeviceInfo::from_sys(&sys_dev),
        Ok(DeviceInfo::Platform {
            bus: PlatformBusInfo { fullname: String::from("/soc/gpu@fd000000") },
            dev,
        })
    );
}

#[test]
fn host1x_name_stops_at_the_terminator() {
    let fullname = name_buffer(b"/host1x@50000000");
    let dev = Host1xDeviceInfo { compatible: 0 };
    let sys_dev = raw(DRM_BUS_HOST1X, RawBusPayload::Host1x { fullname, dev });
    assert_eq!(
        DeviceInfo::from_sys(&sys_dev),
        Ok(DeviceInfo::Host1x {
            bus: Host1xBusInfo { fullname: String::from("/host1x@50000000") },
            dev,
        })
    );
}

#[test]
fn unterminated_name_ends_at_capacity() {
    let mut memory = vec![b'A'; NAME_CAPACITY + 1];
    memory[NAME_CAPACITY] = b'Z';
    let buffer = &memory[..NAME_CAPACITY];
    assert_eq!(scan_name(buffer), NAME_CAPACITY);
    let name = read_name(buffer);
    assert_eq!(name.len(), NAME_CAPACITY);
    assert!(name.bytes().all(|b| b == b'A'));
    assert!(!name.contains('Z'));

    for bustype in [DRM_BUS_PLATFORM, DRM_BUS_HOST1X] {
        let payload = if bustype == DRM_BUS_PLATFORM {
            RawBusPayload::Platform {
                fullname: buffer.to_vec(),
                dev: PlatformDeviceInfo { compatible: 0 },
            }
        } else {
            RawBusPayload::Host1x {
                fullname: buffer.to_vec(),
                dev: Host1xDeviceInfo { compatible: 0 },
            }
        };
        let decoded = match DeviceInfo::from_sys(&raw(bustype, payload)).unwrap() {
            DeviceInfo::Platform { bus, .. } => bus.fullname,
            DeviceInfo::Host1x { bus, .. } => bus.fullname,
            other => panic!("unexpected variant: {:?}", other),
        };
        assert_eq!(decoded, "A".repeat(NAME_CAPACITY));
    }
}

#[test]
fn scan_name_edge_cases() {
    assert_eq!(scan_name(&[]), 0);
    assert_eq!(scan_name(&[0]), 0);
    assert_eq!(scan_name(&[0, b'a', b'b']), 0);
    assert_eq!(scan_name(&[b'a']), 1);
    assert_eq!(scan_name(&[b'a', b'b', 0, b'c', 0]), 2);
    assert_eq!(scan_name(&[b'a', b'b', b'c']), 3);
    assert_eq!(scan_name(&[b'a', b'b', b'c', 0]), 3);
}

#[test]
fn read_name_edge_cases() {
    assert_eq!(read_name(&[]), "");
    assert_eq!(read_name(&[0, b'x']), "");
    assert_eq!(read_name(b"card\0junk"), "card");
    assert_eq!(read_name(b"card"), "card");
}

#[test]
fn malformed_name_is_decoded_leniently() {
    assert_eq!(read_name(&[b'g', 0xff, b'p', 0, b'u']), "g\u{fffd}p");
    assert_eq!(read_name(&[0xc3, 0xa9, 0]), "\u{e9}");
    let fullname = name_buffer(&[b'/', 0x80, b'x']);
    let sys_dev = raw(
        DRM_BUS_PLATFORM,
        RawBusPayload::Platform { fullname, dev: PlatformDeviceInfo { compatible: 0 } },
    );
    match DeviceInfo::from_sys(&sys_dev) {
        Ok(DeviceInfo::Platform { bus, .. }) => assert_eq!(bus.fullname, "/\u{fffd}x"),
        other => panic!("not a platform device: {:?}", other),
    }
}

#[test]
fn render_only_mask_reads_the_render_slot_alone() {
    let sys_dev = RawDevice {
        nodes: vec![
            vec![0xff, 0xfe, 0xfd],
            b"poisoned".to_vec(),
            b"/dev/dri/renderD128".to_vec(),
            vec![0xff],
        ],
        available_nodes: 1 << 2,
        bustype: DRM_BUS_PCI,
        payload: RawBusPayload::Pci { bus: pci_bus(), dev: pci_dev() },
    };
    assert_eq!(
        DeviceNodes::from_sys(&sys_dev),
        DeviceNodes { primary: None, control: None, render: Some(String::from("/dev/dri/renderD128")) }
    );
}

#[test]
fn node_masks() {
    let nodes = vec![
        b"/dev/dri/card0".to_vec(),
        b"/dev/dri/controlD64".to_vec(),
        b"/dev/dri/renderD128".to_vec(),
    ];
    let with_mask = |mask: u32| {
        DeviceNodes::from_sys(&RawDevice {
            nodes: nodes.clone(),
            available_nodes: mask,
            bustype: DRM_BUS_PCI,
            payload: RawBusPayload::Pci { bus: pci_bus(), dev: pci_dev() },
        })
    };
    let primary = Some(String::from("/dev/dri/card0"));
    let control = Some(String::from("/dev/dri/controlD64"));
    let render = Some(String::from("/dev/dri/renderD128"));
    assert_eq!(with_mask(0), DeviceNodes { primary: None, control: None, render: None });
    assert_eq!(
        with_mask(1),
        DeviceNodes { primary: primary.clone(), control: None, render: None }
    );
    assert_eq!(
        with_mask(2),
        DeviceNodes { primary: None, control: control.clone(), render: None }
    );
    assert_eq!(
        with_mask(5),
        DeviceNodes { primary: primary.clone(), control: None, render: render.clone() }
    );
    assert_eq!(
        with_mask(7),
        DeviceNodes { primary: primary.clone(), control: control.clone(), render: render.clone() }
    );
    assert_eq!(with_mask(8), DeviceNodes { primary: None, control: None, render: None });
    assert_eq!(with_mask(0xffff_ffff), DeviceNodes { primary, control, render });
}

#[test]
fn empty_path_is_present_when_available() {
    let sys_dev = RawDevice {
        nodes: vec![Vec::new(), Vec::new(), Vec::new()],
        available_nodes: 1,
        bustype: DRM_BUS_PCI,
        payload: RawBusPayload::Pci { bus: pci_bus(), dev: pci_dev() },
    };
    let nodes = DeviceNodes::from_sys(&sys_dev);
    assert_eq!(nodes.primary, Some(String::new()));
    assert_eq!(nodes.control, None);
    assert_eq!(nodes.render, None);
}

#[test]
fn malformed_path_is_decoded_leniently() {
    let sys_dev = RawDevice {
        nodes: vec![vec![b'/', 0xff, b'c'], Vec::new(), Vec::new()],
        available_nodes: 1,
        bustype: DRM_BUS_PCI,
        payload: RawBusPayload::Pci { bus: pci_bus(), dev: pci_dev() },
    };
    assert_eq!(DeviceNodes::from_sys(&sys_dev).primary, Some(String::from("/\u{fffd}c")));
}

#[test]
fn node_availability_bits() {
    assert!(is_node_available(4, 2));
    assert!(!is_node_available(4, 0));
    assert!(!is_node_available(4, 1));
    assert!(is_node_available(1, 0));
    assert!(is_node_available(0x8000_0000, 31));
    assert!(!is_node_available(0, 31));
}

#[test]
fn well_formedness() {
    let good = raw(DRM_BUS_PCI, RawBusPayload::Pci { bus: pci_bus(), dev: pci_dev() });
    assert!(good.is_well_formed());
    let unknown = raw(42, RawBusPayload::Unread);
    assert!(unknown.is_well_formed());
    let mismatch = raw(DRM_BUS_USB, RawBusPayload::Pci { bus: pci_bus(), dev: pci_dev() });
    assert!(!mismatch.is_well_formed());
    let unread = raw(DRM_BUS_USB, RawBusPayload::Unread);
    assert!(!unread.is_well_formed());
    let mut short = raw(DRM_BUS_PCI, RawBusPayload::Pci { bus: pci_bus(), dev: pci_dev() });
    short.nodes.pop();
    assert!(!short.is_well_formed());
    assert_eq!(good.payload.kind(), Some(BusKind::Pci));
    assert_eq!(unknown.payload.kind(), None);
}

#[test]
fn device_from_an_empty_handle() {
    assert_eq!(Device::from_sys(&None), Err(DecodeError::InvalidDeviceHandle));
}

#[test]
fn device_from_a_descriptor() {
    let sys_dev = RawDevice {
        nodes: vec![b"/dev/dri/card1".to_vec(), Vec::new(), b"/dev/dri/renderD129".to_vec()],
        available_nodes: 0b101,
        bustype: DRM_BUS_PLATFORM,
        payload: RawBusPayload::Platform {
            fullname: name_buffer(b"/soc/gpu"),
            dev: PlatformDeviceInfo { compatible: 64 },
        },
    };
    let device = Device::from_sys(&Some(sys_dev)).unwrap();
    assert_eq!(device.nodes.primary.as_deref(), Some("/dev/dri/card1"));
    assert_eq!(device.nodes.control, None);
    assert_eq!(device.nodes.render.as_deref(), Some("/dev/dri/renderD129"));
    assert_eq!(
        device.info,
        DeviceInfo::Platform {
            bus: PlatformBusInfo { fullname: String::from("/soc/gpu") },
            dev: PlatformDeviceInfo { compatible: 64 },
        }
    );
}

#[test]
fn device_with_an_unknown_bus() {
    let sys_dev = RawDevice {
        nodes: vec![b"/dev/dri/card1".to_vec(), Vec::new(), Vec::new()],
        available_nodes: 1,
        bustype: 4,
        payload: RawBusPayload::Unread,
    };
    assert_eq!(
        Device::from_sys(&Some(sys_dev)),
        Err(DecodeError::UnsupportedBusKind { tag: 4 })
    );
}
