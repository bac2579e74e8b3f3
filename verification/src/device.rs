use vstd::prelude::*;
use crate::bus::{decoded_info, DeviceInfo, DeviceInfoModel};
use crate::error::DecodeError;
use crate::nodes::{resolved_nodes, DeviceNodes, DeviceNodesModel};
use crate::raw::RawDevice;

verus! {

/// One discovered device: how to reach it and what it is.
#[derive(Clone, Debug, PartialEq, Eq)]
pub struct Device {
    pub nodes: DeviceNodes,
    pub info: DeviceInfo,
}

/// What a `Device` holds.
pub struct DeviceModel {
    pub nodes: DeviceNodesModel,
    pub info: DeviceInfoModel,
}

impl View for Device {
    type V = DeviceModel;

    open spec fn view(&self) -> DeviceModel {
        DeviceModel { nodes: self.nodes@, info: self.info@ }
    }
}

/// What decoding makes of one entry of an enumeration: an empty entry is an
/// invalid handle, a descriptor gives its nodes and its bus information, or
/// the error of the latter.
pub open spec fn decoded_device(handle: Option<RawDevice>) -> Result<DeviceModel, DecodeError> {
    match handle {
        None => Err(DecodeError::InvalidDeviceHandle),
        Some(sys_dev) => match decoded_info(sys_dev) {
            Ok(info) => Ok(
                DeviceModel {
                    nodes: resolved_nodes(sys_dev.available_nodes, sys_dev.slots()),
                    info,
                },
            ),
            Err(e) => Err(e),
        },
    }
}

/// An entry is well formed when it is empty or holds a well-formed
/// descriptor.
pub open spec fn handle_wf(handle: Option<RawDevice>) -> bool {
    handle is Some ==> handle.unwrap().wf()
}

impl Device {
    /// Decodes one entry of an enumeration.
    pub fn from_sys(sys_dev_ptr: &Option<RawDevice>) -> (r: Result<Device, DecodeError>)
        requires
            handle_wf(*sys_dev_ptr),
        ensures
            match decoded_device(*sys_dev_ptr) {
                Ok(device) => r is Ok && r.unwrap()@ == device,
                Err(e) => r == Err::<Device, DecodeError>(e),
            },
    {
        match sys_dev_ptr {
            None => Err(DecodeError::InvalidDeviceHandle),
            Some(sys_dev) => {
                let nodes = DeviceNodes::from_sys(sys_dev);
                match DeviceInfo::from_sys(sys_dev) {
                    Ok(info) => Ok(Device { nodes, info }),
                    Err(e) => Err(e),
                }
            },
        }
    }
}

} // verus!
