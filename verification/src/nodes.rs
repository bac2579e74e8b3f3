use vstd::prelude::*;
use crate::raw::RawDevice;
use crate::text::{decode_lossy, lossy_text};

verus! {

/// Slot and mask bit of the primary node.
pub const DRM_NODE_PRIMARY: u32 = 0;

/// Slot and mask bit of the control node.
pub const DRM_NODE_CONTROL: u32 = 1;

/// Slot and mask bit of the render node.
pub const DRM_NODE_RENDER: u32 = 2;

/// Number of roles that a `DeviceNodes` surfaces; a descriptor has at least
/// this many slots.
pub const SURFACED_ROLES: usize = 3;

/// Whether a mask marks the node at a slot as available.
pub open spec fn node_available(mask: u32, slot: u32) -> bool {
    mask & (1u32 << slot) != 0
}

/// Tests whether a mask marks the node at a slot as available. A caller that
/// holds foreign path pointers asks this first: the pointer of a node that is
/// not available is not to be followed.
pub fn is_node_available(mask: u32, slot: u32) -> (b: bool)
    requires
        slot < 32,
    ensures
        b == node_available(mask, slot),
{
    (mask & (1u32 << slot)) != 0
}

/// The device files through which a device can be reached, by role. A role
/// that is not available has no path, never an empty one.
#[derive(Clone, Debug, PartialEq, Eq)]
pub struct DeviceNodes {
    pub primary: Option<String>,
    pub control: Option<String>,
    pub render: Option<String>,
}

/// What a `DeviceNodes` holds, with each path as its sequence of characters.
pub struct DeviceNodesModel {
    pub primary: Option<Seq<char>>,
    pub control: Option<Seq<char>>,
    pub render: Option<Seq<char>>,
}

/// A path, where there is one, as its sequence of characters.
pub open spec fn path_view(path: Option<String>) -> Option<Seq<char>> {
    match path {
        Some(p) => Some(p@),
        None => None,
    }
}

impl View for DeviceNodes {
    type V = DeviceNodesModel;

    open spec fn view(&self) -> DeviceNodesModel {
        DeviceNodesModel {
            primary: path_view(self.primary),
            control: path_view(self.control),
            render: path_view(self.render),
        }
    }
}

/// The path of one role: the text of its slot where the mask marks it
/// available, nothing where it does not.
pub open spec fn resolved_path(mask: u32, slots: Seq<Seq<u8>>, slot: u32) -> Option<Seq<char>> {
    if node_available(mask, slot) {
        Some(lossy_text(slots[slot as int]))
    } else {
        None
    }
}

/// The paths that a mask and the slots of a descriptor give.
pub open spec fn resolved_nodes(mask: u32, slots: Seq<Seq<u8>>) -> DeviceNodesModel {
    DeviceNodesModel {
        primary: resolved_path(mask, slots, DRM_NODE_PRIMARY),
        control: resolved_path(mask, slots, DRM_NODE_CONTROL),
        render: resolved_path(mask, slots, DRM_NODE_RENDER),
    }
}

/// Slots of roles that the mask does not mark available have no part in the
/// result: two descriptors that agree on the available slots resolve alike,
/// whatever the others hold.
pub proof fn lemma_unavailable_slots_are_ignored(mask: u32, a: Seq<Seq<u8>>, b: Seq<Seq<u8>>)
    requires
        a.len() >= SURFACED_ROLES,
        b.len() >= SURFACED_ROLES,
        forall|slot: u32| slot < SURFACED_ROLES && node_available(mask, slot) ==> a[slot as int] == b[slot as int],
    ensures
        resolved_nodes(mask, a) == resolved_nodes(mask, b),
{
}

/// A mask with the render bit alone gives a render path and nothing else.
pub proof fn lemma_render_only(slots: Seq<Seq<u8>>)
    requires
        slots.len() >= SURFACED_ROLES,
    ensures
        resolved_nodes(1u32 << DRM_NODE_RENDER, slots) == (DeviceNodesModel {
            primary: None,
            control: None,
            render: Some(lossy_text(slots[2])),
        }),
{
    assert((1u32 << 2u32) & (1u32 << 0u32) == 0) by (bit_vector);
    assert((1u32 << 2u32) & (1u32 << 1u32) == 0) by (bit_vector);
    assert((1u32 << 2u32) & (1u32 << 2u32) != 0) by (bit_vector);
}

/// Resolves the path of one role.
fn resolve_slot(mask: u32, nodes: &Vec<Vec<u8>>, slot: u32) -> (path: Option<String>)
    requires
        slot < SURFACED_ROLES,
        nodes@.len() >= SURFACED_ROLES,
    ensures
        path_view(path) == (if node_available(mask, slot) {
            Some(lossy_text(nodes@[slot as int]@))
        } else {
            None
        }),
{
    if is_node_available(mask, slot) {
        Some(decode_lossy(nodes[slot as usize].as_slice()))
    } else {
        None
    }
}

impl DeviceNodes {
    /// Resolves the node paths of a descriptor: for each role, the leniently
    /// decoded text of its slot where the mask marks the role available, and
    /// nothing where it does not. Every mask is valid.
    pub fn from_sys(sys_dev: &RawDevice) -> (nodes: DeviceNodes)
        requires
            sys_dev.nodes@.len() >= SURFACED_ROLES,
        ensures
            nodes@ == resolved_nodes(sys_dev.available_nodes, sys_dev.slots()),
    {
        let mask: u32 = sys_dev.available_nodes;
        DeviceNodes {
            primary: resolve_slot(mask, &sys_dev.nodes, DRM_NODE_PRIMARY),
            control: resolve_slot(mask, &sys_dev.nodes, DRM_NODE_CONTROL),
            render: resolve_slot(mask, &sys_dev.nodes, DRM_NODE_RENDER),
        }
    }
}

} // verus!
