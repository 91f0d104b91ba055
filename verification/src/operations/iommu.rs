//! What the operations on IOMMU mappings do.
use vstd::prelude::*;

#[allow(unused_imports)]
use crate::capability::{table_of, Capability, CapabilityKind, CapabilityTable};
#[allow(unused_imports)]
use crate::memory::allocator::{BumpAllocator, PhysicallyPinned};
#[allow(unused_imports)]
use crate::memory::iommu::{
    init, iommu_of, take_commands, HalCommand, IommuError, IommuMapping, IommuPermissions,
    IommuState,
};

verus! {

/// Every permission is one bit of its own; a set of permissions contains another if no
/// bit of the other is missing, and the union has the bits of both.
pub proof fn law_permissions_are_sets_of_bits(
    a: IommuPermissions,
    b: IommuPermissions,
    r: bool,
    union: IommuPermissions,
)
    requires
        call_ensures(IommuPermissions::contains, (&a, b), r),
        call_ensures(<IommuPermissions as core::ops::BitOr>::bitor, (a, b), union),
    ensures
        IommuPermissions::READ().bits == 1,
        IommuPermissions::WRITE().bits == 2,
        IommuPermissions::EXEC().bits == 4,
        r <==> b.bits & !a.bits == 0,
        union.bits == a.bits | b.bits,
        a.union(b).bits == a.bits | b.bits,
{
    let x = a.bits;
    let y = b.bits;
    assert((x & y == y) <==> (y & !x == 0)) by (bit_vector);
}

/// At first the layer is down, nothing is mapped, and nothing waits for the hardware;
/// the layer says whether it is up and whether anything is mapped.
pub proof fn law_iommu_starts_down(
    fresh: IommuState,
    state: &IommuState,
    up: bool,
    nothing: bool,
    p: u64,
)
    requires
        call_ensures(IommuState::new, (), fresh),
        call_ensures(IommuState::initialised, (state,), up),
        call_ensures(IommuState::no_active_mappings, (state,), nothing),
    ensures
        !fresh@.initialised,
        !fresh@.active.dom().contains(p),
        fresh@.commands.len() == 0,
        !iommu_of(None).initialised,
        !iommu_of(None).active.dom().contains(p),
        iommu_of(None).commands.len() == 0,
        iommu_of(Some(fresh)) == fresh@,
        up <==> state@.initialised,
        nothing <==> forall|q: u64| !(#[trigger] state@.active.dom().contains(q)),
{
    if forall|q: u64| !(#[trigger] state@.active.dom().contains(q)) {
        assert(state@.active.dom() =~= Set::empty());
    }
}

/// Initialising brings the layer up, and keeps every mapping and every command that
/// waits.
pub proof fn law_init_brings_the_layer_up(slot: &mut Option<IommuState>)
    requires
        call_ensures(init, (slot,), ()),
    ensures
        iommu_of(*final(slot)).initialised,
        iommu_of(*final(slot)).active == iommu_of(*old(slot)).active,
        iommu_of(*final(slot)).commands == iommu_of(*old(slot)).commands,
{
}

/// A frame is mapped exactly if the token shows a DMA buffer or a compute region and is
/// live, and was issued as what it shows; the layer is up; and the frame is not mapped.
/// The mapping then has the frame's address and the length, the permissions and the
/// device that were asked for; the accounts name the device at that address and are
/// otherwise as before; and the hardware is told to map just that, after all it was told
/// before. Otherwise the same frame comes back, with the first reason that applies, and
/// nothing changes. The capability table never changes.
pub proof fn law_map_maps_what_was_asked(
    slot: &mut Option<IommuState>,
    capabilities: &mut Option<CapabilityTable>,
    pinned: PhysicallyPinned,
    length: usize,
    permissions: IommuPermissions,
    device_id: u64,
    capability: &Capability,
    r: Result<IommuMapping, (PhysicallyPinned, IommuError)>,
)
    requires
        call_ensures(
            crate::memory::iommu::map,
            (slot, capabilities, pinned, length, permissions, device_id, capability),
            r,
        ),
    ensures
        ({
            let before = iommu_of(*old(slot));
            let after = iommu_of(*final(slot));
            let table = table_of(*old(capabilities));
            let good = {
                &&& capability.kind == CapabilityKind::DmaBuffer || capability.kind
                    == CapabilityKind::ComputeRegion
                &&& table.entries.dom().contains(capability.id.0)
                &&& table.entries[capability.id.0].kind == capability.kind
            };
            let taken = before.active.dom().contains(pinned.addr());
            &&& table_of(*final(capabilities)) == table
            &&& r is Ok <==> good && before.initialised && !taken
            &&& r is Ok ==> {
                &&& r->Ok_0@.phys_start == pinned.addr()
                &&& r->Ok_0@.frame == pinned.addr()
                &&& r->Ok_0@.length == length
                &&& r->Ok_0@.permissions.bits == permissions.bits
                &&& r->Ok_0@.device_id == device_id
                &&& after.initialised
                &&& after.active == before.active.insert(pinned.addr(), device_id)
                &&& after.commands.len() == before.commands.len() + 1
                &&& after.commands.take(before.commands.len() as int) == before.commands
                &&& after.commands[before.commands.len() as int] == (HalCommand::MapRange {
                    device_id,
                    phys_start: pinned.addr(),
                    length,
                    permissions,
                })
            }
            &&& r is Err ==> {
                &&& r->Err_0.0 == pinned
                &&& r->Err_0.1 == IommuError::CapabilityMismatch <==> !good
                &&& r->Err_0.1 == IommuError::NotInitialised <==> good && !before.initialised
                &&& r->Err_0.1 == IommuError::AlreadyMapped <==> good && before.initialised && taken
                &&& after == before
            }
        }),
{
    let before = iommu_of(*old(slot));
    let after = iommu_of(*final(slot));
    if r is Ok {
        assert(after.commands.take(before.commands.len() as int) =~= before.commands);
    }
}

/// A mapping shows the fields it was made with.
pub proof fn law_mapping_shows_what_it_is(
    mapping: &IommuMapping,
    phys_start: u64,
    length: usize,
    permissions: IommuPermissions,
    device_id: u64,
)
    requires
        call_ensures(IommuMapping::phys_start, (mapping,), phys_start),
        call_ensures(IommuMapping::length, (mapping,), length),
        call_ensures(IommuMapping::permissions, (mapping,), permissions),
        call_ensures(IommuMapping::device_id, (mapping,), device_id),
    ensures
        phys_start == mapping@.phys_start,
        length == mapping@.length,
        permissions.bits == mapping@.permissions.bits,
        device_id == mapping@.device_id,
{
}

/// Releasing a mapping takes its address off the accounts and leaves the others alone,
/// tells the hardware to take just that range from just that device, after all it was
/// told before, and returns the frame behind the mapping. Where the layer is down the
/// frame is returned all the same, and nothing else changes.
pub proof fn law_release_takes_the_mapping_away(
    mapping: IommuMapping,
    slot: &mut Option<IommuState>,
    frames: &mut BumpAllocator,
    r: Result<(), IommuError>,
)
    requires
        call_ensures(IommuMapping::release, (mapping, slot, frames), r),
    ensures
        ({
            let before = iommu_of(*old(slot));
            let after = iommu_of(*final(slot));
            &&& final(frames)@.free_list == old(frames)@.free_list.push(mapping@.frame)
            &&& final(frames)@.regions == old(frames)@.regions
            &&& final(frames)@.current_region == old(frames)@.current_region
            &&& final(frames)@.next == old(frames)@.next
            &&& r is Ok <==> before.initialised
            &&& r is Ok ==> {
                &&& after.initialised
                &&& after.active == before.active.remove(mapping@.phys_start)
                &&& after.commands.len() == before.commands.len() + 1
                &&& after.commands.take(before.commands.len() as int) == before.commands
                &&& after.commands[before.commands.len() as int] == (HalCommand::UnmapRange {
                    device_id: mapping@.device_id,
                    phys_start: mapping@.phys_start,
                    length: mapping@.length,
                })
            }
            &&& r is Err ==> r == Err::<(), _>(IommuError::NotInitialised) && after == before
        }),
{
    let before = iommu_of(*old(slot));
    let after = iommu_of(*final(slot));
    if r is Ok {
        assert(after.commands.take(before.commands.len() as int) =~= before.commands);
    }
}

/// The platform layer gets every command that waits, in order, and none of them a
/// second time; the accounts stay as they are.
pub proof fn law_commands_are_taken_once(
    slot: &mut Option<IommuState>,
    commands: Vec<HalCommand>,
)
    requires
        call_ensures(take_commands, (slot,), commands),
    ensures
        commands@ == iommu_of(*old(slot)).commands,
        iommu_of(*final(slot)).commands.len() == 0,
        iommu_of(*final(slot)).active == iommu_of(*old(slot)).active,
        iommu_of(*final(slot)).initialised == iommu_of(*old(slot)).initialised,
{
}

} // verus!
