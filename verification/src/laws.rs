//! What holds of the control plane as a whole: frames, mappings and regions agree
//! with each other at boot, and each operation keeps it so. What follows for whole
//! courses of operations stands in [`crate::machine`].
use vstd::prelude::*;

#[allow(unused_imports)]
use crate::capability::laws::{law_live_until_revoked, law_table_stays_well_formed, TableEvent};
#[allow(unused_imports)]
use crate::capability::{Capability, CapabilityId, CapabilityKind, CapabilityRights, TableState};
#[allow(unused_imports)]
use crate::ffi::{compute_rights, region_rights, FfiStatus, RegionState};
#[allow(unused_imports)]
use crate::memory::allocator::{FrameState, PAGE_SIZE};
#[allow(unused_imports)]
use crate::memory::iommu::{IommuPermissions, IommuTable, MappingState};
#[allow(unused_imports)]
use crate::memory::isolation::{
    device_may, law_access_needs_mapping, law_mapping_grants_access, law_release_revokes_access,
    HardwareTables,
};
#[allow(unused_imports)]
use crate::memory::laws::{
    law_adding_regions_keeps_account, law_allocation_counts_down, law_allocation_is_fresh,
    law_empty_allocator_accounts_for_nothing, law_release_counts_up, law_release_ends_ownership,
    pairwise_disjoint,
};
#[allow(unused_imports)]
use crate::memory::{usable_ranges, MemoryRegion};
#[allow(unused_imports)]
use crate::KernelState;

verus! {

impl KernelState {
    /// Whether the parts of the kernel agree: `owned` are the frames in use, `live`
    /// the mappings in place, by address, and `hardware` what the hardware's tables
    /// held when the IOMMU layer's queue was empty. A mapped frame is in use, and a
    /// registered region has its mapping.
    pub open spec fn consistent(
        self,
        hardware: HardwareTables,
        live: Map<u64, MappingState>,
        owned: Set<u64>,
    ) -> bool {
        &&& self.frames.accounts_for(owned)
        &&& self.iommu.initialised
        &&& self.iommu.tracks(hardware, live)
        &&& self.capabilities.wf()
        &&& forall|p: u64| #[trigger]
            live.dom().contains(p) ==> owned.contains(p) && live[p].frame == p && live[p].length
                <= PAGE_SIZE
        &&& forall|p: u64| #[trigger]
            self.regions.dom().contains(p) ==> {
                &&& live.dom().contains(p)
                &&& live[p] == self.regions[p].mapping
                &&& self.regions[p].phys_addr == p
                &&& self.regions[p].length == live[p].length
            }
    }
}

/// A kernel that boots with usable regions that do not overlap is consistent: no
/// frame is in use and no device has access to anything.
pub proof fn law_boot_is_consistent(regions: Seq<MemoryRegion>)
    requires
        pairwise_disjoint(usable_ranges(regions)),
    ensures
        KernelState::fresh().after_init(regions).consistent(
            Map::empty(),
            Map::empty(),
            Set::empty(),
        ),
{
    let ranges = usable_ranges(regions);
    assert(FrameState::empty().regions + ranges =~= ranges);
    law_empty_allocator_accounts_for_nothing();
    law_adding_regions_keeps_account(FrameState::empty(), ranges, Set::empty());
}

/// Initialising a running kernel again keeps it consistent, whatever the frames in use
/// and the mappings in place, as long as the new regions overlap neither each other nor
/// the ones in place.
pub proof fn law_initialising_keeps_consistency(
    kernel: KernelState,
    hardware: HardwareTables,
    live: Map<u64, MappingState>,
    owned: Set<u64>,
    regions: Seq<MemoryRegion>,
)
    requires
        kernel.consistent(hardware, live, owned),
        pairwise_disjoint(kernel.frames.regions + usable_ranges(regions)),
    ensures
        kernel.after_init(regions).consistent(hardware, live, owned),
{
    law_adding_regions_keeps_account(kernel.frames, usable_ranges(regions), owned);
}

/// Allocating a frame keeps the kernel consistent; the frame, if there is one, is in
/// use from then on.
pub proof fn law_allocating_keeps_consistency(
    kernel: KernelState,
    hardware: HardwareTables,
    live: Map<u64, MappingState>,
    owned: Set<u64>,
)
    requires
        kernel.consistent(hardware, live, owned),
    ensures
        kernel.with_frames(kernel.frames.after_allocate()).consistent(
            hardware,
            live,
            match kernel.frames.allocation() {
                Some(addr) => owned.insert(addr),
                None => owned,
            },
        ),
{
    law_allocation_is_fresh(kernel.frames, owned);
}

/// Giving back a frame in use that is not mapped keeps the kernel consistent.
pub proof fn law_giving_back_keeps_consistency(
    kernel: KernelState,
    hardware: HardwareTables,
    live: Map<u64, MappingState>,
    owned: Set<u64>,
    addr: u64,
)
    requires
        kernel.consistent(hardware, live, owned),
        owned.contains(addr),
        !live.dom().contains(addr),
    ensures
        kernel.with_frames(kernel.frames.after_free(addr)).consistent(
            hardware,
            live,
            owned.remove(addr),
        ),
{
    law_release_ends_ownership(kernel.frames, owned, addr);
}

/// Mapping a frame in use, or a part of it, keeps the kernel consistent.
pub proof fn law_mapping_keeps_consistency(
    kernel: KernelState,
    hardware: HardwareTables,
    live: Map<u64, MappingState>,
    owned: Set<u64>,
    mapping: MappingState,
    capability: Capability,
)
    requires
        kernel.consistent(hardware, live, owned),
        owned.contains(mapping.phys_start),
        mapping.frame == mapping.phys_start,
        mapping.length <= PAGE_SIZE,
        kernel.iommu.map_refusal(kernel.capabilities, mapping.phys_start, capability) is None,
    ensures
        kernel.with_iommu(kernel.iommu.after_map(mapping)).consistent(
            hardware,
            live.insert(mapping.phys_start, mapping),
            owned,
        ),
{
    law_mapping_grants_access(
        kernel.iommu,
        hardware,
        live,
        mapping,
        kernel.capabilities,
        capability,
    );
    assert(!live.dom().contains(mapping.phys_start));
}

/// Releasing a mapping that belongs to no region keeps the kernel consistent; its
/// frame is no longer in use.
pub proof fn law_unmapping_keeps_consistency(
    kernel: KernelState,
    hardware: HardwareTables,
    live: Map<u64, MappingState>,
    owned: Set<u64>,
    mapping: MappingState,
)
    requires
        kernel.consistent(hardware, live, owned),
        live.dom().contains(mapping.phys_start),
        live[mapping.phys_start] == mapping,
        !kernel.regions.dom().contains(mapping.phys_start),
    ensures
        kernel.with_iommu(kernel.iommu.after_release(mapping)).with_frames(
            kernel.frames.after_free(mapping.frame),
        ).consistent(
            hardware,
            live.remove(mapping.phys_start),
            owned.remove(mapping.phys_start),
        ),
{
    law_release_revokes_access(kernel.iommu, hardware, live, mapping);
    law_release_ends_ownership(kernel.frames, owned, mapping.phys_start);
}

/// Issuing and revoking capabilities keeps the kernel consistent.
pub proof fn law_capability_operations_keep_consistency(
    kernel: KernelState,
    hardware: HardwareTables,
    live: Map<u64, MappingState>,
    owned: Set<u64>,
    events: Seq<TableEvent>,
)
    requires
        kernel.consistent(hardware, live, owned),
        kernel.capabilities.has_ids_for(events),
    ensures
        kernel.with_capabilities(kernel.capabilities.after_all(events)).consistent(
            hardware,
            live,
            owned,
        ),
{
    law_table_stays_well_formed(kernel.capabilities, events);
}

/// In a consistent kernel a registration whose arguments are in order succeeds
/// exactly when a frame is available, and fails for want of memory otherwise. A new
/// region takes a frame that was not in use and no region had, and the kernel stays
/// consistent.
pub proof fn law_registration_keeps_consistency(
    kernel: KernelState,
    hardware: HardwareTables,
    live: Map<u64, MappingState>,
    owned: Set<u64>,
    length: usize,
    device_id: u64,
)
    requires
        kernel.consistent(hardware, live, owned),
        kernel.capabilities.has_free_id(),
        0 < length <= PAGE_SIZE,
    ensures
        kernel.register_status() == if kernel.frames.available() > 0 {
            FfiStatus::Success
        } else {
            FfiStatus::OutOfMemory
        },
        match kernel.frames.allocation() {
            Some(addr) => {
                let mapping = kernel.new_region(addr, length, device_id).mapping;
                &&& !owned.contains(addr)
                &&& !kernel.regions.dom().contains(addr)
                &&& kernel.after_register(length, device_id).consistent(
                    hardware,
                    live.insert(addr, mapping),
                    owned.insert(addr),
                )
            },
            None => kernel.after_register(length, device_id).consistent(hardware, live, owned),
        },
{
    law_allocation_counts_down(kernel.frames);
    law_allocation_is_fresh(kernel.frames, owned);
    if let Some(addr) = kernel.frames.allocation() {
        let mapping = kernel.new_region(addr, length, device_id).mapping;
        assert(!live.dom().contains(addr));
        assert(!kernel.iommu.active.dom().contains(addr));
        law_mapping_grants_access(
            kernel.iommu,
            hardware,
            live,
            mapping,
            kernel.capabilities.after_issue(CapabilityKind::DmaBuffer, region_rights()),
            kernel.capabilities.next_capability(CapabilityKind::DmaBuffer, region_rights()),
        );
    }
}

/// In a consistent kernel the release of a region takes its device's access away,
/// ends the use of its frame, and leaves the kernel consistent.
pub proof fn law_release_keeps_consistency(
    kernel: KernelState,
    hardware: HardwareTables,
    live: Map<u64, MappingState>,
    owned: Set<u64>,
    phys_addr: u64,
)
    requires
        kernel.consistent(hardware, live, owned),
        kernel.regions.dom().contains(phys_addr),
    ensures
        kernel.release_status(phys_addr) == FfiStatus::Success,
        kernel.after_release(phys_addr).consistent(
            hardware,
            live.remove(phys_addr),
            owned.remove(phys_addr),
        ),
        kernel.after_release(phys_addr).frames.allocation() == Some(phys_addr),
{
    assert(live.dom().contains(phys_addr));
    law_release_revokes_access(kernel.iommu, hardware, live, live[phys_addr]);
    law_release_ends_ownership(kernel.frames, owned, phys_addr);
}

/// Releasing the region that was just registered undoes the registration: the
/// regions and the accounts of the IOMMU are as before, as many frames are
/// available, and the frame is the next one handed out. Only the capability that
/// was issued for the region remains.
pub proof fn law_release_undoes_registration(
    kernel: KernelState,
    hardware: HardwareTables,
    live: Map<u64, MappingState>,
    owned: Set<u64>,
    length: usize,
    device_id: u64,
)
    requires
        kernel.consistent(hardware, live, owned),
        kernel.capabilities.has_free_id(),
        0 < length <= PAGE_SIZE,
        kernel.register_status() == FfiStatus::Success,
    ensures
        ({
            let addr = kernel.frames.allocation()->0;
            let registered = kernel.after_register(length, device_id);
            let released = registered.after_release(addr);
            &&& registered.release_status(addr) == FfiStatus::Success
            &&& released.regions == kernel.regions
            &&& released.iommu.active == kernel.iommu.active
            &&& released.frames.available() == kernel.frames.available()
            &&& released.frames.allocation() == Some(addr)
            &&& released.capabilities == registered.capabilities
            &&& released.release_status(addr) == FfiStatus::NotFound
        }),
{
    law_registration_keeps_consistency(kernel, hardware, live, owned, length, device_id);
    law_allocation_counts_down(kernel.frames);
    let addr = kernel.frames.allocation()->0;
    let registered = kernel.after_register(length, device_id);
    let released = registered.after_release(addr);
    law_release_counts_up(registered.frames, addr);
    assert(released.regions =~= kernel.regions);
    assert(!live.dom().contains(addr)) by {
        if live.dom().contains(addr) {
            assert(owned.contains(addr));
        }
    }
    assert(released.iommu.active =~= kernel.iommu.active);
}

/// In a consistent kernel whose queue of commands is empty, a device that may touch a
/// byte does so within a frame in use.
pub proof fn law_device_reach_stays_in_owned_frames(
    kernel: KernelState,
    hardware: HardwareTables,
    live: Map<u64, MappingState>,
    owned: Set<u64>,
    device_id: u64,
    addr: int,
    wanted: IommuPermissions,
)
    requires
        kernel.consistent(hardware, live, owned),
        kernel.iommu.commands.len() == 0,
        device_may(hardware, device_id, addr, wanted),
    ensures
        exists|frame: u64| #[trigger]
            owned.contains(frame) && frame <= addr < frame + PAGE_SIZE,
{
    law_access_needs_mapping(kernel.iommu, hardware, live, device_id, addr, wanted);
    let p = choose|p: u64|
        {
            &&& #[trigger] live.dom().contains(p)
            &&& live[p].device_id == device_id
            &&& p <= addr < p + live[p].length
            &&& live[p].permissions.includes(wanted)
        };
    assert(owned.contains(p));
}

/// A handle that was issued for compute work is good until it is revoked, whatever
/// else happens to the capability table.
pub proof fn law_issued_handle_is_good(
    kernel: KernelState,
    events: Seq<TableEvent>,
    later: KernelState,
)
    requires
        kernel.capabilities.wf(),
        kernel.capabilities.has_free_id(),
        kernel.capabilities.after_issue(
            CapabilityKind::ComputeRegion,
            compute_rights(),
        ).has_ids_for(events),
        forall|i: int|
            0 <= i < events.len() ==> #[trigger] events[i] != (TableEvent::Revoke {
                id: CapabilityId(kernel.capabilities.next_id),
            }),
        later.capabilities == kernel.capabilities.after_issue(
            CapabilityKind::ComputeRegion,
            compute_rights(),
        ).after_all(events),
    ensures
        later.handle_status(kernel.capabilities.next_id) == FfiStatus::Success,
{
    let issued = kernel.capabilities.after_issue(CapabilityKind::ComputeRegion, compute_rights());
    law_live_until_revoked(issued, events, CapabilityId(kernel.capabilities.next_id));
    law_table_stays_well_formed(issued, events);
    assert((32u16 | 1u16) & 32u16 == 32u16) by (bit_vector);
}

} // verus!
