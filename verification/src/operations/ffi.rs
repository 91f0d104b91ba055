//! What the operations of the data plane do, and what becomes of the kernel at boot.
use vstd::prelude::*;

#[allow(unused_imports)]
use crate::capability::{table_of, Capability, CapabilityKind, TableState};
#[allow(unused_imports)]
use crate::ffi::{
    issue_compute_capability, region_rights, register_compute_region, regions_of,
    release_compute_region, validate_capability_handle, FfiStatus,
};
#[allow(unused_imports)]
use crate::laws::{law_registration_keeps_consistency, law_release_keeps_consistency};
#[allow(unused_imports)]
use crate::memory::allocator::FrameState;
#[allow(unused_imports)]
use crate::memory::iommu::{HalCommand, IommuPermissions, IommuTable, MappingState};
#[allow(unused_imports)]
use crate::memory::isolation::{
    after_commands, device_may, law_access_needs_mapping, law_carried_out_commands_keep_track,
    HardwareTables,
};
#[allow(unused_imports)]
use crate::memory::laws::{law_allocation_counts_down, law_owned_frames_do_not_overlap};
#[allow(unused_imports)]
use crate::memory::MemoryMap;
#[allow(unused_imports)]
use super::memory::stays_below_top;
#[allow(unused_imports)]
use crate::{init, Kernel, KernelState};

verus! {

// ── The kernel ───────────────────────────────────────────────────────────────

/// A new kernel has no memory, no mapping, no capability, no endpoint, no nonce and no
/// region, and its subsystems are down.
pub proof fn law_kernel_starts_empty(kernel: Kernel, n: u64)
    requires
        call_ensures(Kernel::new, (), kernel),
    ensures
        kernel@.frames.regions.len() == 0,
        kernel@.frames.free_list.len() == 0,
        kernel@.frames.current_region == 0,
        !kernel@.iommu.initialised,
        !kernel@.iommu.active.dom().contains(n),
        kernel@.iommu.commands.len() == 0,
        kernel@.capabilities.next_id == 1,
        !kernel@.capabilities.entries.dom().contains(n),
        !kernel@.fabric.initialised,
        !kernel@.fabric.endpoints.dom().contains(n),
        !kernel@.tvdp.initialised,
        !kernel@.tvdp.seen_nonces.contains(n),
        !kernel@.regions.dom().contains(n),
        !regions_of(None).dom().contains(n),
{
}

/// Initialising the kernel brings every subsystem up, does to the frame allocator what
/// the memory subsystem's own initialisation does, and keeps all mappings, waiting
/// commands, capabilities, endpoints, nonces and regions.
pub proof fn law_init_brings_everything_up(
    kernel: &mut Kernel,
    map: &MemoryMap<'_>,
    frames: &mut crate::memory::allocator::BumpAllocator,
    fits: bool,
)
    requires
        call_ensures(init, (kernel, map), ()),
        call_ensures(crate::memory::init, (frames, map), ()),
        call_ensures(MemoryMap::ranges_end, (map,), fits),
    ensures
        fits ==> call_requires(init, (kernel, map)),
        old(frames)@ == old(kernel)@.frames ==> final(kernel)@.frames == final(frames)@,
        final(kernel)@.iommu.initialised,
        final(kernel)@.iommu.active == old(kernel)@.iommu.active,
        final(kernel)@.iommu.commands == old(kernel)@.iommu.commands,
        final(kernel)@.capabilities == old(kernel)@.capabilities,
        final(kernel).capabilities is Some,
        final(kernel)@.fabric.initialised,
        final(kernel)@.fabric.endpoints == old(kernel)@.fabric.endpoints,
        final(kernel)@.tvdp.initialised,
        final(kernel)@.tvdp.seen_nonces == old(kernel)@.tvdp.seen_nonces,
        final(kernel)@.regions == old(kernel)@.regions,
{
}

/// The numbers of the answers on the C side.
pub proof fn law_codes(status: FfiStatus, code: i32)
    requires
        call_ensures(FfiStatus::code, (status,), code),
    ensures
        status == FfiStatus::Success <==> code == 0,
        status == FfiStatus::InvalidArgument <==> code == -1,
        status == FfiStatus::OutOfMemory <==> code == -2,
        status == FfiStatus::CapabilityDenied <==> code == -3,
        status == FfiStatus::AlreadyRegistered <==> code == -4,
        status == FfiStatus::NotFound <==> code == -5,
        status == FfiStatus::IommuError <==> code == -6,
{
}

// ── Compute regions ──────────────────────────────────────────────────────────

/// The table has one more capability, for a DMA buffer that may be read, written and
/// used for DMA (bits 0, 1 and 4); every other record is as before.
pub open spec fn one_more_buffer_capability(before: TableState, after: TableState) -> bool {
    &&& before.next_id < u64::MAX ==> after.next_id == before.next_id + 1
    &&& after.entries.dom().contains(before.next_id)
    &&& after.entries[before.next_id].id.0 == before.next_id
    &&& after.entries[before.next_id].kind == CapabilityKind::DmaBuffer
    &&& after.entries[before.next_id].rights.bits == 19
    &&& forall|id: u64|
        id != before.next_id ==> {
            &&& #[trigger] after.entries.dom().contains(id) <==> before.entries.dom().contains(id)
            &&& before.entries.dom().contains(id) ==> after.entries[id] == before.entries[id]
        }
}

/// When a registration succeeds, and what it answers otherwise: -1 for arguments that
/// are out of range, whatever the state, and then nothing changes; -2 exactly where no
/// frame is left; -6 where the IOMMU is down; -4 where the frame is mapped already; and
/// 0 in all other cases. Only 0 writes an address, and it is that of the frame which the
/// allocator hands out.
pub proof fn law_registration_answers(
    kernel: &mut Kernel,
    length: usize,
    device_id: u64,
    out: Option<&mut u64>,
    code: i32,
)
    requires
        call_ensures(register_compute_region, (kernel, length, device_id, out), code),
    ensures
        ({
            let before = old(kernel)@;
            let in_range = out is Some && 1 <= length && length <= 4096;
            let frame = before.frames.allocation();
            let mapped = before.iommu.active.dom().contains(frame->0);
            &&& code == -1 <==> !in_range
            &&& code == -1 ==> *final(kernel) == *old(kernel)
            &&& code == -2 <==> in_range && frame is None
            &&& code == -6 <==> in_range && frame is Some && !before.iommu.initialised
            &&& code == -4 <==> in_range && frame is Some && before.iommu.initialised && mapped
            &&& code == 0 <==> in_range && frame is Some && before.iommu.initialised && !mapped
            &&& out is Some ==> *final(out->0) == if code == 0 {
                frame->0
            } else {
                *(out->0)
            }
        }),
{
}

/// What a registration changes. With arguments in range it issues a capability in any
/// case. One that succeeds takes the frame, and records a region at its address with the
/// length that was asked for, the new capability, and a mapping of just that length for
/// just that device, to read and to write (bits 0 and 1); the accounts of the IOMMU name
/// the device there, and the hardware is told to map just that. Every other region stays
/// as it was. One that fails leaves regions and mappings alone, and gives a frame that it
/// took back.
pub proof fn law_registration_makes_the_region_asked_for(
    kernel: &mut Kernel,
    length: usize,
    device_id: u64,
    out: Option<&mut u64>,
    code: i32,
    other: u64,
)
    requires
        call_ensures(register_compute_region, (kernel, length, device_id, out), code),
        code != -1,
    ensures
        ({
            let before = old(kernel)@;
            let after = final(kernel)@;
            let addr = before.frames.allocation()->0;
            let region = after.regions[addr];
            &&& one_more_buffer_capability(before.capabilities, after.capabilities)
            &&& after.fabric == before.fabric
            &&& after.tvdp == before.tvdp
            &&& after.iommu.initialised == before.iommu.initialised
            &&& code == 0 ==> {
                &&& after.regions.dom().contains(addr)
                &&& region.phys_addr == addr
                &&& region.length == length
                &&& region.capability == after.capabilities.entries[before.capabilities.next_id]
                &&& region.mapping.phys_start == addr
                &&& region.mapping.frame == addr
                &&& region.mapping.length == length
                &&& region.mapping.device_id == device_id
                &&& region.mapping.permissions.bits == 3
                &&& other != addr ==> {
                    &&& after.regions.dom().contains(other) <==> before.regions.dom().contains(other)
                    &&& before.regions.dom().contains(other) ==> after.regions[other]
                        == before.regions[other]
                }
                &&& after.iommu.commands.len() > before.iommu.commands.len()
                &&& after.iommu.commands.take(before.iommu.commands.len() as int)
                    == before.iommu.commands
                &&& after.iommu.commands[before.iommu.commands.len() as int]
                    == (HalCommand::MapRange {
                    device_id,
                    phys_start: addr,
                    length,
                    permissions: IommuPermissions { bits: 3 },
                })
                &&& !before.regions.dom().contains(addr) ==> {
                    &&& after.frames == before.frames.after_allocate()
                    &&& after.iommu.active == before.iommu.active.insert(addr, device_id)
                    &&& after.iommu.commands.len() == before.iommu.commands.len() + 1
                }
                &&& before.regions.dom().contains(addr) ==> {
                    let displaced = before.regions[addr].mapping;
                    &&& after.frames.free_list == before.frames.after_allocate().free_list.push(
                        displaced.frame,
                    )
                    &&& after.frames.regions == before.frames.regions
                    &&& after.frames.current_region == before.frames.after_allocate().current_region
                    &&& after.frames.next == before.frames.after_allocate().next
                    &&& after.iommu.active == before.iommu.active.insert(addr, device_id).remove(
                        displaced.phys_start,
                    )
                    &&& after.iommu.commands.len() == before.iommu.commands.len() + 2
                    &&& after.iommu.commands[before.iommu.commands.len() as int + 1]
                        == (HalCommand::UnmapRange {
                        device_id: displaced.device_id,
                        phys_start: displaced.phys_start,
                        length: displaced.length,
                    })
                }
            }
            &&& code != 0 ==> {
                &&& after.regions == before.regions
                &&& after.iommu == before.iommu
                &&& before.frames.allocation() is Some ==> {
                    &&& after.frames.free_list == before.frames.after_allocate().free_list.push(addr)
                    &&& after.frames.regions == before.frames.regions
                    &&& after.frames.current_region == before.frames.after_allocate().current_region
                    &&& after.frames.next == before.frames.after_allocate().next
                }
                &&& before.frames.allocation() is None ==> after.frames
                    == before.frames.after_allocate()
            }
        }),
{
    assert(((1u16 | 2u16) | 16u16) == 19u16) by (bit_vector);
    assert((1u8 | 2u8) == 3u8) by (bit_vector);
    let before = old(kernel)@;
    let after = final(kernel)@;
    if code == 0 {
        assert(after.iommu.commands.take(before.iommu.commands.len() as int)
            =~= before.iommu.commands);
    }
}

/// A registration can be asked for whenever there is an id for its capability and the
/// memory stays two pages below the end of the address space, and with arguments that
/// are out of range in any case.
pub proof fn law_registration_needs_no_more(
    kernel: &mut Kernel,
    length: usize,
    device_id: u64,
    out: Option<&mut u64>,
)
    requires
        out is None || length == 0 || length > 4096 || (old(kernel)@.capabilities.next_id < u64::MAX
            && stays_below_top(old(kernel)@.frames)),
    ensures
        call_requires(register_compute_region, (kernel, length, device_id, out)),
{
    if stays_below_top(old(kernel)@.frames) {
        assert(old(kernel)@.frames.search_in_range());
    }
}

/// Once the queued commands are carried out, the mappings in place are what devices
/// reach.
proof fn lemma_reach_once_carried_out(
    table: IommuTable,
    hardware: HardwareTables,
    live: Map<u64, MappingState>,
    device: u64,
    byte: int,
    wanted: IommuPermissions,
)
    requires
        table.tracks(hardware, live),
    ensures
        device_may(after_commands(hardware, table.commands), device, byte, wanted)
            <==> exists|p: u64|
            {
                &&& #[trigger] live.dom().contains(p)
                &&& live[p].device_id == device
                &&& p <= byte < p + live[p].length
                &&& live[p].permissions.includes(wanted)
            },
{
    law_carried_out_commands_keep_track(table, hardware, live);
    law_access_needs_mapping(
        table.after_commands_taken(),
        after_commands(hardware, table.commands),
        live,
        device,
        byte,
        wanted,
    );
}

/// After a successful registration in a consistent kernel, once the queued commands are
/// carried out: within the frame of the new region, a device may touch a byte exactly if
/// it is the device that was named, the byte lies within the length that was asked for
/// from the address that was written, and it wants to read or write and nothing else.
/// Outside that frame every device may touch what it could before.
pub proof fn law_registered_region_is_reachable(
    kernel: &mut Kernel,
    length: usize,
    device_id: u64,
    out: Option<&mut u64>,
    code: i32,
    hardware: HardwareTables,
    live: Map<u64, MappingState>,
    owned: Set<u64>,
    device: u64,
    byte: int,
    wanted: IommuPermissions,
)
    requires
        call_ensures(register_compute_region, (kernel, length, device_id, out), code),
        code == 0,
        old(kernel)@.consistent(hardware, live, owned),
        old(kernel)@.capabilities.next_id < u64::MAX,
    ensures
        ({
            let start = *final(out->0);
            let tables = after_commands(hardware, final(kernel)@.iommu.commands);
            let tables_before = after_commands(hardware, old(kernel)@.iommu.commands);
            &&& start <= byte < start + 4096 ==> (device_may(tables, device, byte, wanted) <==> {
                &&& device == device_id
                &&& byte < start + length
                &&& wanted.bits & !3u8 == 0
            })
            &&& !(start <= byte < start + 4096) ==> (device_may(tables, device, byte, wanted)
                <==> device_may(tables_before, device, byte, wanted))
        }),
{
    let before = old(kernel)@;
    let after = final(kernel)@;
    let start = *final(out->0);
    let y = wanted.bits;
    assert((1u8 | 2u8) == 3u8) by (bit_vector);
    assert((3u8 & y == y) <==> (y & !3u8 == 0)) by (bit_vector);
    law_allocation_counts_down(before.frames);
    law_registration_keeps_consistency(before, hardware, live, owned, length, device_id);
    let mapping = before.new_region(start, length, device_id).mapping;
    let new_live = live.insert(start, mapping);
    let new_owned = owned.insert(start);
    lemma_reach_once_carried_out(after.iommu, hardware, new_live, device, byte, wanted);
    lemma_reach_once_carried_out(before.iommu, hardware, live, device, byte, wanted);
    assert(!live.dom().contains(start)) by {
        if live.dom().contains(start) {
            assert(owned.contains(start));
        }
    }
    if start <= byte < start + 4096 {
        assert forall|p: u64| #[trigger]
            new_live.dom().contains(p) && p <= byte < p + new_live[p].length implies p == start by {
            if p != start {
                law_owned_frames_do_not_overlap(after.frames, new_owned, p, start);
            }
        }
        assert(new_live.dom().contains(start));
    } else {
        assert forall|p: u64| #[trigger]
            live.dom().contains(p) implies new_live.dom().contains(p) && new_live[p] == live[p] by {
        }
        assert forall|p: u64|
            #[trigger] new_live.dom().contains(p) && p <= byte < p
                + new_live[p].length implies live.dom().contains(p) && live[p] == new_live[p] by {
        }
    }
}

/// When a release succeeds, and what it changes. It answers 0 exactly where a region is
/// on record at the address, and -5 otherwise, when nothing changes. A release takes that
/// region off the record and no other, returns the frame behind its mapping, and, where
/// the IOMMU is up, takes its address off the accounts and tells the hardware to take
/// just that range from just that device.
pub proof fn law_release_ends_the_region(
    kernel: &mut Kernel,
    phys_addr: u64,
    code: i32,
    other: u64,
)
    requires
        call_ensures(release_compute_region, (kernel, phys_addr), code),
    ensures
        ({
            let before = old(kernel)@;
            let after = final(kernel)@;
            let mapping = before.regions[phys_addr].mapping;
            &&& code == 0 <==> before.regions.dom().contains(phys_addr)
            &&& code != 0 ==> code == -5 && after == before
            &&& after.capabilities == before.capabilities
            &&& after.fabric == before.fabric
            &&& after.tvdp == before.tvdp
            &&& !after.regions.dom().contains(phys_addr)
            &&& other != phys_addr ==> {
                &&& after.regions.dom().contains(other) <==> before.regions.dom().contains(other)
                &&& before.regions.dom().contains(other) ==> after.regions[other]
                    == before.regions[other]
            }
            &&& code == 0 ==> {
                &&& after.frames.free_list == before.frames.free_list.push(mapping.frame)
                &&& after.frames.regions == before.frames.regions
                &&& after.frames.current_region == before.frames.current_region
                &&& after.frames.next == before.frames.next
                &&& after.iommu.initialised == before.iommu.initialised
                &&& !before.iommu.initialised ==> after.iommu == before.iommu
                &&& before.iommu.initialised ==> {
                    &&& after.iommu.active == before.iommu.active.remove(mapping.phys_start)
                    &&& after.iommu.commands.len() == before.iommu.commands.len() + 1
                    &&& after.iommu.commands.take(before.iommu.commands.len() as int)
                        == before.iommu.commands
                    &&& after.iommu.commands[before.iommu.commands.len() as int]
                        == (HalCommand::UnmapRange {
                        device_id: mapping.device_id,
                        phys_start: mapping.phys_start,
                        length: mapping.length,
                    })
                }
            }
        }),
{
    let before = old(kernel)@;
    let after = final(kernel)@;
    if code == 0 && before.iommu.initialised {
        assert(after.iommu.commands.take(before.iommu.commands.len() as int)
            =~= before.iommu.commands);
    }
}

/// After a successful release in a consistent kernel, once the queued commands are
/// carried out: no device may touch a byte of the region's frame, and outside that frame
/// every device may touch what it could before.
pub proof fn law_released_region_is_out_of_reach(
    kernel: &mut Kernel,
    phys_addr: u64,
    code: i32,
    hardware: HardwareTables,
    live: Map<u64, MappingState>,
    owned: Set<u64>,
    device: u64,
    byte: int,
    wanted: IommuPermissions,
)
    requires
        call_ensures(release_compute_region, (kernel, phys_addr), code),
        code == 0,
        old(kernel)@.consistent(hardware, live, owned),
    ensures
        ({
            let tables = after_commands(hardware, final(kernel)@.iommu.commands);
            let tables_before = after_commands(hardware, old(kernel)@.iommu.commands);
            &&& phys_addr <= byte < phys_addr + 4096 ==> !device_may(tables, device, byte, wanted)
            &&& !(phys_addr <= byte < phys_addr + 4096) ==> (device_may(
                tables,
                device,
                byte,
                wanted,
            ) <==> device_may(tables_before, device, byte, wanted))
        }),
{
    let before = old(kernel)@;
    let after = final(kernel)@;
    law_release_keeps_consistency(before, hardware, live, owned, phys_addr);
    let new_live = live.remove(phys_addr);
    lemma_reach_once_carried_out(after.iommu, hardware, new_live, device, byte, wanted);
    lemma_reach_once_carried_out(before.iommu, hardware, live, device, byte, wanted);
    assert(live.dom().contains(phys_addr));
    if phys_addr <= byte < phys_addr + 4096 {
        assert forall|p: u64| #[trigger] new_live.dom().contains(p) implies !(p <= byte < p
            + new_live[p].length) by {
            assert(live.dom().contains(p));
            if p <= byte < p + new_live[p].length {
                law_owned_frames_do_not_overlap(before.frames, owned, p, phys_addr);
            }
        }
    } else {
        assert forall|p: u64|
            #[trigger] live.dom().contains(p) && p <= byte < p
                + live[p].length implies new_live.dom().contains(p) && new_live[p] == live[p] by {
        }
        assert forall|p: u64| #[trigger] new_live.dom().contains(p) implies live.dom().contains(p)
            && live[p] == new_live[p] by {
        }
    }
}

// ── Compute capabilities ─────────────────────────────────────────────────────

/// Issuing a compute capability answers 0 and writes the next id as the handle, wherever
/// there is a place for it; the table then has a capability for a compute region under
/// that id that may execute and read (bits 5 and 0) and nothing else, and every other
/// record is as before. Without a place for the handle the answer is -1, and nothing
/// changes.
pub proof fn law_compute_capability_is_issued(
    kernel: &mut Kernel,
    device_id: u64,
    flops_budget: u64,
    out: Option<&mut u64>,
    code: i32,
    other: u64,
)
    requires
        call_ensures(issue_compute_capability, (kernel, device_id, flops_budget, out), code),
    ensures
        ({
            let before = old(kernel)@;
            let after = final(kernel)@;
            let handle = before.capabilities.next_id;
            &&& out is None ==> code == -1 && *final(kernel) == *old(kernel)
            &&& out is Some ==> {
                &&& code == 0
                &&& *final(out->0) == handle
                &&& after.capabilities.entries.dom().contains(handle)
                &&& after.capabilities.entries[handle].id.0 == handle
                &&& after.capabilities.entries[handle].kind == CapabilityKind::ComputeRegion
                &&& after.capabilities.entries[handle].rights.bits == 33
                &&& handle < u64::MAX ==> after.capabilities.next_id == handle + 1
                &&& other != handle ==> {
                    &&& after.capabilities.entries.dom().contains(other)
                        <==> before.capabilities.entries.dom().contains(other)
                    &&& before.capabilities.entries.dom().contains(other)
                        ==> after.capabilities.entries[other] == before.capabilities.entries[other]
                }
                &&& after.frames == before.frames
                &&& after.iommu == before.iommu
                &&& after.fabric == before.fabric
                &&& after.tvdp == before.tvdp
                &&& after.regions == before.regions
            }
            &&& out is None || handle < u64::MAX ==> call_requires(
                issue_compute_capability,
                (kernel, device_id, flops_budget, out),
            )
        }),
{
    assert((32u16 | 1u16) == 33u16) by (bit_vector);
}

/// A handle is good exactly if it is live in the capability table and the rights on
/// record for it have the EXECUTE flag (bit 5), for every capability in the table;
/// otherwise the answer is -3. Nothing changes.
pub proof fn law_handle_is_good_if_it_may_execute(kernel: &mut Kernel, cap_handle: u64, code: i32)
    requires
        call_ensures(validate_capability_handle, (kernel, cap_handle), code),
        old(kernel)@.capabilities.wf(),
    ensures
        ({
            let table = old(kernel)@.capabilities;
            &&& code == 0 <==> table.entries.dom().contains(cap_handle)
                && table.entries[cap_handle].rights.bits & 32 != 0
            &&& code == 0 || code == -3
            &&& final(kernel)@ == old(kernel)@
        }),
{
    let x = old(kernel)@.capabilities.entries[cap_handle].rights.bits;
    assert((x & 32 == 32) <==> (x & 32 != 0)) by (bit_vector);
}

/// The answer to a handle is success exactly if it is live and the rights on record for
/// it have the EXECUTE flag, and a denial otherwise.
pub proof fn law_handle_status(kernel: KernelState, cap_handle: u64)
    requires
        kernel.capabilities.wf(),
    ensures
        kernel.handle_status(cap_handle) == FfiStatus::Success
            <==> kernel.capabilities.entries.dom().contains(cap_handle)
            && kernel.capabilities.entries[cap_handle].rights.bits & 32 != 0,
        kernel.handle_status(cap_handle) == FfiStatus::Success || kernel.handle_status(cap_handle)
            == FfiStatus::CapabilityDenied,
{
    let x = kernel.capabilities.entries[cap_handle].rights.bits;
    assert((x & 32 == 32) <==> (x & 32 != 0)) by (bit_vector);
}

/// A compute capability that was just issued gives a good handle.
pub proof fn law_issued_handle_is_accepted(
    kernel: &mut Kernel,
    device_id: u64,
    flops_budget: u64,
    out: Option<&mut u64>,
    code: i32,
    later: &mut Kernel,
    cap_handle: u64,
    answer: i32,
)
    requires
        call_ensures(issue_compute_capability, (kernel, device_id, flops_budget, out), code),
        call_ensures(validate_capability_handle, (later, cap_handle), answer),
        out is Some,
        old(kernel)@.capabilities.wf(),
        old(kernel)@.capabilities.next_id < u64::MAX,
    ensures
        cap_handle == *final(out->0) && old(later)@.capabilities == final(kernel)@.capabilities
            ==> answer == 0,
{
    assert((32u16 | 1u16) & 32u16 == 32u16) by (bit_vector);
}

} // verus!
