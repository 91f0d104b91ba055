//! The running machine: the kernel and the IOMMU hardware under any course of
//! operations, and what a device can reach in the course of it.
use vstd::prelude::*;

#[allow(unused_imports)]
use crate::capability::laws::TableEvent;
#[allow(unused_imports)]
use crate::capability::{Capability, CapabilityKind, TableState};
#[allow(unused_imports)]
use crate::fabric::{endpoint_rights, new_endpoint, NodeId, NodeKind};
#[allow(unused_imports)]
use crate::ffi::{region_permissions, region_rights, registrable, FfiStatus};
#[allow(unused_imports)]
use crate::laws::{
    law_allocating_keeps_consistency, law_boot_is_consistent,
    law_device_reach_stays_in_owned_frames, law_giving_back_keeps_consistency,
    law_initialising_keeps_consistency,
    law_mapping_keeps_consistency, law_registration_keeps_consistency,
    law_release_keeps_consistency, law_unmapping_keeps_consistency,
};
#[allow(unused_imports)]
use crate::memory::allocator::PAGE_SIZE;
#[allow(unused_imports)]
use crate::memory::iommu::{IommuPermissions, MappingState};
#[allow(unused_imports)]
use crate::memory::isolation::{
    after_commands, device_may, law_access_needs_mapping, law_carried_out_commands_keep_track,
    law_mapping_grants_access, law_release_revokes_access, HardwareTables,
};
#[allow(unused_imports)]
use crate::memory::laws::{law_allocation_counts_down, pairwise_disjoint};
#[allow(unused_imports)]
use crate::memory::{usable_ranges, MemoryRegion};
#[allow(unused_imports)]
use crate::tvdp::{Transfer, TvdpEvent};
#[allow(unused_imports)]
use crate::KernelState;

verus! {

// ── Events ───────────────────────────────────────────────────────────────────

/// An event in the life of a running kernel.
pub enum KernelEvent {
    /// All subsystems are initialised, for the first time or again.
    Init { regions: Seq<MemoryRegion> },
    /// The memory subsystem alone is initialised.
    InitMemory { regions: Seq<MemoryRegion> },
    /// The IOMMU layer alone is initialised.
    InitIommu,
    /// A frame is allocated, pinned or not.
    Allocate,
    /// A frame is given back, by itself or with the buffer made of it.
    GiveBack { addr: u64 },
    /// A mapping of the pinned frame at `addr` is asked for.
    MapFrame {
        addr: u64,
        length: usize,
        permissions: IommuPermissions,
        device_id: u64,
        capability: Capability,
    },
    /// A mapping is released.
    ReleaseMapping { mapping: MappingState },
    /// The data plane asks for a compute region.
    Register { length: usize, device_id: u64 },
    /// The data plane gives a compute region back.
    Release { phys_addr: u64 },
    /// A capability is issued or revoked.
    Table { event: TableEvent },
    /// The registration of a fabric endpoint is asked for.
    RegisterEndpoint { node_id: NodeId, node_kind: NodeKind, mr_base: u64, mr_length: usize },
    /// A transfer is verified.
    Verify { transfer: Transfer },
    /// The platform layer carries the queued commands out.
    CarryOut,
}

/// The mapping that [`KernelEvent::MapFrame`] asks for.
pub open spec fn mapping_of(
    addr: u64,
    length: usize,
    permissions: IommuPermissions,
    device_id: u64,
) -> MappingState {
    MappingState { phys_start: addr, length, permissions, device_id, frame: addr }
}

// ── The machine ──────────────────────────────────────────────────────────────

/// A running kernel, the hardware, the mappings in place, by address, and the frames
/// in use.
pub struct Machine {
    pub kernel: KernelState,
    pub hardware: HardwareTables,
    pub live: Map<u64, MappingState>,
    pub owned: Set<u64>,
}

impl Machine {
    /// A machine on which nothing has happened.
    pub open spec fn fresh() -> Machine {
        Machine {
            kernel: KernelState::fresh(),
            hardware: Map::empty(),
            live: Map::empty(),
            owned: Set::empty(),
        }
    }

    /// A machine that has just booted.
    pub open spec fn booted(regions: Seq<MemoryRegion>) -> Machine {
        Machine::fresh().after(KernelEvent::Init { regions })
    }

    /// The machine with its kernel in this state.
    pub open spec fn with_kernel(self, kernel: KernelState) -> Machine {
        Machine { kernel, ..self }
    }

    /// Whether the kernel agrees with the machine.
    pub open spec fn consistent(self) -> bool {
        self.kernel.consistent(self.hardware, self.live, self.owned)
    }

    /// Whether the IOMMU layer keeps track of the mappings in place: none is in place
    /// before the layer is up, and a registered region has its mapping.
    pub open spec fn keeps_track(self) -> bool {
        &&& self.kernel.iommu.tracks(self.hardware, self.live)
        &&& forall|p: u64| #[trigger] self.live.dom().contains(p) ==> self.kernel.iommu.initialised
        &&& forall|p: u64| #[trigger]
            self.kernel.regions.dom().contains(p) ==> {
                &&& self.live.dom().contains(p)
                &&& self.live[p] == self.kernel.regions[p].mapping
                &&& self.live[p].length == self.kernel.regions[p].length
            }
    }

    /// Whether a mapping in place for `device_id` covers the byte at `addr`, with
    /// permissions that include `wanted`.
    pub open spec fn mapping_lets(
        self,
        device_id: u64,
        addr: int,
        wanted: IommuPermissions,
    ) -> bool {
        exists|p: u64|
            {
                &&& #[trigger] self.live.dom().contains(p)
                &&& self.live[p].device_id == device_id
                &&& p <= addr < p + self.live[p].length
                &&& self.live[p].permissions.includes(wanted)
            }
    }

    /// The machine after one event.
    pub open spec fn after(self, event: KernelEvent) -> Machine {
        let kernel = self.kernel;
        match event {
            KernelEvent::Init { regions } => self.with_kernel(kernel.after_init(regions)),
            KernelEvent::InitMemory { regions } => self.with_kernel(
                kernel.with_frames(kernel.frames.with_regions(usable_ranges(regions))),
            ),
            KernelEvent::InitIommu => self.with_kernel(
                kernel.with_iommu(kernel.iommu.after_init()),
            ),
            KernelEvent::Allocate => Machine {
                kernel: kernel.with_frames(kernel.frames.after_allocate()),
                owned: match kernel.frames.allocation() {
                    Some(addr) => self.owned.insert(addr),
                    None => self.owned,
                },
                ..self
            },
            KernelEvent::GiveBack { addr } => Machine {
                kernel: kernel.with_frames(kernel.frames.after_free(addr)),
                owned: self.owned.remove(addr),
                ..self
            },
            KernelEvent::MapFrame { addr, length, permissions, device_id, capability } => {
                match kernel.iommu.map_refusal(kernel.capabilities, addr, capability) {
                    Some(_) => self,
                    None => {
                        let mapping = mapping_of(addr, length, permissions, device_id);
                        Machine {
                            kernel: kernel.with_iommu(kernel.iommu.after_map(mapping)),
                            live: self.live.insert(addr, mapping),
                            ..self
                        }
                    },
                }
            },
            KernelEvent::ReleaseMapping { mapping } => Machine {
                kernel: kernel.with_iommu(kernel.iommu.after_release(mapping)).with_frames(
                    kernel.frames.after_free(mapping.frame),
                ),
                live: self.live.remove(mapping.phys_start),
                owned: self.owned.remove(mapping.frame),
                ..self
            },
            KernelEvent::Register { length, device_id } => {
                if !registrable(true, length) {
                    self
                } else if kernel.register_status() == FfiStatus::Success {
                    let addr = kernel.frames.allocation()->0;
                    let region = kernel.new_region(addr, length, device_id);
                    Machine {
                        kernel: kernel.after_register(length, device_id),
                        live: self.live.insert(addr, region.mapping),
                        owned: self.owned.insert(addr),
                        ..self
                    }
                } else {
                    self.with_kernel(kernel.after_register(length, device_id))
                }
            },
            KernelEvent::Release { phys_addr } => {
                if kernel.release_status(phys_addr) == FfiStatus::Success {
                    Machine {
                        kernel: kernel.after_release(phys_addr),
                        live: self.live.remove(phys_addr),
                        owned: self.owned.remove(phys_addr),
                        ..self
                    }
                } else {
                    self
                }
            },
            KernelEvent::Table { event } => self.with_kernel(
                kernel.with_capabilities(kernel.capabilities.after(event)),
            ),
            KernelEvent::RegisterEndpoint { node_id, node_kind, mr_base, mr_length } => {
                match kernel.fabric.register_refusal(node_id) {
                    Some(_) => self,
                    None => self.with_kernel(
                        KernelState {
                            fabric: kernel.fabric.after_register(
                                new_endpoint(
                                    kernel.capabilities,
                                    node_id,
                                    node_kind,
                                    mr_base,
                                    mr_length,
                                ),
                            ),
                            capabilities: kernel.capabilities.after_issue(
                                CapabilityKind::FabricEndpoint,
                                endpoint_rights(),
                            ),
                            ..kernel
                        },
                    ),
                }
            },
            KernelEvent::Verify { transfer } => self.with_kernel(
                KernelState { tvdp: kernel.tvdp.after(TvdpEvent::Verify { transfer }), ..kernel },
            ),
            KernelEvent::CarryOut => Machine {
                kernel: kernel.with_iommu(kernel.iommu.after_commands_taken()),
                hardware: after_commands(self.hardware, kernel.iommu.commands),
                ..self
            },
        }
    }

    /// The machine after the events, in order.
    pub open spec fn after_all(self, events: Seq<KernelEvent>) -> Machine
        decreases events.len(),
    {
        if events.len() == 0 {
            self
        } else {
            self.after_all(events.drop_last()).after(events.last())
        }
    }

    /// Whether the event can come from the holder of what it releases: a mapping that
    /// is released is in place, as it was made, and belongs to no region.
    pub open spec fn genuine(self, event: KernelEvent) -> bool {
        match event {
            KernelEvent::ReleaseMapping { mapping } => {
                &&& self.live.dom().contains(mapping.phys_start)
                &&& self.live[mapping.phys_start] == mapping
                &&& !self.kernel.regions.dom().contains(mapping.phys_start)
            },
            _ => true,
        }
    }

    /// Whether each of the events is genuine when its turn comes.
    pub open spec fn all_genuine(self, events: Seq<KernelEvent>) -> bool
        decreases events.len(),
    {
        events.len() > 0 ==> self.all_genuine(events.drop_last()) && self.after_all(
            events.drop_last(),
        ).genuine(events.last())
    }

    /// Whether the event is genuine and respects the frames: a frame that is given
    /// back or mapped is in use, one that is given back is not mapped, a mapping
    /// covers at most its frame, and memory that is added overlaps nothing.
    pub open spec fn in_order(self, event: KernelEvent) -> bool {
        &&& self.genuine(event)
        &&& match event {
            KernelEvent::Init { regions } => pairwise_disjoint(
                self.kernel.frames.regions + usable_ranges(regions),
            ),
            KernelEvent::InitMemory { regions } => pairwise_disjoint(
                self.kernel.frames.regions + usable_ranges(regions),
            ),
            KernelEvent::GiveBack { addr } => self.owned.contains(addr)
                && !self.live.dom().contains(addr),
            KernelEvent::MapFrame { addr, length, .. } => self.owned.contains(addr) && length
                <= PAGE_SIZE,
            _ => true,
        }
    }

    /// Whether each of the events is in order when its turn comes.
    pub open spec fn all_in_order(self, events: Seq<KernelEvent>) -> bool
        decreases events.len(),
    {
        events.len() > 0 ==> self.all_in_order(events.drop_last()) && self.after_all(
            events.drop_last(),
        ).in_order(events.last())
    }
}

// ── What devices can reach ───────────────────────────────────────────────────

/// On a machine that keeps track of its mappings, an event leaves it so.
proof fn lemma_event_keeps_track(machine: Machine, event: KernelEvent)
    requires
        machine.keeps_track(),
        machine.genuine(event),
    ensures
        machine.after(event).keeps_track(),
{
    let kernel = machine.kernel;
    match event {
        KernelEvent::MapFrame { addr, length, permissions, device_id, capability } => {
            if kernel.iommu.map_refusal(kernel.capabilities, addr, capability) is None {
                law_mapping_grants_access(
                    kernel.iommu,
                    machine.hardware,
                    machine.live,
                    mapping_of(addr, length, permissions, device_id),
                    kernel.capabilities,
                    capability,
                );
                assert(!machine.live.dom().contains(addr));
            }
        },
        KernelEvent::ReleaseMapping { mapping } => {
            law_release_revokes_access(kernel.iommu, machine.hardware, machine.live, mapping);
        },
        KernelEvent::Register { length, device_id } => {
            if registrable(true, length) && kernel.register_status() == FfiStatus::Success {
                let addr = kernel.frames.allocation()->0;
                assert(kernel.region_map_refusal(addr) is None);
                law_mapping_grants_access(
                    kernel.iommu,
                    machine.hardware,
                    machine.live,
                    kernel.new_region(addr, length, device_id).mapping,
                    kernel.capabilities.after_issue(CapabilityKind::DmaBuffer, region_rights()),
                    kernel.capabilities.next_capability(CapabilityKind::DmaBuffer, region_rights()),
                );
                assert(!machine.live.dom().contains(addr));
                assert(!kernel.regions.dom().contains(addr));
            }
        },
        KernelEvent::Release { phys_addr } => {
            if kernel.regions.dom().contains(phys_addr) {
                assert(machine.live.dom().contains(phys_addr));
                law_release_revokes_access(
                    kernel.iommu,
                    machine.hardware,
                    machine.live,
                    machine.live[phys_addr],
                );
            }
        },
        KernelEvent::CarryOut => {
            law_carried_out_commands_keep_track(kernel.iommu, machine.hardware, machine.live);
        },
        _ => {},
    }
}

/// Through every course of events in which only mappings in place are released, and
/// each by its holder, the IOMMU layer keeps track of the mappings: nothing else is
/// asked of the events, neither of the memory that is added nor of the frames and
/// lengths that are mapped.
pub proof fn law_machine_keeps_track(machine: Machine, events: Seq<KernelEvent>)
    requires
        machine.keeps_track(),
        machine.all_genuine(events),
    ensures
        machine.after_all(events).keeps_track(),
    decreases events.len(),
{
    if events.len() > 0 {
        law_machine_keeps_track(machine, events.drop_last());
        lemma_event_keeps_track(machine.after_all(events.drop_last()), events.last());
    }
}

/// From the first moment on, through every course of genuine events, initialisations
/// and direct mappings included: a device may touch a byte exactly if a mapping in
/// place for that device covers it with those permissions, whenever the queue of
/// commands is empty.
pub proof fn law_devices_reach_only_their_mappings(
    events: Seq<KernelEvent>,
    device_id: u64,
    addr: int,
    wanted: IommuPermissions,
)
    requires
        Machine::fresh().all_genuine(events),
        Machine::fresh().after_all(events).kernel.iommu.commands.len() == 0,
    ensures
        device_may(Machine::fresh().after_all(events).hardware, device_id, addr, wanted)
            <==> Machine::fresh().after_all(events).mapping_lets(device_id, addr, wanted),
{
    let machine = Machine::fresh().after_all(events);
    law_machine_keeps_track(Machine::fresh(), events);
    law_access_needs_mapping(
        machine.kernel.iommu,
        machine.hardware,
        machine.live,
        device_id,
        addr,
        wanted,
    );
}

impl KernelState {
    /// Whether a region is registered for `device_id` that contains the byte at
    /// `addr`, and the permissions of regions include `wanted`.
    pub open spec fn region_lets(
        self,
        device_id: u64,
        addr: int,
        wanted: IommuPermissions,
    ) -> bool {
        exists|p: u64|
            {
                &&& #[trigger] self.regions.dom().contains(p)
                &&& self.regions[p].mapping.device_id == device_id
                &&& p <= addr < p + self.regions[p].length
                &&& region_permissions().includes(wanted)
            }
    }
}

/// From the first moment on, as long as only the data plane maps memory: a device may
/// touch a byte exactly if a compute region that contains it is registered for that
/// device, and only to read and write it, whenever the queue of commands is empty.
pub proof fn law_devices_reach_only_their_regions(
    events: Seq<KernelEvent>,
    device_id: u64,
    addr: int,
    wanted: IommuPermissions,
)
    requires
        Machine::fresh().all_genuine(events),
        forall|i: int| 0 <= i < events.len() ==> !(#[trigger] events[i] is MapFrame),
        Machine::fresh().after_all(events).kernel.iommu.commands.len() == 0,
    ensures
        device_may(Machine::fresh().after_all(events).hardware, device_id, addr, wanted)
            <==> Machine::fresh().after_all(events).kernel.region_lets(device_id, addr, wanted),
{
    let machine = Machine::fresh().after_all(events);
    law_machine_keeps_track(Machine::fresh(), events);
    law_devices_reach_only_their_mappings(events, device_id, addr, wanted);
    lemma_mappings_are_regions(events);
    if machine.mapping_lets(device_id, addr, wanted) {
        let p = choose|p: u64|
            {
                &&& #[trigger] machine.live.dom().contains(p)
                &&& machine.live[p].device_id == device_id
                &&& p <= addr < p + machine.live[p].length
                &&& machine.live[p].permissions.includes(wanted)
            };
        assert(machine.kernel.regions.dom().contains(p));
    }
    if machine.kernel.region_lets(device_id, addr, wanted) {
        let p = choose|p: u64|
            {
                &&& #[trigger] machine.kernel.regions.dom().contains(p)
                &&& machine.kernel.regions[p].mapping.device_id == device_id
                &&& p <= addr < p + machine.kernel.regions[p].length
                &&& region_permissions().includes(wanted)
            };
        assert(machine.live.dom().contains(p));
    }
}

/// As long as only the data plane maps memory, the mappings in place are those of the
/// regions.
proof fn lemma_mappings_are_regions(events: Seq<KernelEvent>)
    requires
        Machine::fresh().all_genuine(events),
        forall|i: int| 0 <= i < events.len() ==> !(#[trigger] events[i] is MapFrame),
    ensures
        ({
            let machine = Machine::fresh().after_all(events);
            forall|p: u64| #[trigger]
                machine.live.dom().contains(p) ==> machine.kernel.regions.dom().contains(p)
                    && machine.live[p].permissions == region_permissions()
        }),
    decreases events.len(),
{
    if events.len() > 0 {
        let rest = events.drop_last();
        assert forall|i: int| 0 <= i < rest.len() implies !(#[trigger] rest[i] is MapFrame) by {
            assert(rest[i] == events[i]);
        }
        lemma_mappings_are_regions(rest);
        law_machine_keeps_track(Machine::fresh(), rest);
        let before = Machine::fresh().after_all(rest);
        assert(!(events[events.len() - 1] is MapFrame));
        if let KernelEvent::Register { length, device_id } = events.last() {
            if registrable(true, length) && before.kernel.register_status() == FfiStatus::Success {
                let addr = before.kernel.frames.allocation()->0;
                assert(before.kernel.region_map_refusal(addr) is None);
                assert(!before.live.dom().contains(addr));
                assert(!before.kernel.regions.dom().contains(addr));
            }
        }
    }
}

// ── Frames, mappings and regions ─────────────────────────────────────────────

/// On a consistent machine, an event that is in order leaves it so.
proof fn lemma_event_keeps_consistency(machine: Machine, event: KernelEvent)
    requires
        machine.consistent(),
        machine.kernel.capabilities.has_free_id(),
        machine.in_order(event),
    ensures
        machine.after(event).consistent(),
        machine.after(event).kernel.capabilities.next_id <= machine.kernel.capabilities.next_id + 1,
{
    let kernel = machine.kernel;
    let hardware = machine.hardware;
    let live = machine.live;
    let owned = machine.owned;
    match event {
        KernelEvent::Init { regions } => {
            law_initialising_keeps_consistency(kernel, hardware, live, owned, regions);
        },
        KernelEvent::InitMemory { regions } => {
            law_initialising_keeps_consistency(kernel, hardware, live, owned, regions);
        },
        KernelEvent::Allocate => {
            law_allocating_keeps_consistency(kernel, hardware, live, owned);
        },
        KernelEvent::GiveBack { addr } => {
            law_giving_back_keeps_consistency(kernel, hardware, live, owned, addr);
        },
        KernelEvent::MapFrame { addr, length, permissions, device_id, capability } => {
            if kernel.iommu.map_refusal(kernel.capabilities, addr, capability) is None {
                law_mapping_keeps_consistency(
                    kernel,
                    hardware,
                    live,
                    owned,
                    mapping_of(addr, length, permissions, device_id),
                    capability,
                );
            }
        },
        KernelEvent::ReleaseMapping { mapping } => {
            law_unmapping_keeps_consistency(kernel, hardware, live, owned, mapping);
        },
        KernelEvent::Register { length, device_id } => {
            if registrable(true, length) {
                law_registration_keeps_consistency(
                    kernel,
                    hardware,
                    live,
                    owned,
                    length,
                    device_id,
                );
                law_allocation_counts_down(kernel.frames);
            }
        },
        KernelEvent::Release { phys_addr } => {
            if kernel.regions.dom().contains(phys_addr) {
                law_release_keeps_consistency(kernel, hardware, live, owned, phys_addr);
            }
        },
        KernelEvent::CarryOut => {
            law_carried_out_commands_keep_track(kernel.iommu, hardware, live);
        },
        _ => {},
    }
}

/// A consistent machine stays consistent through every course of events that are in
/// order, as long as there are ids for the capabilities.
pub proof fn law_machine_stays_consistent(machine: Machine, events: Seq<KernelEvent>)
    requires
        machine.consistent(),
        machine.all_in_order(events),
        machine.kernel.capabilities.next_id + events.len() <= u64::MAX,
    ensures
        machine.after_all(events).consistent(),
        machine.after_all(events).kernel.capabilities.next_id
            <= machine.kernel.capabilities.next_id + events.len(),
    decreases events.len(),
{
    if events.len() > 0 {
        law_machine_stays_consistent(machine, events.drop_last());
        lemma_event_keeps_consistency(machine.after_all(events.drop_last()), events.last());
    }
}

/// From boot on, through every course of events that are in order: a device that may
/// touch a byte does so within a frame in use, whenever the queue of commands is empty.
pub proof fn law_devices_stay_within_frames_in_use(
    regions: Seq<MemoryRegion>,
    events: Seq<KernelEvent>,
    device_id: u64,
    addr: int,
    wanted: IommuPermissions,
)
    requires
        pairwise_disjoint(usable_ranges(regions)),
        Machine::booted(regions).all_in_order(events),
        1 + events.len() <= u64::MAX,
        Machine::booted(regions).after_all(events).kernel.iommu.commands.len() == 0,
        device_may(
            Machine::booted(regions).after_all(events).hardware,
            device_id,
            addr,
            wanted,
        ),
    ensures
        exists|frame: u64| #[trigger]
            Machine::booted(regions).after_all(events).owned.contains(frame) && frame <= addr
                < frame + PAGE_SIZE,
{
    let machine = Machine::booted(regions).after_all(events);
    law_boot_is_consistent(regions);
    law_machine_stays_consistent(Machine::booted(regions), events);
    law_device_reach_stays_in_owned_frames(
        machine.kernel,
        machine.hardware,
        machine.live,
        machine.owned,
        device_id,
        addr,
        wanted,
    );
}

} // verus!
