//! What holds of the IOMMU layer: a device reaches exactly the memory that is
//! mapped for it.
use vstd::prelude::*;

#[allow(unused_imports)]
use super::iommu::{
    authorises_mapping, HalCommand, IommuError, IommuPermissions, IommuTable, MappingState,
};
#[allow(unused_imports)]
use crate::capability::laws::{law_dead_id_stays_dead, TableEvent};
#[allow(unused_imports)]
use crate::capability::{Capability, CapabilityId, CapabilityKind, TableState};

verus! {

/// The hardware's tables: for each device and start address, the length and the
/// permissions of the range that the device may access.
pub type HardwareTables = Map<(u64, u64), (usize, IommuPermissions)>;

/// The hardware's tables once a command is carried out.
pub open spec fn after_command(hardware: HardwareTables, command: HalCommand) -> HardwareTables {
    match command {
        HalCommand::MapRange { device_id, phys_start, length, permissions } => hardware.insert(
            (device_id, phys_start),
            (length, permissions),
        ),
        HalCommand::UnmapRange { device_id, phys_start, length } => hardware.remove(
            (device_id, phys_start),
        ),
    }
}

/// The hardware's tables once the commands are carried out in order.
pub open spec fn after_commands(hardware: HardwareTables, commands: Seq<HalCommand>) -> HardwareTables
    decreases commands.len(),
{
    if commands.len() == 0 {
        hardware
    } else {
        after_command(after_commands(hardware, commands.drop_last()), commands.last())
    }
}

/// Whether the hardware's tables let `device_id` touch the byte at `addr` with the
/// given permissions.
pub open spec fn device_may(
    hardware: HardwareTables,
    device_id: u64,
    addr: int,
    wanted: IommuPermissions,
) -> bool {
    exists|phys_start: u64|
        {
            &&& #[trigger] hardware.dom().contains((device_id, phys_start))
            &&& phys_start <= addr < phys_start + hardware[(device_id, phys_start)].0
            &&& hardware[(device_id, phys_start)].1.includes(wanted)
        }
}

impl IommuTable {
    /// Whether `live` are the mappings in place, by their start address: the
    /// accounts name the device of each of them, and the hardware, once it has
    /// carried out the queued commands, lets each of their devices access the
    /// mapped range, and no device anything else.
    pub open spec fn tracks(self, hardware: HardwareTables, live: Map<u64, MappingState>) -> bool {
        let tables = after_commands(hardware, self.commands);
        &&& self.active.dom() == live.dom()
        &&& forall|p: u64| #[trigger]
            live.dom().contains(p) ==> {
                &&& live[p].phys_start == p
                &&& self.active[p] == live[p].device_id
                &&& tables.dom().contains((live[p].device_id, p))
                &&& tables[(live[p].device_id, p)] == (live[p].length, live[p].permissions)
            }
        &&& forall|d: u64, p: u64| #[trigger]
            tables.dom().contains((d, p)) ==> live.dom().contains(p) && live[p].device_id == d
    }
}

/// At first no device may access anything.
pub proof fn law_deny_all_at_first(device_id: u64, addr: int, wanted: IommuPermissions)
    ensures
        IommuTable::fresh().after_init().tracks(Map::empty(), Map::empty()),
        !device_may(Map::empty(), device_id, addr, wanted),
{
}

/// A new mapping is one more mapping in place, and nothing else changes.
pub proof fn law_mapping_grants_access(
    table: IommuTable,
    hardware: HardwareTables,
    live: Map<u64, MappingState>,
    mapping: MappingState,
    capabilities: TableState,
    capability: Capability,
)
    requires
        table.tracks(hardware, live),
        table.map_refusal(capabilities, mapping.phys_start, capability) is None,
    ensures
        table.after_map(mapping).tracks(hardware, live.insert(mapping.phys_start, mapping)),
{
    let after = table.after_map(mapping);
    assert(after.commands.drop_last() =~= table.commands);
    let tables = after_commands(hardware, table.commands);
    let new_tables = after_commands(hardware, after.commands);
    let new_live = live.insert(mapping.phys_start, mapping);
    assert(new_tables == tables.insert(
        (mapping.device_id, mapping.phys_start),
        (mapping.length, mapping.permissions),
    ));
    assert(after.active.dom() =~= new_live.dom());
    assert forall|d: u64, p: u64| #[trigger]
        new_tables.dom().contains((d, p)) implies new_live.dom().contains(p)
        && new_live[p].device_id == d by {
        if (d, p) != (mapping.device_id, mapping.phys_start) {
            assert(tables.dom().contains((d, p)));
        }
    }
}

/// Releasing a mapping in place takes exactly its device's access away.
pub proof fn law_release_revokes_access(
    table: IommuTable,
    hardware: HardwareTables,
    live: Map<u64, MappingState>,
    mapping: MappingState,
)
    requires
        table.tracks(hardware, live),
        table.initialised,
        live.dom().contains(mapping.phys_start),
        live[mapping.phys_start] == mapping,
    ensures
        table.after_release(mapping).tracks(hardware, live.remove(mapping.phys_start)),
{
    let after = table.after_release(mapping);
    assert(after.commands.drop_last() =~= table.commands);
    let tables = after_commands(hardware, table.commands);
    let new_tables = after_commands(hardware, after.commands);
    let new_live = live.remove(mapping.phys_start);
    assert(new_tables == tables.remove((mapping.device_id, mapping.phys_start)));
    assert(after.active.dom() =~= new_live.dom());
    assert forall|p: u64| #[trigger] new_live.dom().contains(p) implies {
        &&& new_live[p].phys_start == p
        &&& after.active[p] == new_live[p].device_id
        &&& new_tables.dom().contains((new_live[p].device_id, p))
        &&& new_tables[(new_live[p].device_id, p)] == (new_live[p].length, new_live[p].permissions)
    } by {
        assert(live.dom().contains(p));
    }
    assert forall|d: u64, p: u64| #[trigger]
        new_tables.dom().contains((d, p)) implies new_live.dom().contains(p)
        && new_live[p].device_id == d by {
        assert(tables.dom().contains((d, p)));
    }
}

/// Once the platform layer has carried the queued commands out, the hardware itself
/// shows the mappings in place.
pub proof fn law_carried_out_commands_keep_track(
    table: IommuTable,
    hardware: HardwareTables,
    live: Map<u64, MappingState>,
)
    requires
        table.tracks(hardware, live),
    ensures
        table.after_commands_taken().tracks(after_commands(hardware, table.commands), live),
{
}

/// A device touches memory only within a mapping in place for it, and only as the
/// permissions of that mapping say.
pub proof fn law_access_needs_mapping(
    table: IommuTable,
    hardware: HardwareTables,
    live: Map<u64, MappingState>,
    device_id: u64,
    addr: int,
    wanted: IommuPermissions,
)
    requires
        table.tracks(hardware, live),
        table.commands.len() == 0,
    ensures
        device_may(hardware, device_id, addr, wanted) <==> exists|p: u64|
            {
                &&& #[trigger] live.dom().contains(p)
                &&& live[p].device_id == device_id
                &&& p <= addr < p + live[p].length
                &&& live[p].permissions.includes(wanted)
            },
{
    assert(after_commands(hardware, table.commands) == hardware);
    if device_may(hardware, device_id, addr, wanted) {
        let p = choose|p: u64|
            {
                &&& #[trigger] hardware.dom().contains((device_id, p))
                &&& p <= addr < p + hardware[(device_id, p)].0
                &&& hardware[(device_id, p)].1.includes(wanted)
            };
        assert(live.dom().contains(p));
    }
    if exists|p: u64|
        {
            &&& #[trigger] live.dom().contains(p)
            &&& live[p].device_id == device_id
            &&& p <= addr < p + live[p].length
            &&& live[p].permissions.includes(wanted)
        } {
        let p = choose|p: u64|
            {
                &&& #[trigger] live.dom().contains(p)
                &&& live[p].device_id == device_id
                &&& p <= addr < p + live[p].length
                &&& live[p].permissions.includes(wanted)
            };
        assert(hardware.dom().contains((device_id, p)));
    }
}

/// A frame that is mapped cannot be mapped again until it is released.
pub proof fn law_no_double_map(
    table: IommuTable,
    mapping: MappingState,
    capabilities: TableState,
    capability: Capability,
)
    requires
        table.initialised,
        authorises_mapping(capabilities, capability),
    ensures
        table.after_map(mapping).map_refusal(capabilities, mapping.phys_start, capability) == Some(
            IommuError::AlreadyMapped,
        ),
        table.after_map(mapping).after_release(mapping).map_refusal(
            capabilities,
            mapping.phys_start,
            capability,
        ) == None::<IommuError>,
{
}

/// Releasing what was just mapped restores the accounts, and tells the hardware to
/// undo the mapping.
pub proof fn law_release_undoes_map(
    table: IommuTable,
    mapping: MappingState,
    capabilities: TableState,
    capability: Capability,
)
    requires
        table.map_refusal(capabilities, mapping.phys_start, capability) is None,
    ensures
        ({
            let after = table.after_map(mapping).after_release(mapping);
            &&& after.active == table.active
            &&& after.initialised == table.initialised
            &&& after.commands == table.commands + seq![
                HalCommand::MapRange {
                    device_id: mapping.device_id,
                    phys_start: mapping.phys_start,
                    length: mapping.length,
                    permissions: mapping.permissions,
                },
                HalCommand::UnmapRange {
                    device_id: mapping.device_id,
                    phys_start: mapping.phys_start,
                    length: mapping.length,
                },
            ]
        }),
{
    let after = table.after_map(mapping).after_release(mapping);
    assert(after.active =~= table.active);
}

/// A capability maps memory only if it is live and was issued as a DMA buffer or a
/// compute region, whatever the state of the IOMMU; and no other capability problem
/// is ever reported.
pub proof fn law_only_genuine_capabilities_map(
    table: IommuTable,
    phys_start: u64,
    capabilities: TableState,
    capability: Capability,
)
    ensures
        table.map_refusal(capabilities, phys_start, capability) == Some(
            IommuError::CapabilityMismatch,
        ) <==> !{
            &&& capabilities.entries.dom().contains(capability.id.0)
            &&& capabilities.entries[capability.id.0].kind == capability.kind
            &&& capability.kind == CapabilityKind::DmaBuffer || capability.kind
                == CapabilityKind::ComputeRegion
        },
{
}

/// After a revocation no token with that id maps anything, whatever it shows and
/// whatever else happens to the capability table.
pub proof fn law_revoked_capability_never_maps(
    capabilities: TableState,
    id: CapabilityId,
    events: Seq<TableEvent>,
    token: Capability,
    table: IommuTable,
    phys_start: u64,
)
    requires
        capabilities.wf(),
        capabilities.revocation(id) is Ok,
        capabilities.has_ids_for(events),
        token.id == id,
    ensures
        table.map_refusal(
            capabilities.after_revoke(id).after_all(events),
            phys_start,
            token,
        ) == Some(IommuError::CapabilityMismatch),
{
    law_dead_id_stays_dead(capabilities.after_revoke(id), events, id);
}

/// The union of two sets of permissions contains both of them, and a set contains
/// the union exactly when it contains both.
pub proof fn law_union_of_permissions(
    a: IommuPermissions,
    b: IommuPermissions,
    c: IommuPermissions,
)
    ensures
        a.union(b).includes(a),
        a.union(b).includes(b),
        c.includes(a.union(b)) <==> c.includes(a) && c.includes(b),
{
    let x = a.bits;
    let y = b.bits;
    let z = c.bits;
    assert((x | y) & x == x && (x | y) & y == y) by (bit_vector);
    assert(z & (x | y) == (x | y) <==> (z & x == x && z & y == y)) by (bit_vector);
}

} // verus!
