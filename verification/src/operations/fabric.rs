//! What the operations of the fabric do.
use vstd::prelude::*;

#[allow(unused_imports)]
use crate::capability::{table_of, Capability, CapabilityError, CapabilityKind, CapabilityTable};
#[allow(unused_imports)]
use crate::fabric::{
    fabric_of, init, lookup_endpoint, register_endpoint, FabricEndpoint, FabricError, FabricEvent,
    FabricState, FabricTable, NodeId, NodeKind,
};

verus! {

/// At first the fabric is down and knows no node; initialising brings it up and keeps
/// every endpoint.
pub proof fn law_init_brings_the_fabric_up(
    slot: &mut Option<FabricState>,
    fresh: FabricState,
    node: u64,
)
    requires
        call_ensures(init, (slot,), ()),
        call_ensures(FabricState::new, (), fresh),
    ensures
        !fresh@.initialised,
        !fresh@.endpoints.dom().contains(node),
        !fabric_of(None).initialised,
        !fabric_of(None).endpoints.dom().contains(node),
        fabric_of(Some(fresh)) == fresh@,
        fabric_of(*final(slot)).initialised,
        fabric_of(*final(slot)).endpoints == fabric_of(*old(slot)).endpoints,
{
}

/// A registration is granted exactly if the fabric is up and does not know the node. The
/// endpoint then has the node, the kind and the memory region that were passed in, and a
/// new capability of kind `FabricEndpoint` that may read, write and do DMA (bits 0, 1
/// and 4) and nothing else; the registry holds it for that node, and everything else as
/// before. Otherwise the reason comes back, and neither the registry nor the capability
/// table changes.
pub proof fn law_registration_records_what_was_passed(
    slot: &mut Option<FabricState>,
    capabilities: &mut Option<CapabilityTable>,
    node_id: NodeId,
    node_kind: NodeKind,
    mr_base: u64,
    mr_length: usize,
    r: Result<FabricEndpoint, FabricError>,
    other: u64,
)
    requires
        call_ensures(
            register_endpoint,
            (slot, capabilities, node_id, node_kind, mr_base, mr_length),
            r,
        ),
    ensures
        ({
            let before = fabric_of(*old(slot));
            let after = fabric_of(*final(slot));
            let table = table_of(*old(capabilities));
            let new_table = table_of(*final(capabilities));
            let known = before.endpoints.dom().contains(node_id.0);
            &&& after.initialised == before.initialised
            &&& r is Ok <==> before.initialised && !known
            &&& r is Ok ==> {
                let endpoint = r->Ok_0;
                &&& endpoint.node_id.0 == node_id.0
                &&& endpoint.node_kind == node_kind
                &&& endpoint.mr_base == mr_base
                &&& endpoint.mr_length == mr_length
                &&& endpoint.capability.id.0 == table.next_id
                &&& endpoint.capability.kind == CapabilityKind::FabricEndpoint
                &&& endpoint.capability.rights.bits == 19
                &&& after.endpoints.dom().contains(node_id.0)
                &&& after.endpoints[node_id.0] == endpoint
                &&& new_table.entries.dom().contains(table.next_id)
                &&& new_table.entries[table.next_id] == endpoint.capability
                &&& table.next_id < u64::MAX ==> new_table.next_id == table.next_id + 1
                &&& other != table.next_id ==> {
                    &&& new_table.entries.dom().contains(other) <==> table.entries.dom().contains(
                        other,
                    )
                    &&& table.entries.dom().contains(other) ==> new_table.entries[other]
                        == table.entries[other]
                }
                &&& other != node_id.0 ==> {
                    &&& after.endpoints.dom().contains(other) <==> before.endpoints.dom().contains(
                        other,
                    )
                    &&& before.endpoints.dom().contains(other) ==> after.endpoints[other]
                        == before.endpoints[other]
                }
            }
            &&& r is Err ==> {
                &&& r->Err_0 == FabricError::NotInitialised <==> !before.initialised
                &&& r->Err_0 == FabricError::AlreadyRegistered <==> before.initialised && known
                &&& after.endpoints == before.endpoints
                &&& new_table == table
            }
        }),
{
    assert(((1u16 | 2u16) | 16u16) == 19u16) by (bit_vector);
}

/// A registration can be asked for as long as there is an id for its capability, and
/// where it is refused, in any case.
pub proof fn law_registration_needs_only_an_id(
    slot: &mut Option<FabricState>,
    capabilities: &mut Option<CapabilityTable>,
    node_id: NodeId,
    node_kind: NodeKind,
    mr_base: u64,
    mr_length: usize,
)
    requires
        table_of(*old(capabilities)).next_id < u64::MAX || !fabric_of(*old(slot)).initialised
            || fabric_of(*old(slot)).endpoints.dom().contains(node_id.0),
    ensures
        call_requires(
            register_endpoint,
            (slot, capabilities, node_id, node_kind, mr_base, mr_length),
        ),
{
}

/// A lookup gives back the endpoint on record for the node, says that the node is
/// unknown where there is none, and changes nothing.
pub proof fn law_lookup_gives_the_record(
    slot: &mut Option<FabricState>,
    node_id: NodeId,
    r: Result<FabricEndpoint, FabricError>,
)
    requires
        call_ensures(lookup_endpoint, (slot, node_id), r),
    ensures
        r is Ok <==> fabric_of(*old(slot)).endpoints.dom().contains(node_id.0),
        r is Ok ==> r->Ok_0 == fabric_of(*old(slot)).endpoints[node_id.0],
        r is Err ==> r == Err::<FabricEndpoint, _>(FabricError::UnknownNode),
        fabric_of(*final(slot)) == fabric_of(*old(slot)),
{
}

/// An endpoint on record stays on record, as it is, whatever happens to the fabric.
proof fn lemma_endpoint_stays(fabric: FabricTable, events: Seq<FabricEvent>, node: u64)
    requires
        fabric.endpoints.dom().contains(node),
    ensures
        fabric.after_all(events).endpoints.dom().contains(node),
        fabric.after_all(events).endpoints[node] == fabric.endpoints[node],
    decreases events.len(),
{
    if events.len() > 0 {
        lemma_endpoint_stays(fabric, events.drop_last(), node);
    }
}

/// Every lookup of a node after its registration was granted gives an endpoint with the
/// node, the kind and the memory region that were passed in, whatever happens to the
/// fabric in between.
pub proof fn law_lookup_gives_what_was_passed(
    slot: &mut Option<FabricState>,
    capabilities: &mut Option<CapabilityTable>,
    node_id: NodeId,
    node_kind: NodeKind,
    mr_base: u64,
    mr_length: usize,
    granted: Result<FabricEndpoint, FabricError>,
    events: Seq<FabricEvent>,
    later: &mut Option<FabricState>,
    found: Result<FabricEndpoint, FabricError>,
)
    requires
        call_ensures(
            register_endpoint,
            (slot, capabilities, node_id, node_kind, mr_base, mr_length),
            granted,
        ),
        call_ensures(lookup_endpoint, (later, node_id), found),
        granted is Ok,
    ensures
        fabric_of(*old(later)) == fabric_of(*final(slot)).after_all(events) ==> {
            &&& found is Ok
            &&& found->Ok_0 == granted->Ok_0
            &&& found->Ok_0.node_id.0 == node_id.0
            &&& found->Ok_0.node_kind == node_kind
            &&& found->Ok_0.mr_base == mr_base
            &&& found->Ok_0.mr_length == mr_length
        },
{
    lemma_endpoint_stays(fabric_of(*final(slot)), events, node_id.0);
}

/// The registry says why a node cannot be registered, and a copy of an endpoint is the
/// same endpoint; an error of the capability table is handed on as it is.
pub proof fn law_refusals_copies_and_errors(
    state: &FabricState,
    node_id: NodeId,
    refusal: Option<FabricError>,
    endpoint: FabricEndpoint,
    copy: FabricEndpoint,
    error: CapabilityError,
    converted: FabricError,
)
    requires
        call_ensures(FabricState::register_refusal, (state, node_id), refusal),
        call_ensures(FabricEndpoint::clone, (&endpoint,), copy),
        call_ensures(<FabricError as From<CapabilityError>>::from, (error,), converted),
    ensures
        refusal is None <==> state@.initialised && !state@.endpoints.dom().contains(node_id.0),
        refusal == Some(FabricError::NotInitialised) <==> !state@.initialised,
        refusal == Some(FabricError::AlreadyRegistered) <==> state@.initialised
            && state@.endpoints.dom().contains(node_id.0),
        copy.node_id == endpoint.node_id,
        copy.node_kind == endpoint.node_kind,
        copy.mr_base == endpoint.mr_base,
        copy.mr_length == endpoint.mr_length,
        copy.capability == endpoint.capability,
        converted == FabricError::CapabilityError(error),
{
}

} // verus!
