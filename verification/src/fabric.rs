//! # CyberFabric — Network-as-a-Bus abstraction
//!
//! The control-plane view of the network fabric that connects CPUs, GPUs, NPUs,
//! SmartNICs and storage nodes. Every node is a peer, and memory flows between
//! them without CPU involvement (RDMA / P2P DMA).
//!
//! This module keeps the registry of fabric endpoints and has a capability issued
//! for each of them. Moving data is up to the data plane.
//!
//! The state of a running kernel lives in a slot that is empty until the first
//! use; an empty slot stands for a fresh, uninitialised state: see [`fabric_of`].
use vstd::prelude::*;

use crate::capability::{issue, Capability, CapabilityError, CapabilityKind, CapabilityRights};
use crate::capability::CapabilityTable;
#[allow(unused_imports)]
use crate::capability::{table_of, TableState};
use crate::collections::EndpointMap;
#[allow(unused_imports)]
use crate::collections::endpoints_in;

verus! {

// ── NodeId ───────────────────────────────────────────────────────────────────

/// Opaque identifier for a fabric node (CPU socket, GPU, NVMe controller, …).
#[derive(Debug, Clone, Copy, PartialEq, Eq, Hash, Structural)]
pub struct NodeId(pub u64);

// ── NodeKind ─────────────────────────────────────────────────────────────────

/// The role a node plays in the fabric.
#[derive(Debug, Clone, Copy, PartialEq, Eq, Structural)]
pub enum NodeKind {
    /// Host CPU (runs the Rust microkernel).
    Cpu,
    /// GPU / NPU accelerator.
    Accelerator,
    /// SmartNIC with onboard compute (e.g. BlueField DPU).
    SmartNic,
    /// Non-volatile memory target (NVMe-oF / CXL).
    Storage,
}

// ── FabricEndpoint ───────────────────────────────────────────────────────────

/// A registered fabric endpoint: a node that can participate in zero-copy
/// P2P DMA transfers.
#[derive(Debug)]
pub struct FabricEndpoint {
    /// The node this endpoint belongs to.
    pub node_id: NodeId,
    /// Kind of device at the other end.
    pub node_kind: NodeKind,
    /// Base physical address of the node's registered memory region.
    pub mr_base: u64,
    /// Length of the memory region in bytes.
    pub mr_length: usize,
    /// Capability token gating access to this endpoint.
    pub capability: Capability,
}

impl Clone for FabricEndpoint {
    fn clone(&self) -> (r: Self)
        ensures
            r == *self,
    {
        FabricEndpoint {
            node_id: self.node_id,
            node_kind: self.node_kind,
            mr_base: self.mr_base,
            mr_length: self.mr_length,
            capability: self.capability.clone(),
        }
    }
}

// ── FabricError ──────────────────────────────────────────────────────────────

/// Errors from fabric operations.
#[derive(Debug, PartialEq, Eq, Structural)]
pub enum FabricError {
    /// CyberFabric subsystem is not initialised.
    NotInitialised,
    /// The given node ID is not known to the fabric topology.
    UnknownNode,
    /// The endpoint is already registered.
    AlreadyRegistered,
    /// Capability verification failed.
    CapabilityError(CapabilityError),
}

impl From<CapabilityError> for FabricError {
    fn from(e: CapabilityError) -> (r: Self) {
        FabricError::CapabilityError(e)
    }
}

impl vstd::std_specs::convert::FromSpecImpl<CapabilityError> for FabricError {
    open spec fn obeys_from_spec() -> bool {
        true
    }

    open spec fn from_spec(e: CapabilityError) -> FabricError {
        FabricError::CapabilityError(e)
    }
}

// ── The fabric, as a mathematical state ──────────────────────────────────────

/// The state of the fabric: whether it is up, and the endpoint of each registered
/// node by the number of its id.
#[verifier::ext_equal]
pub struct FabricTable {
    pub initialised: bool,
    pub endpoints: Map<u64, FabricEndpoint>,
}

/// The rights of a fabric endpoint's capability.
pub open spec fn endpoint_rights() -> CapabilityRights {
    CapabilityRights::READ().union(CapabilityRights::WRITE()).union(CapabilityRights::DMA())
}

impl FabricTable {
    /// The state before anything happened.
    pub open spec fn fresh() -> FabricTable {
        FabricTable { initialised: false, endpoints: Map::empty() }
    }

    /// The state once the subsystem is up.
    pub open spec fn after_init(self) -> FabricTable {
        FabricTable { initialised: true, ..self }
    }

    /// Whether each endpoint is registered under its own node.
    pub open spec fn wf(self) -> bool {
        forall|node: u64| #[trigger]
            self.endpoints.dom().contains(node) ==> self.endpoints[node].node_id.0 == node
                && self.endpoints[node].capability.kind == CapabilityKind::FabricEndpoint
    }

    /// Why `node_id` cannot be registered; `None` if it can.
    pub open spec fn register_refusal(self, node_id: NodeId) -> Option<FabricError> {
        if !self.initialised {
            Some(FabricError::NotInitialised)
        } else if self.endpoints.dom().contains(node_id.0) {
            Some(FabricError::AlreadyRegistered)
        } else {
            None
        }
    }

    /// The state once an endpoint is registered.
    pub open spec fn after_register(self, endpoint: FabricEndpoint) -> FabricTable {
        FabricTable { endpoints: self.endpoints.insert(endpoint.node_id.0, endpoint), ..self }
    }

    /// The answer to a lookup.
    pub open spec fn lookup(self, node_id: NodeId) -> Result<FabricEndpoint, FabricError> {
        if self.endpoints.dom().contains(node_id.0) {
            Ok(self.endpoints[node_id.0])
        } else {
            Err(FabricError::UnknownNode)
        }
    }
}

/// The endpoint that a registration makes, with the next capability of the table.
pub open spec fn new_endpoint(
    table: TableState,
    node_id: NodeId,
    node_kind: NodeKind,
    mr_base: u64,
    mr_length: usize,
) -> FabricEndpoint {
    FabricEndpoint {
        node_id,
        node_kind,
        mr_base,
        mr_length,
        capability: table.next_capability(CapabilityKind::FabricEndpoint, endpoint_rights()),
    }
}

/// The state in a slot; an empty slot stands for a fresh state.
pub open spec fn fabric_of(slot: Option<FabricState>) -> FabricTable {
    match slot {
        Some(state) => state@,
        None => FabricTable::fresh(),
    }
}

// ── Fabric state ─────────────────────────────────────────────────────────────

/// The registry of fabric endpoints.
pub struct FabricState {
    initialised: bool,
    endpoints: EndpointMap,
}

impl View for FabricState {
    type V = FabricTable;

    closed spec fn view(&self) -> FabricTable {
        FabricTable { initialised: self.initialised, endpoints: endpoints_in(self.endpoints) }
    }
}

impl FabricState {
    /// The state before anything happened.
    pub fn new() -> (state: Self)
        ensures
            state@ == FabricTable::fresh(),
            state@.wf(),
    {
        FabricState { initialised: false, endpoints: EndpointMap::new() }
    }

    /// Why `node_id` cannot be registered; `None` if it can.
    pub fn register_refusal(&self, node_id: NodeId) -> (r: Option<FabricError>)
        ensures
            r == self@.register_refusal(node_id),
    {
        if !self.initialised {
            return Some(FabricError::NotInitialised);
        }
        if self.endpoints.contains_key(node_id.0) {
            return Some(FabricError::AlreadyRegistered);
        }
        None
    }
}

/// The state in the slot, which is filled with a fresh one when it is empty.
pub(crate) fn fabric_lock(slot: &mut Option<FabricState>) -> (state: &mut FabricState)
    ensures
        state@ == fabric_of(*old(slot)),
        *final(slot) == Some(*final(state)),
{
    if slot.is_none() {
        *slot = Some(FabricState::new());
    }
    slot.as_mut().unwrap()
}

// ── Public API ───────────────────────────────────────────────────────────────

/// Initialise the CyberFabric subsystem.
pub fn init(slot: &mut Option<FabricState>)
    ensures
        fabric_of(*final(slot)) == fabric_of(*old(slot)).after_init(),
        *final(slot) is Some,
{
    let state = fabric_lock(slot);
    state.initialised = true;
}

/// Register a node as a fabric endpoint, enabling P2P DMA to/from it.
///
/// Issues a [`CapabilityKind::FabricEndpoint`] capability for the node and
/// stores the endpoint descriptor.
///
/// # Errors
/// Returns [`FabricError::NotInitialised`] if the fabric is not up, and
/// [`FabricError::AlreadyRegistered`] if the node is already present; no capability
/// is issued then.
pub fn register_endpoint(
    slot: &mut Option<FabricState>,
    capabilities: &mut Option<CapabilityTable>,
    node_id: NodeId,
    node_kind: NodeKind,
    mr_base: u64,
    mr_length: usize,
) -> (r: Result<FabricEndpoint, FabricError>)
    requires
        fabric_of(*old(slot)).register_refusal(node_id) is None ==> table_of(
            *old(capabilities),
        ).has_free_id(),
    ensures
        match fabric_of(*old(slot)).register_refusal(node_id) {
            Some(error) => {
                &&& r == Err::<FabricEndpoint, _>(error)
                &&& fabric_of(*final(slot)) == fabric_of(*old(slot))
                &&& *final(capabilities) == *old(capabilities)
            },
            None => {
                let endpoint = new_endpoint(
                    table_of(*old(capabilities)),
                    node_id,
                    node_kind,
                    mr_base,
                    mr_length,
                );
                &&& r == Ok::<_, FabricError>(endpoint)
                &&& fabric_of(*final(slot)) == fabric_of(*old(slot)).after_register(endpoint)
                &&& table_of(*final(capabilities)) == table_of(*old(capabilities)).after_issue(
                    CapabilityKind::FabricEndpoint,
                    endpoint_rights(),
                )
                &&& *final(capabilities) is Some
            },
        },
        *final(slot) is Some,
        fabric_of(*old(slot)).wf() ==> fabric_of(*final(slot)).wf(),
{
    let state = fabric_lock(slot);

    if let Some(error) = state.register_refusal(node_id) {
        return Err(error);
    }
    let cap = issue(
        capabilities,
        CapabilityKind::FabricEndpoint,
        CapabilityRights::READ() | CapabilityRights::WRITE() | CapabilityRights::DMA(),
    );

    let endpoint = FabricEndpoint { node_id, node_kind, mr_base, mr_length, capability: cap };
    state.endpoints.insert(node_id.0, endpoint.clone());
    Ok(endpoint)
}

/// Look up a registered fabric endpoint by node ID.
///
/// Returns a clone of the endpoint descriptor, or [`FabricError::UnknownNode`].
pub fn lookup_endpoint(slot: &mut Option<FabricState>, node_id: NodeId) -> (r: Result<
    FabricEndpoint,
    FabricError,
>)
    ensures
        r == fabric_of(*old(slot)).lookup(node_id),
        fabric_of(*final(slot)) == fabric_of(*old(slot)),
        *final(slot) is Some,
{
    let state = fabric_lock(slot);
    match state.endpoints.get(node_id.0) {
        Some(endpoint) => Ok(endpoint.clone()),
        None => Err(FabricError::UnknownNode),
    }
}

// ── Laws ─────────────────────────────────────────────────────────────────────

/// A lookup gives back what was registered, and the answers for all other nodes
/// stay as they were.
pub proof fn law_lookup_returns_what_was_registered(
    fabric: FabricTable,
    endpoint: FabricEndpoint,
    other: NodeId,
)
    ensures
        fabric.after_register(endpoint).lookup(endpoint.node_id) == Ok::<_, FabricError>(endpoint),
        other != endpoint.node_id ==> fabric.after_register(endpoint).lookup(other)
            == fabric.lookup(other),
{
}

/// A node that was registered cannot be registered again, and no registration ever
/// displaces another endpoint.
pub proof fn law_registered_once(fabric: FabricTable, endpoint: FabricEndpoint, later: FabricEndpoint)
    requires
        fabric.register_refusal(endpoint.node_id) is None,
    ensures
        fabric.after_register(endpoint).register_refusal(endpoint.node_id) == Some(
            FabricError::AlreadyRegistered,
        ),
        fabric.after_register(endpoint).register_refusal(later.node_id) is None
            ==> fabric.after_register(endpoint).after_register(later).lookup(endpoint.node_id)
            == Ok::<_, FabricError>(endpoint),
{
}

/// What can happen to the fabric.
pub enum FabricEvent {
    /// The fabric is initialised, for the first time or again.
    Init,
    /// The registration of an endpoint is asked for.
    Register { endpoint: FabricEndpoint },
}

impl FabricTable {
    /// The state after an event.
    pub open spec fn after(self, event: FabricEvent) -> FabricTable {
        match event {
            FabricEvent::Init => self.after_init(),
            FabricEvent::Register { endpoint } => match self.register_refusal(endpoint.node_id) {
                Some(_) => self,
                None => self.after_register(endpoint),
            },
        }
    }

    /// The state after the events have happened in order.
    pub open spec fn after_all(self, events: Seq<FabricEvent>) -> FabricTable
        decreases events.len(),
    {
        if events.len() == 0 {
            self
        } else {
            self.after_all(events.drop_last()).after(events.last())
        }
    }

    /// Whether the endpoint's registration is asked for at position `i`, and granted
    /// when its turn comes.
    pub open spec fn registers_at(
        self,
        events: Seq<FabricEvent>,
        i: int,
        endpoint: FabricEndpoint,
    ) -> bool {
        &&& events[i] == (FabricEvent::Register { endpoint })
        &&& self.after_all(events.take(i)).register_refusal(endpoint.node_id) is None
    }

    /// Whether the endpoint's registration is granted at some time.
    pub open spec fn registers(self, events: Seq<FabricEvent>, endpoint: FabricEndpoint) -> bool {
        exists|i: int|
            0 <= i < events.len() && #[trigger] self.registers_at(events, i, endpoint)
    }
}

/// A lookup answers with an endpoint exactly when that endpoint's registration was
/// granted at some time, whatever else has happened to the fabric; and with
/// `UnknownNode` exactly when no registration of that node was.
pub proof fn law_lookup_finds_what_was_registered(
    events: Seq<FabricEvent>,
    endpoint: FabricEndpoint,
    node_id: NodeId,
)
    ensures
        FabricTable::fresh().after_all(events).lookup(endpoint.node_id) == Ok::<_, FabricError>(
            endpoint,
        ) <==> FabricTable::fresh().registers(events, endpoint),
        FabricTable::fresh().after_all(events).lookup(node_id) == Err::<FabricEndpoint, _>(
            FabricError::UnknownNode,
        ) <==> forall|other: FabricEndpoint| #[trigger]
            FabricTable::fresh().registers(events, other) ==> other.node_id != node_id,
{
    let fresh = FabricTable::fresh();
    let after = fresh.after_all(events);
    lemma_registry_holds_registrations(fresh, events, endpoint);
    assert forall|other: FabricEndpoint| #[trigger] fresh.registers(events, other) implies after.lookup(
        other.node_id,
    ) == Ok::<_, FabricError>(other) by {
        lemma_registry_holds_registrations(fresh, events, other);
    }
    if after.endpoints.dom().contains(node_id.0) {
        let found = after.endpoints[node_id.0];
        lemma_found_under_own_node(fresh, events, node_id.0);
        lemma_registry_holds_registrations(fresh, events, found);
        assert(fresh.registers(events, found));
    }
}

/// What the registry holds for a node is an endpoint of that node.
proof fn lemma_found_under_own_node(fabric: FabricTable, events: Seq<FabricEvent>, node: u64)
    requires
        fabric.endpoints.dom().contains(node) ==> fabric.endpoints[node].node_id.0 == node,
    ensures
        fabric.after_all(events).endpoints.dom().contains(node) ==> fabric.after_all(
            events,
        ).endpoints[node].node_id.0 == node,
    decreases events.len(),
{
    if events.len() > 0 {
        lemma_found_under_own_node(fabric, events.drop_last(), node);
    }
}

/// The registry holds what it held before and what was registered since.
proof fn lemma_registry_holds_registrations(
    fabric: FabricTable,
    events: Seq<FabricEvent>,
    endpoint: FabricEndpoint,
)
    ensures
        fabric.after_all(events).lookup(endpoint.node_id) == Ok::<_, FabricError>(endpoint)
            <==> fabric.lookup(endpoint.node_id) == Ok::<_, FabricError>(endpoint)
            || fabric.registers(events, endpoint),
    decreases events.len(),
{
    if events.len() > 0 {
        let rest = events.drop_last();
        let last = events.len() - 1;
        lemma_registry_holds_registrations(fabric, rest, endpoint);
        assert(events.take(last) =~= rest);
        assert forall|i: int| 0 <= i < last implies #[trigger] fabric.registers_at(
            events,
            i,
            endpoint,
        ) == fabric.registers_at(rest, i, endpoint) by {
            assert(events.take(i) =~= rest.take(i));
        }
        if fabric.registers(rest, endpoint) {
            let i = choose|i: int|
                0 <= i < rest.len() && #[trigger] fabric.registers_at(rest, i, endpoint);
            assert(fabric.registers_at(events, i, endpoint));
        }
        if fabric.registers(events, endpoint) {
            let i = choose|i: int|
                0 <= i < events.len() && #[trigger] fabric.registers_at(events, i, endpoint);
            if i < last {
                assert(fabric.registers_at(rest, i, endpoint));
            }
        }
        if fabric.after_all(events).lookup(endpoint.node_id) == Ok::<_, FabricError>(endpoint)
            && fabric.after_all(rest).lookup(endpoint.node_id) != Ok::<_, FabricError>(endpoint) {
            assert(fabric.registers_at(events, last, endpoint));
        }
    }
}

/// The capability of a new endpoint is live, and good for reading, writing and DMA,
/// and for no other right.
pub proof fn law_endpoint_capability_is_live(
    table: TableState,
    node_id: NodeId,
    node_kind: NodeKind,
    mr_base: u64,
    mr_length: usize,
)
    requires
        table.wf(),
        table.has_free_id(),
    ensures
        ({
            let endpoint = new_endpoint(table, node_id, node_kind, mr_base, mr_length);
            let after = table.after_issue(CapabilityKind::FabricEndpoint, endpoint_rights());
            let cap = endpoint.capability;
            &&& after.validation(cap.id, CapabilityRights::READ()) is Ok
            &&& after.validation(cap.id, CapabilityRights::WRITE()) is Ok
            &&& after.validation(cap.id, CapabilityRights::DMA()) is Ok
            &&& after.validation(cap.id, CapabilityRights::TRANSFER()) is Err
            &&& after.validation(cap.id, CapabilityRights::DERIVE()) is Err
            &&& after.validation(cap.id, CapabilityRights::EXECUTE()) is Err
        }),
{
    assert(((1u16 | 2u16) | 16u16) == 19u16) by (bit_vector);
    assert(19u16 & 1u16 == 1u16 && 19u16 & 2u16 == 2u16 && 19u16 & 16u16 == 16u16 && 19u16 & 4u16
        != 4u16 && 19u16 & 8u16 != 8u16 && 19u16 & 32u16 != 32u16) by (bit_vector);
}

} // verus!
