//! # Capability System
//!
//! Every operation on a hardware resource (a DMA buffer, a compute region, a
//! fabric endpoint, a verified data path) asks for a capability token. The kernel
//! issues tokens, keeps the table that says which of them are live and with which
//! rights, and decides by that table whether a token is good.
//!
//! - A capability has a **kind** (the resource it stands for) and a set of
//!   **rights** (the operations it permits).
//! - What a holder writes into a token gains nothing: validation goes by the id and
//!   by the rights recorded under it when the token was issued, and where a resource
//!   asks for a kind, both the token and the record must be of that kind.
//! - Ids are handed out in increasing order and never a second time, so a revoked
//!   id stays revoked.
//!
//! The table of a running kernel lives in a slot, an `Option` that is empty until
//! the first use. Every operation takes the slot and fills it when it is empty, so
//! an empty slot behaves as a fresh table: see [`table_of`].
pub mod laws;
pub mod types;

use vstd::prelude::*;

use crate::collections::CapabilityMap;
#[allow(unused_imports)]
use crate::collections::capabilities_in;

pub use types::{AuthorizedDmaBuffer, ComputeCapability};

verus! {

// ── CapabilityId ─────────────────────────────────────────────────────────────

/// A unique, monotonically increasing identifier for each issued capability.
#[derive(Debug, Clone, Copy, PartialEq, Eq, Hash, Structural)]
pub struct CapabilityId(pub u64);

// ── CapabilityKind ───────────────────────────────────────────────────────────

/// The kind of resource a capability grants access to.
#[derive(Debug, Clone, Copy, PartialEq, Eq, Structural)]
pub enum CapabilityKind {
    /// A physically pinned, IOMMU-mapped DMA buffer.
    DmaBuffer,
    /// A compute region (GPU/NPU execution context).
    ComputeRegion,
    /// A CyberFabric (RDMA) endpoint.
    FabricEndpoint,
    /// A Trust-Verify Data Path session handle.
    TvdpSession,
}

// ── CapabilityRights ─────────────────────────────────────────────────────────

/// Fine-grained rights associated with a capability: a set of flags, one bit each.
#[derive(Debug, Clone, Copy, PartialEq, Eq, Structural)]
pub struct CapabilityRights {
    /// The flags, as a bit pattern.
    pub bits: u16,
}

#[allow(non_snake_case)]
impl CapabilityRights {
    /// May read from / query the resource.
    #[verifier::allow_in_spec]
    pub fn READ() -> CapabilityRights
        returns
            (CapabilityRights { bits: 0b0000_0000_0001 }),
    {
        CapabilityRights { bits: 0b0000_0000_0001 }
    }

    /// May write to / modify the resource.
    #[verifier::allow_in_spec]
    pub fn WRITE() -> CapabilityRights
        returns
            (CapabilityRights { bits: 0b0000_0000_0010 }),
    {
        CapabilityRights { bits: 0b0000_0000_0010 }
    }

    /// May transfer the capability to another domain.
    #[verifier::allow_in_spec]
    pub fn TRANSFER() -> CapabilityRights
        returns
            (CapabilityRights { bits: 0b0000_0000_0100 }),
    {
        CapabilityRights { bits: 0b0000_0000_0100 }
    }

    /// May derive a child capability with equal or lesser rights.
    #[verifier::allow_in_spec]
    pub fn DERIVE() -> CapabilityRights
        returns
            (CapabilityRights { bits: 0b0000_0000_1000 }),
    {
        CapabilityRights { bits: 0b0000_0000_1000 }
    }

    /// May initiate a DMA transfer using this resource.
    #[verifier::allow_in_spec]
    pub fn DMA() -> CapabilityRights
        returns
            (CapabilityRights { bits: 0b0000_0001_0000 }),
    {
        CapabilityRights { bits: 0b0000_0001_0000 }
    }

    /// May schedule compute work on this resource.
    #[verifier::allow_in_spec]
    pub fn EXECUTE() -> CapabilityRights
        returns
            (CapabilityRights { bits: 0b0000_0010_0000 }),
    {
        CapabilityRights { bits: 0b0000_0010_0000 }
    }
}

impl CapabilityRights {
    /// Whether every flag of `other` is among these.
    pub open spec fn includes(self, other: CapabilityRights) -> bool {
        self.bits & other.bits == other.bits
    }

    /// The flags of both.
    pub open spec fn union(self, other: CapabilityRights) -> CapabilityRights {
        CapabilityRights { bits: self.bits | other.bits }
    }

    /// Whether the flag with the given bit number is among these.
    pub open spec fn has_flag(self, bit: u16) -> bool {
        (self.bits >> bit) & 1 == 1
    }

    /// Whether every flag of `other` is among these.
    pub fn contains(&self, other: CapabilityRights) -> (r: bool)
        ensures
            r == self.includes(other),
    {
        self.bits & other.bits == other.bits
    }
}

impl core::ops::BitOr for CapabilityRights {
    type Output = CapabilityRights;

    /// The flags of both.
    fn bitor(self, rhs: CapabilityRights) -> (r: CapabilityRights) {
        CapabilityRights { bits: self.bits | rhs.bits }
    }
}

impl vstd::std_specs::ops::BitOrSpecImpl for CapabilityRights {
    open spec fn obeys_bitor_spec() -> bool {
        true
    }

    open spec fn bitor_req(self, rhs: CapabilityRights) -> bool {
        true
    }

    open spec fn bitor_spec(self, rhs: CapabilityRights) -> CapabilityRights {
        self.union(rhs)
    }
}

// ── Capability ───────────────────────────────────────────────────────────────

/// A kernel capability token.
///
/// Created by the kernel via [`issue`] and validated before any privileged
/// operation.
#[derive(Debug)]
pub struct Capability {
    /// Unique identifier assigned at issuance.
    pub id: CapabilityId,
    /// What resource this capability represents.
    pub kind: CapabilityKind,
    /// Permitted operations.
    pub rights: CapabilityRights,
}

impl Clone for Capability {
    fn clone(&self) -> (r: Self)
        ensures
            r == *self,
    {
        Capability { id: self.id, kind: self.kind, rights: self.rights }
    }
}

// ── CapabilityError ──────────────────────────────────────────────────────────

/// Errors that can be returned by capability operations.
#[derive(Debug, PartialEq, Eq, Structural)]
pub enum CapabilityError {
    /// No capability with the given ID exists in the table.
    NotFound,
    /// The capability exists but does not grant the requested right.
    InsufficientRights,
    /// The capability has already been consumed / revoked.
    Revoked,
    /// The capability table is full.
    TableFull,
}

// ── The table, as a mathematical state ───────────────────────────────────────

/// The state of a capability table: the number of the next id, and the live
/// capabilities by the number of their id.
#[verifier::ext_equal]
pub struct TableState {
    pub next_id: u64,
    pub entries: Map<u64, Capability>,
}

impl TableState {
    /// A table that has issued nothing.
    pub open spec fn fresh() -> TableState {
        TableState { next_id: 1, entries: Map::empty() }
    }

    /// Every id in the table was issued by it, and is the id of the capability
    /// recorded under it.
    pub open spec fn wf(self) -> bool {
        &&& 1 <= self.next_id
        &&& forall|id: u64| #[trigger]
            self.entries.dom().contains(id) ==> 1 <= id < self.next_id
                && self.entries[id].id.0 == id
    }

    /// Whether there is an id left for one more capability.
    pub open spec fn has_free_id(self) -> bool {
        self.next_id < u64::MAX
    }

    /// The capability that the table issues next.
    pub open spec fn next_capability(
        self,
        kind: CapabilityKind,
        rights: CapabilityRights,
    ) -> Capability {
        Capability { id: CapabilityId(self.next_id), kind, rights }
    }

    /// The table once it has issued a capability.
    pub open spec fn after_issue(self, kind: CapabilityKind, rights: CapabilityRights) -> TableState {
        TableState {
            next_id: (self.next_id + 1) as u64,
            entries: self.entries.insert(self.next_id, self.next_capability(kind, rights)),
        }
    }

    /// The answer to a revocation of `id`.
    pub open spec fn revocation(self, id: CapabilityId) -> Result<(), CapabilityError> {
        if self.entries.dom().contains(id.0) {
            Ok(())
        } else {
            Err(CapabilityError::NotFound)
        }
    }

    /// The table once `id` is revoked.
    pub open spec fn after_revoke(self, id: CapabilityId) -> TableState {
        TableState { next_id: self.next_id, entries: self.entries.remove(id.0) }
    }

    /// The answer to a holder who presents `id` and asks for `required_right`.
    pub open spec fn validation(
        self,
        id: CapabilityId,
        required_right: CapabilityRights,
    ) -> Result<(), CapabilityError> {
        if !self.was_issued(id) {
            Err(CapabilityError::NotFound)
        } else if !self.entries.dom().contains(id.0) {
            Err(CapabilityError::Revoked)
        } else if self.entries[id.0].rights.includes(required_right) {
            Ok(())
        } else {
            Err(CapabilityError::InsufficientRights)
        }
    }

    /// Whether the table has ever issued `id`.
    pub open spec fn was_issued(self, id: CapabilityId) -> bool {
        1 <= id.0 < self.next_id
    }

    /// Whether the capability is live and was issued as one of the kind it shows.
    pub open spec fn vouches_for(self, cap: Capability) -> bool {
        &&& self.entries.dom().contains(cap.id.0)
        &&& self.entries[cap.id.0].kind == cap.kind
    }

    /// Why `cap` does not give access to a resource of this kind with this right;
    /// `None` if it does. The kind comes first: the one that the token shows, and the
    /// one that it was issued with.
    pub open spec fn refusal(
        self,
        cap: Capability,
        kind: CapabilityKind,
        required_right: CapabilityRights,
    ) -> Option<CapabilityError> {
        if cap.kind != kind || (self.entries.dom().contains(cap.id.0)
            && self.entries[cap.id.0].kind != kind) {
            Some(CapabilityError::InsufficientRights)
        } else {
            match self.validation(cap.id, required_right) {
                Ok(()) => None,
                Err(error) => Some(error),
            }
        }
    }
}

/// The state of the table in a slot; an empty slot stands for a fresh table.
pub open spec fn table_of(slot: Option<CapabilityTable>) -> TableState {
    match slot {
        Some(table) => table@,
        None => TableState::fresh(),
    }
}

// ── Capability table ─────────────────────────────────────────────────────────

/// The kernel's record of the capabilities that are live.
pub struct CapabilityTable {
    next_id: u64,
    entries: CapabilityMap,
}

impl View for CapabilityTable {
    type V = TableState;

    closed spec fn view(&self) -> TableState {
        TableState { next_id: self.next_id, entries: capabilities_in(self.entries) }
    }
}

impl CapabilityTable {
    /// A table that has issued nothing; its first id is 1.
    pub fn new() -> (table: Self)
        ensures
            table@ == TableState::fresh(),
            table@.wf(),
    {
        CapabilityTable { next_id: 1, entries: CapabilityMap::new() }
    }

    /// Whether there is an id left for one more capability.
    pub fn has_free_id(&self) -> (r: bool)
        ensures
            r == self@.has_free_id(),
    {
        self.next_id < u64::MAX
    }

    /// Issue a capability under the next id and record it.
    pub fn issue(&mut self, kind: CapabilityKind, rights: CapabilityRights) -> (cap: Capability)
        requires
            old(self)@.has_free_id(),
        ensures
            cap == old(self)@.next_capability(kind, rights),
            final(self)@ == old(self)@.after_issue(kind, rights),
            old(self)@.wf() ==> final(self)@.wf(),
    {
        let id = CapabilityId(self.next_id);
        self.next_id += 1;
        let cap = Capability { id, kind, rights };
        self.entries.insert(id.0, cap.clone());
        cap
    }

    /// Take the capability with this id out of the table.
    pub fn revoke(&mut self, id: CapabilityId) -> (r: Result<(), CapabilityError>)
        ensures
            r == old(self)@.revocation(id),
            final(self)@ == old(self)@.after_revoke(id),
            old(self)@.wf() ==> final(self)@.wf(),
    {
        match self.entries.remove(id.0) {
            Some(_) => Ok(()),
            None => Err(CapabilityError::NotFound),
        }
    }

    /// The capability recorded under this id, if it is live.
    pub fn lookup(&self, id: CapabilityId) -> (r: Option<&Capability>)
        ensures
            r is Some <==> self@.entries.dom().contains(id.0),
            r matches Some(cap) ==> *cap == self@.entries[id.0],
    {
        self.entries.get(id.0)
    }
}

/// The table in the slot, which is filled with a fresh one when it is empty.
pub(crate) fn table_lock(slot: &mut Option<CapabilityTable>) -> (table: &mut CapabilityTable)
    ensures
        table@ == table_of(*old(slot)),
        *final(slot) == Some(*final(table)),
{
    if slot.is_none() {
        *slot = Some(CapabilityTable::new());
    }
    slot.as_mut().unwrap()
}

// ── Public API ───────────────────────────────────────────────────────────────

/// Initialise the capability subsystem.
///
/// A slot that holds a table keeps it.
pub fn init(slot: &mut Option<CapabilityTable>)
    ensures
        *final(slot) is Some,
        table_of(*final(slot)) == table_of(*old(slot)),
        *old(slot) is Some ==> *final(slot) == *old(slot),
{
    if slot.is_none() {
        *slot = Some(CapabilityTable::new());
    }
}

/// Issue a new capability of `kind` with `rights`.
///
/// Returns the new [`Capability`] token. The token is also recorded in the
/// kernel capability table for later validation.
pub fn issue(
    slot: &mut Option<CapabilityTable>,
    kind: CapabilityKind,
    rights: CapabilityRights,
) -> (cap: Capability)
    requires
        table_of(*old(slot)).has_free_id(),
    ensures
        cap == table_of(*old(slot)).next_capability(kind, rights),
        table_of(*final(slot)) == table_of(*old(slot)).after_issue(kind, rights),
        *final(slot) is Some,
        table_of(*old(slot)).wf() ==> table_of(*final(slot)).wf(),
{
    table_lock(slot).issue(kind, rights)
}

/// Revoke (invalidate) a capability by ID.
///
/// After revocation any further use of a [`Capability`] with this ID will
/// return [`CapabilityError::Revoked`].
pub fn revoke(slot: &mut Option<CapabilityTable>, id: CapabilityId) -> (r: Result<
    (),
    CapabilityError,
>)
    ensures
        r == table_of(*old(slot)).revocation(id),
        table_of(*final(slot)) == table_of(*old(slot)).after_revoke(id),
        *final(slot) is Some,
        table_of(*old(slot)).wf() ==> table_of(*final(slot)).wf(),
{
    table_lock(slot).revoke(id)
}

/// Validate that `cap` exists in the table and has `required_right`.
///
/// Returns `Ok(())` if valid. An id that was never issued is
/// [`CapabilityError::NotFound`], one that was revoked
/// [`CapabilityError::Revoked`], and a live one without the right
/// [`CapabilityError::InsufficientRights`]. Of `cap`, only the id counts.
pub fn validate(
    slot: &mut Option<CapabilityTable>,
    cap: &Capability,
    required_right: CapabilityRights,
) -> (r: Result<(), CapabilityError>)
    ensures
        r == table_of(*old(slot)).validation(cap.id, required_right),
        table_of(*final(slot)) == table_of(*old(slot)),
        *final(slot) is Some,
{
    let table = table_lock(slot);
    if cap.id.0 == 0 || cap.id.0 >= table.next_id {
        return Err(CapabilityError::NotFound);
    }
    match table.lookup(cap.id) {
        None => Err(CapabilityError::Revoked),
        Some(stored) => {
            if stored.rights.contains(required_right) {
                Ok(())
            } else {
                Err(CapabilityError::InsufficientRights)
            }
        },
    }
}

/// Whether `cap` is live and was issued as one of the kind it shows.
pub(crate) fn vouches_for(slot: &mut Option<CapabilityTable>, cap: &Capability) -> (r: bool)
    ensures
        r == table_of(*old(slot)).vouches_for(*cap),
        table_of(*final(slot)) == table_of(*old(slot)),
        *final(slot) is Some,
{
    let table = table_lock(slot);
    match table.lookup(cap.id) {
        None => false,
        Some(stored) => stored.kind == cap.kind,
    }
}

/// Check that `cap` gives access to a resource of `kind` with `required_right`.
pub(crate) fn authorise(
    slot: &mut Option<CapabilityTable>,
    cap: &Capability,
    kind: CapabilityKind,
    required_right: CapabilityRights,
) -> (r: Result<(), CapabilityError>)
    ensures
        r == match table_of(*old(slot)).refusal(*cap, kind, required_right) {
            Some(error) => Err(error),
            None => Ok(()),
        },
        table_of(*final(slot)) == table_of(*old(slot)),
        if cap.kind == kind {
            *final(slot) is Some
        } else {
            *final(slot) == *old(slot)
        },
{
    if cap.kind != kind {
        return Err(CapabilityError::InsufficientRights);
    }
    let table = table_lock(slot);
    if let Some(stored) = table.lookup(cap.id) {
        if stored.kind != kind {
            return Err(CapabilityError::InsufficientRights);
        }
    }
    validate(slot, cap, required_right)
}

} // verus!
