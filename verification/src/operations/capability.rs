//! What the operations on capabilities do.
use vstd::prelude::*;

#[allow(unused_imports)]
use crate::capability::{
    init, issue, revoke, table_of, validate, AuthorizedDmaBuffer, Capability, CapabilityError,
    CapabilityId, CapabilityKind, CapabilityRights, CapabilityTable, ComputeCapability, TableState,
};
#[allow(unused_imports)]
use crate::memory::allocator::{BumpAllocator, PhysicallyPinned};

verus! {

// ── Rights ───────────────────────────────────────────────────────────────────

/// Every right is one bit of its own.
pub proof fn law_rights_are_single_bits()
    ensures
        CapabilityRights::READ().bits == 1,
        CapabilityRights::WRITE().bits == 2,
        CapabilityRights::TRANSFER().bits == 4,
        CapabilityRights::DERIVE().bits == 8,
        CapabilityRights::DMA().bits == 16,
        CapabilityRights::EXECUTE().bits == 32,
{
}

/// A set of rights contains another if no bit of the other is missing, and the union
/// has the bits of both.
pub proof fn law_rights_are_sets_of_bits(
    a: CapabilityRights,
    b: CapabilityRights,
    r: bool,
    union: CapabilityRights,
)
    requires
        call_ensures(CapabilityRights::contains, (&a, b), r),
        call_ensures(<CapabilityRights as core::ops::BitOr>::bitor, (a, b), union),
    ensures
        r <==> b.bits & !a.bits == 0,
        union.bits == a.bits | b.bits,
        a.union(b).bits == a.bits | b.bits,
{
    let x = a.bits;
    let y = b.bits;
    assert((x & y == y) <==> (y & !x == 0)) by (bit_vector);
}

// ── The table ────────────────────────────────────────────────────────────────

/// An empty slot holds no capability, and its first id is 1; so does a new table.
pub proof fn law_table_starts_empty(table: CapabilityTable, id: u64)
    requires
        call_ensures(CapabilityTable::new, (), table),
    ensures
        table@.next_id == 1,
        !table@.entries.dom().contains(id),
        table_of(None).next_id == 1,
        !table_of(None).entries.dom().contains(id),
        table_of(Some(table)) == table@,
{
}

/// Initialising the subsystem fills the slot and keeps every capability.
pub proof fn law_init_keeps_capabilities(slot: &mut Option<CapabilityTable>)
    requires
        call_ensures(init, (slot,), ()),
    ensures
        *final(slot) is Some,
        table_of(*final(slot)).next_id == table_of(*old(slot)).next_id,
        table_of(*final(slot)).entries == table_of(*old(slot)).entries,
{
}

/// Issuing hands out the next id, with the kind and the rights that were asked for, as
/// the token and as the record of it; every other record stays as it was.
pub proof fn law_issue_records_what_was_asked(
    slot: &mut Option<CapabilityTable>,
    kind: CapabilityKind,
    rights: CapabilityRights,
    cap: Capability,
    other: u64,
)
    requires
        call_ensures(issue, (slot, kind, rights), cap),
    ensures
        ({
            let before = table_of(*old(slot));
            let after = table_of(*final(slot));
            &&& cap.id.0 == before.next_id
            &&& cap.kind == kind
            &&& cap.rights.bits == rights.bits
            &&& before.next_id < u64::MAX ==> after.next_id == before.next_id + 1
            &&& after.entries.dom().contains(cap.id.0)
            &&& after.entries[cap.id.0] == cap
            &&& other != cap.id.0 ==> {
                &&& after.entries.dom().contains(other) <==> before.entries.dom().contains(other)
                &&& before.entries.dom().contains(other) ==> after.entries[other]
                    == before.entries[other]
            }
        }),
{
}

/// The same of the table itself.
pub proof fn law_table_issue_records_what_was_asked(
    table: &mut CapabilityTable,
    kind: CapabilityKind,
    rights: CapabilityRights,
    cap: Capability,
    other: u64,
)
    requires
        call_ensures(CapabilityTable::issue, (table, kind, rights), cap),
    ensures
        cap.id.0 == old(table)@.next_id,
        cap.kind == kind,
        cap.rights.bits == rights.bits,
        old(table)@.next_id < u64::MAX ==> final(table)@.next_id == old(table)@.next_id + 1,
        final(table)@.entries.dom().contains(cap.id.0),
        final(table)@.entries[cap.id.0] == cap,
        other != cap.id.0 ==> {
            &&& final(table)@.entries.dom().contains(other) <==> old(table)@.entries.dom().contains(
                other,
            )
            &&& old(table)@.entries.dom().contains(other) ==> final(table)@.entries[other]
                == old(table)@.entries[other]
        },
{
}

/// Capabilities can be issued as long as there is an id left, and the table says
/// whether there is one.
pub proof fn law_issue_needs_only_an_id(
    slot: &mut Option<CapabilityTable>,
    table: &mut CapabilityTable,
    seen: &CapabilityTable,
    kind: CapabilityKind,
    rights: CapabilityRights,
    r: bool,
)
    requires
        call_ensures(CapabilityTable::has_free_id, (seen,), r),
    ensures
        table_of(*old(slot)).next_id < u64::MAX ==> call_requires(issue, (slot, kind, rights)),
        old(table)@.next_id < u64::MAX ==> call_requires(
            CapabilityTable::issue,
            (table, kind, rights),
        ),
        r <==> seen@.next_id < u64::MAX,
{
}

/// Revoking a live capability always succeeds, whatever its kind and rights, and takes
/// it out of the table; revoking anything else finds nothing and changes nothing; and
/// every other capability stays as it was.
pub proof fn law_revoke_takes_exactly_one_out(
    slot: &mut Option<CapabilityTable>,
    id: CapabilityId,
    r: Result<(), CapabilityError>,
    other: u64,
)
    requires
        call_ensures(revoke, (slot, id), r),
    ensures
        ({
            let before = table_of(*old(slot));
            let after = table_of(*final(slot));
            &&& r is Ok <==> before.entries.dom().contains(id.0)
            &&& r is Err ==> r == Err::<(), _>(CapabilityError::NotFound)
            &&& !after.entries.dom().contains(id.0)
            &&& after.next_id == before.next_id
            &&& other != id.0 ==> {
                &&& after.entries.dom().contains(other) <==> before.entries.dom().contains(other)
                &&& before.entries.dom().contains(other) ==> after.entries[other]
                    == before.entries[other]
            }
        }),
{
}

/// The same of the table itself.
pub proof fn law_table_revoke_takes_exactly_one_out(
    table: &mut CapabilityTable,
    id: CapabilityId,
    r: Result<(), CapabilityError>,
    other: u64,
)
    requires
        call_ensures(CapabilityTable::revoke, (table, id), r),
    ensures
        r is Ok <==> old(table)@.entries.dom().contains(id.0),
        r is Err ==> r == Err::<(), _>(CapabilityError::NotFound),
        !final(table)@.entries.dom().contains(id.0),
        final(table)@.next_id == old(table)@.next_id,
        other != id.0 ==> {
            &&& final(table)@.entries.dom().contains(other) <==> old(table)@.entries.dom().contains(
                other,
            )
            &&& old(table)@.entries.dom().contains(other) ==> final(table)@.entries[other]
                == old(table)@.entries[other]
        },
{
}

/// A live capability can always be revoked, and is not live afterwards.
pub proof fn law_live_capability_can_be_revoked(table: TableState, id: CapabilityId)
    requires
        table.wf(),
        table.entries.dom().contains(id.0),
    ensures
        table.revocation(id) is Ok,
        !table.after_revoke(id).entries.dom().contains(id.0),
        table.after_revoke(id).next_id == table.next_id,
{
}

/// A look into the table gives back the record of a live id, and nothing for others.
pub proof fn law_lookup_shows_the_record(
    table: &CapabilityTable,
    id: CapabilityId,
    r: Option<&Capability>,
)
    requires
        call_ensures(CapabilityTable::lookup, (table, id), r),
    ensures
        r is Some <==> table@.entries.dom().contains(id.0),
        r is Some ==> *r->0 == table@.entries[id.0],
{
}

/// Validation succeeds exactly if the id was issued, is live, and no bit of the
/// required right is missing from the rights on record. An id that was never issued is
/// not found; one that was issued and is not live is revoked; and what is live lacks a
/// right. Nothing changes.
pub proof fn law_validate_goes_by_the_record(
    slot: &mut Option<CapabilityTable>,
    cap: &Capability,
    required_right: CapabilityRights,
    r: Result<(), CapabilityError>,
)
    requires
        call_ensures(validate, (slot, cap, required_right), r),
    ensures
        ({
            let table = table_of(*old(slot));
            let id = cap.id.0;
            let issued = 0 < id && id < table.next_id;
            let live = table.entries.dom().contains(id);
            let missing = required_right.bits & !table.entries[id].rights.bits;
            &&& r is Ok <==> issued && live && missing == 0
            &&& r == Err::<(), _>(CapabilityError::NotFound) <==> !issued
            &&& r == Err::<(), _>(CapabilityError::Revoked) <==> issued && !live
            &&& r == Err::<(), _>(CapabilityError::InsufficientRights) <==> issued && live
                && missing != 0
            &&& table_of(*final(slot)) == table
        }),
{
    let x = table_of(*old(slot)).entries[cap.id.0].rights.bits;
    let y = required_right.bits;
    assert((x & y == y) <==> (y & !x == 0)) by (bit_vector);
}

/// What is issued can be used, with every part of its rights and with nothing else;
/// what is revoked cannot.
pub proof fn law_issue_revoke_validate(
    first: &mut Option<CapabilityTable>,
    second: &mut Option<CapabilityTable>,
    third: &mut Option<CapabilityTable>,
    fourth: &mut Option<CapabilityTable>,
    kind: CapabilityKind,
    rights: CapabilityRights,
    required_right: CapabilityRights,
    cap: Capability,
    valid: Result<(), CapabilityError>,
    revoked: Result<(), CapabilityError>,
    later: Result<(), CapabilityError>,
)
    requires
        call_ensures(issue, (first, kind, rights), cap),
        call_ensures(validate, (second, &cap, required_right), valid),
        call_ensures(revoke, (third, cap.id), revoked),
        call_ensures(validate, (fourth, &cap, required_right), later),
    ensures
        table_of(*old(first)).wf() && table_of(*old(first)).next_id < u64::MAX && *old(second)
            == *final(first) && *old(third) == *final(second) && *old(fourth) == *final(third)
            ==> {
            &&& valid is Ok <==> required_right.bits & !rights.bits == 0
            &&& revoked is Ok
            &&& later == Err::<(), _>(CapabilityError::Revoked)
        },
{
    let x = rights.bits;
    let y = required_right.bits;
    assert((x & y == y) <==> (y & !x == 0)) by (bit_vector);
}

// ── The wrappers ─────────────────────────────────────────────────────────────

/// A buffer is authorised exactly if the token shows a DMA buffer and is live, and was
/// issued as a DMA buffer with the DMA right (bit 4). The buffer then has the frame,
/// the length and the token that were handed in; otherwise the same frame comes back,
/// with the reason.
pub proof fn law_dma_buffer_is_authorised(
    slot: &mut Option<CapabilityTable>,
    pinned: PhysicallyPinned,
    length: usize,
    cap: Capability,
    r: Result<AuthorizedDmaBuffer, (PhysicallyPinned, CapabilityError)>,
)
    requires
        call_ensures(AuthorizedDmaBuffer::new, (slot, pinned, length, cap), r),
    ensures
        ({
            let table = table_of(*old(slot));
            let id = cap.id.0;
            let issued = 0 < id && id < table.next_id;
            let live = table.entries.dom().contains(id);
            let record = table.entries[id];
            &&& r is Ok <==> {
                &&& cap.kind == CapabilityKind::DmaBuffer
                &&& issued
                &&& live
                &&& record.kind == CapabilityKind::DmaBuffer
                &&& record.rights.bits & 16 != 0
            }
            &&& r is Ok ==> {
                &&& r->Ok_0@.frame == pinned.addr()
                &&& r->Ok_0@.length == length
                &&& r->Ok_0@.capability == cap
            }
            &&& r is Err ==> {
                &&& r->Err_0.0 == pinned
                &&& r->Err_0.1 == CapabilityError::NotFound <==> cap.kind
                    == CapabilityKind::DmaBuffer && !issued && !(live && record.kind
                    != CapabilityKind::DmaBuffer)
                &&& r->Err_0.1 == CapabilityError::Revoked <==> cap.kind
                    == CapabilityKind::DmaBuffer && issued && !live
                &&& r->Err_0.1 == CapabilityError::InsufficientRights <==> cap.kind
                    != CapabilityKind::DmaBuffer || (live && (record.kind
                    != CapabilityKind::DmaBuffer || (issued && record.rights.bits & 16 == 0)))
            }
            &&& table_of(*final(slot)) == table
        }),
{
    let x = table_of(*old(slot)).entries[cap.id.0].rights.bits;
    assert((x & 16 == 16) <==> (x & 16 != 0)) by (bit_vector);
}

/// What an authorised buffer shows is what it was made of, and its release gives back
/// that frame and no other.
pub proof fn law_dma_buffer_shows_what_it_is(
    buffer: AuthorizedDmaBuffer,
    frames: &mut BumpAllocator,
    addr: u64,
    length: usize,
    capability: &Capability,
)
    requires
        call_ensures(AuthorizedDmaBuffer::phys_addr, (&buffer,), addr),
        call_ensures(AuthorizedDmaBuffer::length, (&buffer,), length),
        call_ensures(AuthorizedDmaBuffer::capability, (&buffer,), capability),
        call_ensures(AuthorizedDmaBuffer::release, (buffer, frames), ()),
    ensures
        addr == buffer@.frame,
        length == buffer@.length,
        *capability == buffer@.capability,
        final(frames)@.free_list == old(frames)@.free_list.push(addr),
        final(frames)@.regions == old(frames)@.regions,
        final(frames)@.current_region == old(frames)@.current_region,
        final(frames)@.next == old(frames)@.next,
{
}

/// A compute capability is made exactly if the token shows a compute region and is
/// live, and was issued as a compute region with the right to execute (bit 5). It then
/// has the token, the device and the budget that were handed in, and its handle is the
/// token's id; otherwise the reason comes back.
pub proof fn law_compute_capability_is_authorised(
    slot: &mut Option<CapabilityTable>,
    cap: Capability,
    device_id: u64,
    flops_budget: u64,
    r: Result<ComputeCapability, CapabilityError>,
)
    requires
        call_ensures(ComputeCapability::new, (slot, cap, device_id, flops_budget), r),
    ensures
        ({
            let table = table_of(*old(slot));
            let id = cap.id.0;
            let issued = 0 < id && id < table.next_id;
            let live = table.entries.dom().contains(id);
            let record = table.entries[id];
            &&& r is Ok <==> {
                &&& cap.kind == CapabilityKind::ComputeRegion
                &&& issued
                &&& live
                &&& record.kind == CapabilityKind::ComputeRegion
                &&& record.rights.bits & 32 != 0
            }
            &&& r is Ok ==> {
                &&& r->Ok_0.capability == cap
                &&& r->Ok_0.device_id == device_id
                &&& r->Ok_0.flops_budget == flops_budget
            }
            &&& r is Err ==> {
                &&& r->Err_0 == CapabilityError::NotFound <==> cap.kind
                    == CapabilityKind::ComputeRegion && !issued && !(live && record.kind
                    != CapabilityKind::ComputeRegion)
                &&& r->Err_0 == CapabilityError::Revoked <==> cap.kind
                    == CapabilityKind::ComputeRegion && issued && !live
                &&& r->Err_0 == CapabilityError::InsufficientRights <==> cap.kind
                    != CapabilityKind::ComputeRegion || (live && (record.kind
                    != CapabilityKind::ComputeRegion || (issued && record.rights.bits & 32 == 0)))
            }
            &&& table_of(*final(slot)) == table
        }),
{
    let x = table_of(*old(slot)).entries[cap.id.0].rights.bits;
    assert((x & 32 == 32) <==> (x & 32 != 0)) by (bit_vector);
}

/// The raw handle of a compute capability is the id of its token.
pub proof fn law_raw_handle_is_the_id(compute: ComputeCapability, handle: u64)
    requires
        call_ensures(ComputeCapability::as_raw_handle, (&compute,), handle),
    ensures
        handle == compute.capability.id.0,
{
}

/// A copy of a token or of a compute capability is the same token.
pub proof fn law_copies_are_equal(
    cap: Capability,
    cap_copy: Capability,
    compute: ComputeCapability,
    compute_copy: ComputeCapability,
)
    requires
        call_ensures(Capability::clone, (&cap,), cap_copy),
        call_ensures(ComputeCapability::clone, (&compute,), compute_copy),
    ensures
        cap_copy.id == cap.id,
        cap_copy.kind == cap.kind,
        cap_copy.rights == cap.rights,
        compute_copy.capability == compute.capability,
        compute_copy.device_id == compute.device_id,
        compute_copy.flops_budget == compute.flops_budget,
{
}

} // verus!
