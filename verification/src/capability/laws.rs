//! What holds of the capability table over any course of events.
use vstd::prelude::*;

#[allow(unused_imports)]
use super::{Capability, CapabilityError, CapabilityId, CapabilityKind, CapabilityRights, TableState};

verus! {

/// An event that changes a capability table.
pub enum TableEvent {
    Issue { kind: CapabilityKind, rights: CapabilityRights },
    Revoke { id: CapabilityId },
}

impl TableState {
    /// The table after one event.
    pub open spec fn after(self, event: TableEvent) -> TableState {
        match event {
            TableEvent::Issue { kind, rights } => self.after_issue(kind, rights),
            TableEvent::Revoke { id } => self.after_revoke(id),
        }
    }

    /// The table after the events, in order.
    pub open spec fn after_all(self, events: Seq<TableEvent>) -> TableState
        decreases events.len(),
    {
        if events.len() == 0 {
            self
        } else {
            self.after_all(events.drop_last()).after(events.last())
        }
    }

    /// Whether the ids suffice for the events even if each of them issues one.
    pub open spec fn has_ids_for(self, events: Seq<TableEvent>) -> bool {
        self.next_id + events.len() <= u64::MAX
    }
}

/// A set of rights contains another exactly when it has each of its flags.
pub proof fn law_contains_is_flagwise(a: CapabilityRights, b: CapabilityRights)
    ensures
        a.includes(b) <==> (forall|bit: u16| bit < 16 && b.has_flag(bit) ==> #[trigger] a.has_flag(bit)),
{
    let x = a.bits;
    let y = b.bits;
    if a.includes(b) {
        assert forall|bit: u16| bit < 16 && b.has_flag(bit) implies #[trigger] a.has_flag(bit) by {
            assert((x >> bit) & 1 == 1) by (bit_vector)
                requires
                    x & y == y,
                    (y >> bit) & 1 == 1,
            ;
        }
    }
    if forall|bit: u16| bit < 16 && b.has_flag(bit) ==> #[trigger] a.has_flag(bit) {
        assert(a.has_flag(0) || !b.has_flag(0));
        assert(a.has_flag(1) || !b.has_flag(1));
        assert(a.has_flag(2) || !b.has_flag(2));
        assert(a.has_flag(3) || !b.has_flag(3));
        assert(a.has_flag(4) || !b.has_flag(4));
        assert(a.has_flag(5) || !b.has_flag(5));
        assert(a.has_flag(6) || !b.has_flag(6));
        assert(a.has_flag(7) || !b.has_flag(7));
        assert(a.has_flag(8) || !b.has_flag(8));
        assert(a.has_flag(9) || !b.has_flag(9));
        assert(a.has_flag(10) || !b.has_flag(10));
        assert(a.has_flag(11) || !b.has_flag(11));
        assert(a.has_flag(12) || !b.has_flag(12));
        assert(a.has_flag(13) || !b.has_flag(13));
        assert(a.has_flag(14) || !b.has_flag(14));
        assert(a.has_flag(15) || !b.has_flag(15));
        assert(x & y == y) by (bit_vector)
            requires
                (x >> 0) & 1 == 1 || (y >> 0) & 1 != 1,
                (x >> 1) & 1 == 1 || (y >> 1) & 1 != 1,
                (x >> 2) & 1 == 1 || (y >> 2) & 1 != 1,
                (x >> 3) & 1 == 1 || (y >> 3) & 1 != 1,
                (x >> 4) & 1 == 1 || (y >> 4) & 1 != 1,
                (x >> 5) & 1 == 1 || (y >> 5) & 1 != 1,
                (x >> 6) & 1 == 1 || (y >> 6) & 1 != 1,
                (x >> 7) & 1 == 1 || (y >> 7) & 1 != 1,
                (x >> 8) & 1 == 1 || (y >> 8) & 1 != 1,
                (x >> 9) & 1 == 1 || (y >> 9) & 1 != 1,
                (x >> 10) & 1 == 1 || (y >> 10) & 1 != 1,
                (x >> 11) & 1 == 1 || (y >> 11) & 1 != 1,
                (x >> 12) & 1 == 1 || (y >> 12) & 1 != 1,
                (x >> 13) & 1 == 1 || (y >> 13) & 1 != 1,
                (x >> 14) & 1 == 1 || (y >> 14) & 1 != 1,
                (x >> 15) & 1 == 1 || (y >> 15) & 1 != 1,
        ;
    }
}

/// The union of two sets of rights contains both of them, and a set contains the
/// union exactly when it contains both.
pub proof fn law_union_of_rights(a: CapabilityRights, b: CapabilityRights, c: CapabilityRights)
    ensures
        a.union(b).includes(a),
        a.union(b).includes(b),
        c.includes(a.union(b)) <==> c.includes(a) && c.includes(b),
{
    let x = a.bits;
    let y = b.bits;
    let z = c.bits;
    assert((x | y) & x == x && (x | y) & y == y) by (bit_vector);
    assert(z & (x | y) == (x | y) <==> (z & x == x && z & y == y)) by (bit_vector);
}

/// A capability that was just issued is good for exactly the rights it was issued
/// with.
pub proof fn law_issued_capability_validates(
    table: TableState,
    kind: CapabilityKind,
    rights: CapabilityRights,
    required_right: CapabilityRights,
)
    requires
        table.wf(),
        table.has_free_id(),
    ensures
        table.after_issue(kind, rights).validation(
            table.next_capability(kind, rights).id,
            required_right,
        ) == if rights.includes(required_right) {
            Ok::<(), CapabilityError>(())
        } else {
            Err(CapabilityError::InsufficientRights)
        },
{
}

/// Issuing and revoking leave the answer for every other id as it was.
pub proof fn law_other_ids_are_untouched(
    table: TableState,
    event: TableEvent,
    id: CapabilityId,
    required_right: CapabilityRights,
)
    requires
        match event {
            TableEvent::Issue { kind, rights } => id.0 != table.next_id && table.has_free_id(),
            TableEvent::Revoke { id: revoked } => id != revoked,
        },
    ensures
        table.after(event).validation(id, required_right) == table.validation(id, required_right),
{
}

/// Every table that grows out of a well-formed one is well-formed, and its next id
/// never goes back.
pub proof fn law_table_stays_well_formed(table: TableState, events: Seq<TableEvent>)
    requires
        table.wf(),
        table.has_ids_for(events),
    ensures
        table.after_all(events).wf(),
        table.next_id <= table.after_all(events).next_id <= table.next_id + events.len(),
    decreases events.len(),
{
    if events.len() > 0 {
        law_table_stays_well_formed(table, events.drop_last());
    }
}

/// The id of a new capability is larger than that of every live one.
pub proof fn law_new_id_is_fresh(table: TableState, id: CapabilityId)
    requires
        table.wf(),
        table.entries.dom().contains(id.0),
    ensures
        id.0 < table.next_id,
{
}

/// Of two capabilities issued in the course of any events, the later one has the
/// larger id; so no id is issued twice.
pub proof fn law_ids_increase(table: TableState, events: Seq<TableEvent>, i: int, j: int)
    requires
        table.wf(),
        table.has_ids_for(events),
        0 <= i < j < events.len(),
        events[i] is Issue,
        events[j] is Issue,
    ensures
        table.after_all(events.take(i)).next_id < table.after_all(events.take(j)).next_id,
    decreases j,
{
    let before_last = events.take(j).drop_last();
    assert(before_last =~= events.take(j - 1));
    assert(events.take(j).last() == events[j - 1]);
    law_table_stays_well_formed(table, events.take(j - 1));
    if i == j - 1 {
    } else {
        lemma_next_id_grows(table, events, i + 1, j);
        assert(events.take(i + 1).drop_last() =~= events.take(i));
        assert(events.take(i + 1).last() == events[i]);
        law_table_stays_well_formed(table, events.take(i));
    }
}

/// The next id after more of the events is no smaller.
proof fn lemma_next_id_grows(table: TableState, events: Seq<TableEvent>, i: int, j: int)
    requires
        table.wf(),
        table.has_ids_for(events),
        0 <= i <= j <= events.len(),
    ensures
        table.after_all(events.take(i)).next_id <= table.after_all(events.take(j)).next_id,
    decreases j - i,
{
    if i < j {
        lemma_next_id_grows(table, events, i, j - 1);
        assert(events.take(j).drop_last() =~= events.take(j - 1));
        assert(events.take(j).last() == events[j - 1]);
        law_table_stays_well_formed(table, events.take(j - 1));
    }
}

/// A live capability keeps the kind and rights it was issued with until it is
/// revoked: whatever happens to the table, an id that is still live stands for the
/// same capability.
pub proof fn law_live_capability_never_changes(
    table: TableState,
    events: Seq<TableEvent>,
    id: CapabilityId,
)
    requires
        table.wf(),
        table.has_ids_for(events),
        table.entries.dom().contains(id.0),
    ensures
        table.after_all(events).entries.dom().contains(id.0) ==> table.after_all(
            events,
        ).entries[id.0] == table.entries[id.0],
    decreases events.len(),
{
    if events.len() > 0 {
        law_live_capability_never_changes(table, events.drop_last(), id);
        law_table_stays_well_formed(table, events.drop_last());
    }
}

/// An id that was issued and is not live never comes back.
pub proof fn law_dead_id_stays_dead(table: TableState, events: Seq<TableEvent>, id: CapabilityId)
    requires
        table.wf(),
        table.has_ids_for(events),
        id.0 < table.next_id,
    ensures
        !table.entries.dom().contains(id.0) ==> !table.after_all(events).entries.dom().contains(
            id.0,
        ),
    decreases events.len(),
{
    if events.len() > 0 {
        law_dead_id_stays_dead(table, events.drop_last(), id);
        law_table_stays_well_formed(table, events.drop_last());
    }
}

/// A live capability stays live, and as it is, until it is revoked.
pub proof fn law_live_until_revoked(table: TableState, events: Seq<TableEvent>, id: CapabilityId)
    requires
        table.wf(),
        table.has_ids_for(events),
        table.entries.dom().contains(id.0),
        forall|i: int|
            0 <= i < events.len() ==> #[trigger] events[i] != (TableEvent::Revoke { id }),
    ensures
        table.after_all(events).entries.dom().contains(id.0),
        table.after_all(events).entries[id.0] == table.entries[id.0],
    decreases events.len(),
{
    if events.len() > 0 {
        let rest = events.drop_last();
        assert forall|i: int| 0 <= i < rest.len() implies #[trigger] rest[i] != (
        TableEvent::Revoke { id }) by {
            assert(rest[i] == events[i]);
        }
        law_live_until_revoked(table, rest, id);
        law_table_stays_well_formed(table, rest);
        assert(events[events.len() - 1] != (TableEvent::Revoke { id }));
    }
}

/// An id that was never issued is not found, whatever is asked of it.
pub proof fn law_unissued_id_is_refused(
    table: TableState,
    id: CapabilityId,
    required_right: CapabilityRights,
)
    requires
        table.wf(),
        id.0 == 0 || id.0 >= table.next_id,
    ensures
        table.validation(id, required_right) == Err::<(), _>(CapabilityError::NotFound),
        table.revocation(id) == Err::<(), _>(CapabilityError::NotFound),
{
}

/// A token gives access to a resource exactly when it shows the right kind and is
/// live, and was issued as one of that kind with that right: a holder gains nothing
/// by what it writes into the token.
pub proof fn law_tokens_cannot_be_forged(
    table: TableState,
    cap: Capability,
    kind: CapabilityKind,
    required_right: CapabilityRights,
)
    requires
        table.wf(),
    ensures
        table.refusal(cap, kind, required_right) is None <==> {
            &&& cap.kind == kind
            &&& table.entries.dom().contains(cap.id.0)
            &&& table.entries[cap.id.0].kind == kind
            &&& table.entries[cap.id.0].rights.includes(required_right)
        },
{
}

/// After a revocation every use of a capability with that id is answered with
/// `Revoked`, for every right, whatever else happens to the table; and a second
/// revocation finds nothing.
pub proof fn law_revoked_for_good(
    table: TableState,
    id: CapabilityId,
    events: Seq<TableEvent>,
    required_right: CapabilityRights,
)
    requires
        table.wf(),
        table.revocation(id) is Ok,
        table.has_ids_for(events),
    ensures
        ({
            let later = table.after_revoke(id).after_all(events);
            &&& later.validation(id, required_right) == Err::<(), _>(CapabilityError::Revoked)
            &&& later.revocation(id) == Err::<(), _>(CapabilityError::NotFound)
        }),
{
    assert(table.entries.dom().contains(id.0));
    law_dead_id_stays_dead(table.after_revoke(id), events, id);
    law_table_stays_well_formed(table.after_revoke(id), events);
}

} // verus!
