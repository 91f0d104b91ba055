//! What holds of the frame allocator: who owns a frame, where frames come from,
//! and how many there are.
use vstd::prelude::*;

#[allow(unused_imports)]
use super::allocator::{law_first_fit, round_up, FrameState, PAGE_SIZE};
#[allow(unused_imports)]
use super::{is_usable, range_of, usable_ranges, usable_ranges_end, MemoryRegion, MemoryRegionKind};

verus! {

/// Whether two ranges have no address in common.
pub open spec fn disjoint(a: (u64, u64), b: (u64, u64)) -> bool {
    a.1 <= b.0 || b.1 <= a.0
}

/// Whether the ranges are pairwise disjoint.
pub open spec fn pairwise_disjoint(ranges: Seq<(u64, u64)>) -> bool {
    forall|i: int, j: int|
        0 <= i < j < ranges.len() ==> disjoint(#[trigger] ranges[i], #[trigger] ranges[j])
}

/// Whether the frame at `addr` lies within the range.
pub open spec fn frame_within(addr: u64, range: (u64, u64)) -> bool {
    range.0 <= addr && addr + PAGE_SIZE <= range.1
}

/// Whether the frames at the two addresses have an address in common.
pub open spec fn frames_overlap(a: u64, b: u64) -> bool {
    a < b + PAGE_SIZE && b < a + PAGE_SIZE
}

impl FrameState {
    /// Whether the search never starts below the region it searches.
    pub open spec fn wf(self) -> bool {
        &&& self.current_region <= self.regions.len()
        &&& self.current_region < self.regions.len()
            ==> self.regions[self.current_region as int].0 <= self.next
    }

    /// Whether the search has passed the frame at `addr` in region `i`.
    pub open spec fn passed_in(self, addr: u64, i: int) -> bool {
        &&& 0 <= i < self.regions.len()
        &&& i <= self.current_region
        &&& frame_within(addr, self.regions[i])
        &&& i == self.current_region ==> addr + PAGE_SIZE <= self.next
    }

    /// Whether the frame at `addr` was handed out at some time: it is page-aligned
    /// and lies in a usable region, where the search has passed it.
    pub open spec fn handed_out(self, addr: u64) -> bool {
        &&& addr as int % PAGE_SIZE as int == 0
        &&& exists|i: int| self.passed_in(addr, i)
    }

    /// Whether `owned` is a set of frames that can be in use together: each of them
    /// was handed out, and none of them waits in the free list, where no frame
    /// waits twice.
    pub open spec fn accounts_for(self, owned: Set<u64>) -> bool {
        &&& self.wf()
        &&& pairwise_disjoint(self.regions)
        &&& forall|addr: u64| #[trigger] owned.contains(addr) ==> self.handed_out(addr)
        &&& forall|k: int|
            0 <= k < self.free_list.len() ==> self.handed_out(#[trigger] self.free_list[k])
                && !owned.contains(self.free_list[k])
        &&& self.free_list.no_duplicates()
    }

    /// How many new frames region `i` still has.
    pub open spec fn frames_in(self, i: int) -> nat {
        if self.fits(i) {
            ((self.regions[i].1 - self.candidate(i)) / PAGE_SIZE as int) as nat
        } else {
            0
        }
    }

    /// How many new frames the regions from `i` on still have.
    pub open spec fn frames_from(self, i: int) -> nat
        decreases self.regions.len() - i,
    {
        if i >= self.regions.len() {
            0
        } else {
            self.frames_in(i) + self.frames_from(i + 1)
        }
    }

    /// How many frames the allocator can still hand out.
    pub open spec fn available(self) -> nat {
        self.free_list.len() + self.frames_from(self.current_region as int)
    }
}

// ── Rounding ─────────────────────────────────────────────────────────────────

/// Rounding up gives the least multiple of `align` that is not below `addr`.
pub proof fn law_round_up_is_least(addr: int, align: int, multiple: int)
    requires
        align > 0,
    ensures
        round_up(addr, align) % align == 0,
        addr <= round_up(addr, align),
        addr <= multiple && multiple % align == 0 ==> round_up(addr, align) <= multiple,
{
    let x = addr + align - 1;
    vstd::arithmetic::div_mod::lemma_fundamental_div_mod(x, align);
    vstd::arithmetic::mul::lemma_mul_is_commutative(align, x / align);
    vstd::arithmetic::div_mod::lemma_mod_multiples_basic(x / align, align);
    vstd::arithmetic::div_mod::lemma_mod_bound(x, align);
    if addr <= multiple && multiple % align == 0 && round_up(addr, align) > multiple {
        vstd::arithmetic::div_mod::lemma_fundamental_div_mod(multiple, align);
        let q = x / align;
        let m = multiple / align;
        assert(false) by (nonlinear_arith)
            requires
                align > 0,
                multiple == align * m,
                q * align > multiple,
                q * align <= addr + align - 1,
                addr <= multiple,
        ;
    }
}

// ── Ownership ────────────────────────────────────────────────────────────────

/// The first fit lies in its region, page-aligned, and behind the start of the
/// search.
proof fn lemma_first_fit_lies_in_region(state: FrameState, i: int)
    requires
        state.wf(),
        state.is_first_fit(i),
    ensures
        0 <= state.search_start(i) <= state.candidate(i),
        state.candidate(i) + PAGE_SIZE <= state.regions[i].1,
        state.regions[i].0 <= state.candidate(i),
        state.candidate(i) % PAGE_SIZE as int == 0,
        state.candidate(i) as u64 == state.candidate(i),
        (state.candidate(i) + PAGE_SIZE) as u64 == state.candidate(i) + PAGE_SIZE,
{
    law_round_up_is_least(state.search_start(i), PAGE_SIZE as int, 0);
}

/// What the search has passed stays passed.
proof fn lemma_handed_out_stays(state: FrameState, addr: u64)
    requires
        state.wf(),
        state.handed_out(addr),
    ensures
        state.after_allocate().handed_out(addr),
{
    let i = choose|i: int| state.passed_in(addr, i);
    if state.free_list.len() == 0 {
        if let Some(k) = state.first_fit() {
            law_first_fit(state);
            lemma_first_fit_lies_in_region(state, k);
        }
    }
    assert(state.after_allocate().passed_in(addr, i));
}

/// An allocator without memory accounts for the empty set.
pub proof fn law_empty_allocator_accounts_for_nothing()
    ensures
        FrameState::empty().accounts_for(Set::empty()),
{
}

/// Regions that overlap neither each other nor the ones in place can be added at any
/// time, and the frames in use stay accounted for.
pub proof fn law_adding_regions_keeps_account(
    state: FrameState,
    ranges: Seq<(u64, u64)>,
    owned: Set<u64>,
)
    requires
        state.accounts_for(owned),
        pairwise_disjoint(state.regions + ranges),
    ensures
        state.with_regions(ranges).accounts_for(owned),
{
    let after = state.with_regions(ranges);
    assert forall|addr: u64| state.handed_out(addr) implies after.handed_out(addr) by {
        let i = choose|i: int| state.passed_in(addr, i);
        assert(after.passed_in(addr, i));
    }
}

/// No frame is in use twice: an allocation hands out a frame that is not in use,
/// and afterwards the allocator accounts for the frames in use and the new one; an
/// allocation that finds nothing leaves the account as it was.
pub proof fn law_allocation_is_fresh(state: FrameState, owned: Set<u64>)
    requires
        state.accounts_for(owned),
    ensures
        match state.allocation() {
            Some(addr) => !owned.contains(addr) && state.after_allocate().accounts_for(
                owned.insert(addr),
            ),
            None => state.after_allocate().accounts_for(owned),
        },
{
    let after = state.after_allocate();
    assert forall|addr: u64| state.handed_out(addr) implies after.handed_out(addr) by {
        lemma_handed_out_stays(state, addr);
    }
    if state.free_list.len() > 0 {
        let addr = state.free_list.last();
        assert(state.free_list[state.free_list.len() - 1] == addr);
        assert(after.free_list =~= state.free_list.drop_last());
        assert forall|k: int| 0 <= k < after.free_list.len() implies after.handed_out(
            #[trigger] after.free_list[k],
        ) && !owned.insert(addr).contains(after.free_list[k]) by {
            assert(after.free_list[k] == state.free_list[k]);
        }
    } else if let Some(i) = state.first_fit() {
        law_first_fit(state);
        lemma_first_fit_lies_in_region(state, i);
        let addr = state.candidate(i) as u64;
        assert(after.passed_in(addr, i));
        if owned.contains(addr) {
            let k = choose|k: int| state.passed_in(addr, k);
            if k < i {
                assert(disjoint(state.regions[k], state.regions[i]));
            }
            assert(false);
        }
    }
}

/// Giving a frame in use back takes it out of the account.
pub proof fn law_release_ends_ownership(state: FrameState, owned: Set<u64>, addr: u64)
    requires
        state.accounts_for(owned),
        owned.contains(addr),
    ensures
        state.after_free(addr).accounts_for(owned.remove(addr)),
{
    let after = state.after_free(addr);
    assert forall|a: u64| state.handed_out(a) implies after.handed_out(a) by {
        let i = choose|i: int| state.passed_in(a, i);
        assert(after.passed_in(a, i));
    }
    assert forall|k: int| 0 <= k < after.free_list.len() implies after.handed_out(
        #[trigger] after.free_list[k],
    ) && !owned.remove(addr).contains(after.free_list[k]) by {
        if k < state.free_list.len() {
            assert(after.free_list[k] == state.free_list[k]);
        }
    }
}

/// Two different frames in use have no address in common.
pub proof fn law_owned_frames_do_not_overlap(state: FrameState, owned: Set<u64>, a: u64, b: u64)
    requires
        state.accounts_for(owned),
        owned.contains(a),
        owned.contains(b),
        a != b,
    ensures
        !frames_overlap(a, b),
{
    assert(state.handed_out(a) && state.handed_out(b));
}

/// A frame that is given back is the next one handed out, and the allocator is then
/// as it was before.
pub proof fn law_released_frame_is_reused(state: FrameState, addr: u64)
    ensures
        state.after_free(addr).allocation() == Some(addr),
        state.after_free(addr).after_allocate() == state,
{
    assert(state.free_list.push(addr).drop_last() =~= state.free_list);
}

// ── Where frames come from ───────────────────────────────────────────────────

/// Every range handed to the allocator is that of a usable region of the map.
proof fn lemma_usable_range_has_region(regions: Seq<MemoryRegion>, i: int)
    requires
        0 <= i < usable_ranges(regions).len(),
    ensures
        exists|k: int|
            0 <= k < regions.len() && is_usable(#[trigger] regions[k]) && range_of(regions[k])
                == usable_ranges(regions)[i],
    decreases regions.len(),
{
    reveal(Seq::filter);
    let rest = regions.drop_last();
    let last = regions.last();
    if is_usable(last) {
        assert(usable_ranges(regions) =~= usable_ranges(rest).push(range_of(last)));
    } else {
        assert(usable_ranges(regions) =~= usable_ranges(rest));
    }
    if i < usable_ranges(rest).len() {
        lemma_usable_range_has_region(rest, i);
        let k = choose|k: int|
            0 <= k < rest.len() && is_usable(#[trigger] rest[k]) && range_of(rest[k])
                == usable_ranges(rest)[i];
        assert(regions[k] == rest[k]);
    } else {
        assert(regions[regions.len() - 1] == last);
    }
}

/// Every frame that was handed out is page-aligned and lies within a region that
/// the memory map calls usable; reserved memory, MMIO, framebuffers and ACPI tables
/// are never allocated.
pub proof fn law_frames_are_usable_memory(
    regions: Seq<MemoryRegion>,
    state: FrameState,
    owned: Set<u64>,
    addr: u64,
)
    requires
        usable_ranges_end(regions),
        state.regions == usable_ranges(regions),
        state.accounts_for(owned),
        owned.contains(addr),
    ensures
        addr as int % PAGE_SIZE as int == 0,
        exists|k: int|
            0 <= k < regions.len() && (#[trigger] regions[k]).kind == MemoryRegionKind::Usable
                && regions[k].start <= addr && addr + PAGE_SIZE <= regions[k].start
                + regions[k].length,
{
    assert(state.handed_out(addr));
    let i = choose|i: int| state.passed_in(addr, i);
    lemma_usable_range_has_region(regions, i);
    let k = choose|k: int|
        0 <= k < regions.len() && is_usable(#[trigger] regions[k]) && range_of(regions[k])
            == usable_ranges(regions)[i];
    assert(is_usable(regions[k]));
}

// ── How many frames there are ────────────────────────────────────────────────

/// Two states that search alike from region `i` on have as many frames there.
proof fn lemma_frames_from_agree(a: FrameState, b: FrameState, i: int)
    requires
        a.regions == b.regions,
        a.current_region < i,
        b.current_region < i,
    ensures
        a.frames_from(i) == b.frames_from(i),
    decreases a.regions.len() - i,
{
    if i < a.regions.len() {
        lemma_frames_from_agree(a, b, i + 1);
    }
}

/// Regions without room do not count.
proof fn lemma_frames_from_skips(state: FrameState, i: int)
    requires
        state.current_region <= i <= state.regions.len(),
        state.no_room_before(i),
    ensures
        state.frames_from(state.current_region as int) == state.frames_from(i),
    decreases i,
{
    if state.current_region < i {
        assert(state.no_room_before(i - 1));
        lemma_frames_from_skips(state, i - 1);
        assert(!state.fits(i - 1));
    }
}

/// An allocation succeeds exactly when a frame is available, and then leaves one
/// frame less.
pub proof fn law_allocation_counts_down(state: FrameState)
    requires
        state.wf(),
    ensures
        state.allocation() is Some <==> state.available() > 0,
        state.allocation() is Some ==> state.after_allocate().available() == state.available() - 1,
        state.allocation() is None ==> state.after_allocate().available() == 0,
        state.after_allocate().wf(),
{
    let after = state.after_allocate();
    if state.free_list.len() > 0 {
        lemma_same_search(state, after, state.current_region as int);
    } else if let Some(i) = state.first_fit() {
        law_first_fit(state);
        lemma_first_fit_lies_in_region(state, i);
        lemma_frames_from_skips(state, i);
        lemma_frames_from_agree(state, after, i + 1);
        assert(after.candidate(i) == state.candidate(i) + PAGE_SIZE);
    } else {
        law_first_fit(state);
        lemma_frames_from_skips(state, state.regions.len() as int);
    }
}

/// The free list has no part in the search for new frames.
proof fn lemma_same_search(a: FrameState, b: FrameState, i: int)
    requires
        a.regions == b.regions,
        a.current_region == b.current_region,
        a.next == b.next,
    ensures
        a.frames_from(i) == b.frames_from(i),
    decreases a.regions.len() - i,
{
    if i < a.regions.len() {
        lemma_same_search(a, b, i + 1);
    }
}

/// A frame that is given back is one frame more.
pub proof fn law_release_counts_up(state: FrameState, addr: u64)
    ensures
        state.after_free(addr).available() == state.available() + 1,
{
    lemma_same_search(state, state.after_free(addr), state.current_region as int);
}

/// How many page-aligned frames lie within a range.
pub open spec fn frames_within(range: (u64, u64)) -> nat {
    let first = round_up(range.0 as int, PAGE_SIZE as int);
    if first + PAGE_SIZE <= range.1 {
        ((range.1 - first) / PAGE_SIZE as int) as nat
    } else {
        0
    }
}

/// How many page-aligned frames lie within the ranges from `i` on.
pub open spec fn frames_within_all(ranges: Seq<(u64, u64)>, i: int) -> nat
    decreases ranges.len() - i,
{
    if i >= ranges.len() {
        0
    } else {
        frames_within(ranges[i]) + frames_within_all(ranges, i + 1)
    }
}

/// Every page-aligned frame within the regions that are added becomes available, and
/// no more, also where the allocator had run out of frames.
pub proof fn law_added_regions_are_available(state: FrameState, ranges: Seq<(u64, u64)>)
    requires
        state.wf(),
    ensures
        state.with_regions(ranges).available() == state.available() + frames_within_all(ranges, 0),
        state.with_regions(ranges).wf(),
{
    lemma_frames_with_regions(state, ranges, state.current_region as int);
}

/// The new regions add their frames to those of the regions in place.
proof fn lemma_frames_with_regions(state: FrameState, ranges: Seq<(u64, u64)>, i: int)
    requires
        state.wf(),
        state.current_region <= i <= state.regions.len(),
    ensures
        state.with_regions(ranges).frames_from(i) == state.frames_from(i) + frames_within_all(
            ranges,
            0,
        ),
    decreases state.regions.len() - i,
{
    let after = state.with_regions(ranges);
    if i < state.regions.len() {
        lemma_frames_with_regions(state, ranges, i + 1);
        assert(after.regions[i] == state.regions[i]);
    } else {
        lemma_frames_of_new_regions(state, ranges, 0);
    }
}

/// The new regions from the one at `k` on have all their frames.
proof fn lemma_frames_of_new_regions(state: FrameState, ranges: Seq<(u64, u64)>, k: int)
    requires
        state.wf(),
        0 <= k <= ranges.len(),
    ensures
        state.with_regions(ranges).frames_from(state.regions.len() + k) == frames_within_all(
            ranges,
            k,
        ),
    decreases ranges.len() - k,
{
    if k < ranges.len() {
        lemma_frames_of_new_regions(state, ranges, k + 1);
        assert(state.with_regions(ranges).regions[state.regions.len() + k] == ranges[k]);
    }
}

/// An allocator that starts out with the given regions can hand out every
/// page-aligned frame within them, and no more.
pub proof fn law_capacity(ranges: Seq<(u64, u64)>)
    ensures
        FrameState::empty().with_regions(ranges).available() == frames_within_all(ranges, 0),
{
    law_added_regions_are_available(FrameState::empty(), ranges);
}

} // verus!
