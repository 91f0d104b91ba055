//! What the operations on physical memory do.
use vstd::prelude::*;

#[allow(unused_imports)]
use crate::memory::allocator;
#[allow(unused_imports)]
use crate::memory::allocator::{
    align_up, allocate_frame, allocate_pinned_frame, is_power_of_two, law_first_fit, BumpAllocator,
    FrameState, PhysFrame, PhysicallyPinned, PAGE_SIZE,
};
#[allow(unused_imports)]
use crate::memory::laws::{
    frames_within, frames_within_all, law_added_regions_are_available, law_allocation_counts_down,
    law_round_up_is_least,
};
#[allow(unused_imports)]
use crate::memory::{
    init, is_usable, range_of, usable_ranges, usable_ranges_end, MemoryMap, MemoryRegion,
    MemoryRegionKind,
};

verus! {

// ── Constants and rounding ───────────────────────────────────────────────────

/// A page has 4 KiB, a cache line 64 bytes.
pub proof fn law_sizes()
    ensures
        PAGE_SIZE == 4096,
        allocator::DMA_ALIGNMENT == 64,
{
}

/// Aligning an address gives the least multiple of the alignment that is not below it;
/// it can be done wherever the address and the alignment together fit.
pub proof fn law_align_up_is_least(addr: u64, align: u64, r: u64, multiple: int)
    requires
        is_power_of_two(align as int),
        align > 0,
        addr + align <= u64::MAX,
        call_ensures(align_up, (addr, align), r),
    ensures
        call_requires(align_up, (addr, align)),
        addr <= r,
        r as int % align as int == 0,
        addr <= multiple && multiple % align as int == 0 ==> r <= multiple,
{
    law_round_up_is_least(addr as int, align as int, multiple);
}

// ── Allocating and giving back ───────────────────────────────────────────────

/// Whether a page-aligned 4 KiB frame at `addr` lies in region `i`, ahead of the search.
pub open spec fn frame_ahead(state: FrameState, i: int, addr: int) -> bool {
    &&& state.current_region <= i < state.regions.len()
    &&& addr % 4096 == 0
    &&& state.regions[i].0 <= addr
    &&& addr + 4096 <= state.regions[i].1
    &&& i == state.current_region ==> state.next <= addr
}

/// Whether `addr` in region `i` is the first frame ahead of the search.
pub open spec fn first_ahead(state: FrameState, i: int, addr: int) -> bool {
    &&& frame_ahead(state, i, addr)
    &&& forall|j: int, other: int| #[trigger]
        frame_ahead(state, j, other) ==> i < j || (i == j && addr <= other)
}

/// A frame ahead in a region means that the region has room, no later than there; and
/// the other way round.
proof fn lemma_frame_ahead_fits(state: FrameState, i: int, addr: int)
    requires
        state.wf(),
        state.current_region <= i < state.regions.len(),
    ensures
        frame_ahead(state, i, addr) ==> state.fits(i) && state.candidate(i) <= addr,
        state.fits(i) ==> frame_ahead(state, i, state.candidate(i)),
{
    law_round_up_is_least(state.search_start(i), 4096, addr);
}

/// An allocation hands out the frame that was given back last; where none was given
/// back, the first page-aligned frame ahead of the search, which then goes on behind
/// it; and nothing exactly where no such frame is left.
pub proof fn law_allocation_is_first_frame_ahead(state: FrameState)
    requires
        state.wf(),
    ensures
        state.after_allocate().regions == state.regions,
        state.free_list.len() > 0 ==> {
            &&& state.allocation() == Some(state.free_list[state.free_list.len() - 1])
            &&& state.after_allocate().free_list == state.free_list.take(
                state.free_list.len() - 1,
            )
            &&& state.after_allocate().current_region == state.current_region
            &&& state.after_allocate().next == state.next
        },
        state.free_list.len() == 0 ==> {
            &&& state.after_allocate().free_list.len() == 0
            &&& state.allocation() is None <==> forall|i: int, addr: int|
                !(#[trigger] frame_ahead(state, i, addr))
            &&& state.allocation() is Some ==> {
                &&& first_ahead(
                    state,
                    state.after_allocate().current_region as int,
                    state.allocation()->0 as int,
                )
                &&& state.after_allocate().next == state.allocation()->0 + 4096
            }
        },
        state.after_allocate().wf(),
{
    law_allocation_counts_down(state);
    if state.free_list.len() > 0 {
        assert(state.free_list.drop_last() =~= state.free_list.take(state.free_list.len() - 1));
    } else {
        law_first_fit(state);
        match state.first_fit() {
            Some(i) => {
                lemma_frame_ahead_fits(state, i, 0);
                let addr = state.candidate(i);
                assert(addr as u64 == addr);
                assert(frame_ahead(state, i, addr));
                assert forall|j: int, other: int| #[trigger]
                    frame_ahead(state, j, other) implies i < j || (i == j && addr <= other) by {
                    lemma_frame_ahead_fits(state, j, other);
                }
                assert(first_ahead(state, i, addr));
            },
            None => {
                assert forall|i: int, addr: int| !(#[trigger] frame_ahead(state, i, addr)) by {
                    if frame_ahead(state, i, addr) {
                        lemma_frame_ahead_fits(state, i, addr);
                        assert(!state.fits(i));
                    }
                }
            },
        }
    }
}

/// What [`law_allocation_is_first_frame_ahead`] says, of the allocator itself and of
/// the two functions that hand out frames: the frame that comes out has the address
/// that the allocator hands out.
pub proof fn law_allocating_hands_out_the_allocation(
    frames: &mut BumpAllocator,
    r: Option<u64>,
    plain: &mut BumpAllocator,
    frame: Option<PhysFrame>,
    pinning: &mut BumpAllocator,
    pinned: Option<PhysicallyPinned>,
)
    requires
        call_ensures(BumpAllocator::allocate, (frames,), r),
        call_ensures(allocate_frame, (plain,), frame),
        call_ensures(allocate_pinned_frame, (pinning,), pinned),
    ensures
        r == old(frames)@.allocation(),
        final(frames)@ == old(frames)@.after_allocate(),
        old(plain)@ == old(frames)@ ==> {
            &&& final(plain)@ == final(frames)@
            &&& frame is Some <==> r is Some
            &&& frame is Some ==> frame->0.phys_addr == r->0
        },
        old(pinning)@ == old(frames)@ ==> {
            &&& final(pinning)@ == final(frames)@
            &&& pinned is Some <==> r is Some
            &&& pinned is Some ==> pinned->0.addr() == r->0
        },
{
}

/// Two allocations in a row from an allocator without returned frames never hand out
/// overlapping frames of one region: the later one lies behind the earlier one.
pub proof fn law_allocations_advance(
    first: &mut BumpAllocator,
    a: Option<u64>,
    second: &mut BumpAllocator,
    b: Option<u64>,
)
    requires
        call_ensures(BumpAllocator::allocate, (first,), a),
        call_ensures(BumpAllocator::allocate, (second,), b),
    ensures
        old(first)@.wf() && old(first)@.free_list.len() == 0 && *old(second) == *final(first)
            && b is Some ==> {
            &&& a is Some
            &&& final(second)@.current_region == final(first)@.current_region ==> b->0 >= a->0 + 4096
            &&& final(second)@.current_region >= final(first)@.current_region
        },
{
    if old(first)@.wf() && old(first)@.free_list.len() == 0 && *old(second) == *final(first)
        && b is Some {
        law_allocation_is_first_frame_ahead(old(first)@);
        law_allocation_is_first_frame_ahead(old(second)@);
        law_allocation_counts_down(old(first)@);
        law_allocation_counts_down(old(second)@);
    }
}

/// A frame that is given back is the last of the returned frames, and nothing else
/// changes; pinning and un-pinning keep its address.
pub proof fn law_giving_back_returns_the_frame(
    frames: &mut BumpAllocator,
    addr: u64,
    plain: &mut BumpAllocator,
    frame: PhysFrame,
    pinned: PhysicallyPinned,
    seen: u64,
    unpinned: PhysFrame,
)
    requires
        call_ensures(BumpAllocator::free, (frames, addr), ()),
        call_ensures(PhysFrame::release, (frame, plain), ()),
        call_ensures(PhysicallyPinned::phys_addr, (&pinned,), seen),
        call_ensures(PhysicallyPinned::unpin, (pinned,), unpinned),
    ensures
        final(frames)@.free_list == old(frames)@.free_list.push(addr),
        final(frames)@.regions == old(frames)@.regions,
        final(frames)@.current_region == old(frames)@.current_region,
        final(frames)@.next == old(frames)@.next,
        final(plain)@.free_list == old(plain)@.free_list.push(frame.phys_addr),
        final(plain)@.regions == old(plain)@.regions,
        final(plain)@.current_region == old(plain)@.current_region,
        final(plain)@.next == old(plain)@.next,
        seen == pinned.addr(),
        unpinned.phys_addr == pinned.addr(),
{
}

/// A new allocator has no memory; a region that is added comes behind the others, and
/// is searched from its start where the search has run past the others.
pub proof fn law_adding_a_region(
    fresh: BumpAllocator,
    frames: &mut BumpAllocator,
    start: u64,
    end: u64,
)
    requires
        call_ensures(BumpAllocator::empty, (), fresh),
        call_ensures(BumpAllocator::add_region, (frames, start, end), ()),
    ensures
        fresh@.regions.len() == 0,
        fresh@.free_list.len() == 0,
        fresh@.current_region == 0,
        final(frames)@.regions == old(frames)@.regions.push((start, end)),
        final(frames)@.free_list == old(frames)@.free_list,
        final(frames)@.current_region == old(frames)@.current_region,
        old(frames)@.current_region == old(frames)@.regions.len() ==> final(frames)@.next == start,
        old(frames)@.current_region < old(frames)@.regions.len() ==> final(frames)@.next == old(
            frames,
        )@.next,
{
}

// ── When a frame can be asked for ────────────────────────────────────────────

/// Whether all regions, and the search, stay two pages below the end of the address
/// space.
pub open spec fn stays_below_top(state: FrameState) -> bool {
    &&& state.next <= 0xFFFF_FFFF_FFFF_E000
    &&& forall|i: int|
        0 <= i < state.regions.len() ==> (#[trigger] state.regions[i]).0 <= 0xFFFF_FFFF_FFFF_E000
            && state.regions[i].1 <= 0xFFFF_FFFF_FFFF_E000
}

/// On memory that stays two pages below the end of the address space, a frame can
/// always be asked for, whatever was allocated, given back and added before.
pub proof fn law_allocating_needs_no_more(
    frames: &mut BumpAllocator,
    seen: &BumpAllocator,
    r: bool,
    addr: u64,
    start: u64,
    end: u64,
)
    requires
        call_ensures(BumpAllocator::search_in_range, (seen,), r),
        stays_below_top(old(frames)@),
    ensures
        call_requires(BumpAllocator::allocate, (frames,)),
        call_requires(allocate_frame, (frames,)),
        call_requires(allocate_pinned_frame, (frames,)),
        stays_below_top(FrameState::empty()),
        old(frames)@.wf() ==> stays_below_top(old(frames)@.after_allocate()),
        stays_below_top(old(frames)@.after_free(addr)),
        start <= 0xFFFF_FFFF_FFFF_E000 && end <= 0xFFFF_FFFF_FFFF_E000 ==> stays_below_top(
            old(frames)@.with_region(start, end),
        ),
        seen@ == old(frames)@ ==> r,
{
    let state = old(frames)@;
    assert(state.search_in_range());
    if state.wf() {
        law_allocation_is_first_frame_ahead(state);
    }
}

/// A frame can be asked for exactly when the allocator says so.
pub proof fn law_allocator_says_when(frames: &mut BumpAllocator, seen: &BumpAllocator, r: bool)
    requires
        call_ensures(BumpAllocator::search_in_range, (seen,), r),
        seen@ == old(frames)@,
        r,
    ensures
        call_requires(BumpAllocator::allocate, (frames,)),
        call_requires(allocate_frame, (frames,)),
        call_requires(allocate_pinned_frame, (frames,)),
{
}

// ── The memory map ───────────────────────────────────────────────────────────

/// One more region of the map is one more range, from its start to its start plus its
/// length, if it is usable, and none otherwise.
pub proof fn law_one_more_region_of_the_map(regions: Seq<MemoryRegion>, region: MemoryRegion)
    ensures
        usable_ranges(Seq::empty()).len() == 0,
        region.kind != MemoryRegionKind::Usable ==> usable_ranges(regions.push(region))
            == usable_ranges(regions),
        region.kind == MemoryRegionKind::Usable && region.start + region.length <= u64::MAX ==> {
            let more = usable_ranges(regions.push(region));
            &&& more.len() == usable_ranges(regions).len() + 1
            &&& more.take(more.len() - 1) == usable_ranges(regions)
            &&& more[more.len() - 1].0 == region.start
            &&& more[more.len() - 1].1 == region.start + region.length
        },
{
    reveal(Seq::filter);
    assert(regions.push(region).drop_last() =~= regions);
    if is_usable(region) {
        assert(usable_ranges(regions.push(region)) =~= usable_ranges(regions).push(
            range_of(region),
        ));
        let more = usable_ranges(regions.push(region));
        assert(more.take(more.len() - 1) =~= usable_ranges(regions));
    } else {
        assert(usable_ranges(regions.push(region)) =~= usable_ranges(regions));
    }
}

/// Every usable region of the map has its range among those of the allocator.
proof fn lemma_usable_region_has_range(regions: Seq<MemoryRegion>, k: int) -> (i: int)
    requires
        0 <= k < regions.len(),
        regions[k].kind == MemoryRegionKind::Usable,
        regions[k].start + regions[k].length <= u64::MAX,
    ensures
        0 <= i < usable_ranges(regions).len(),
        usable_ranges(regions)[i].0 == regions[k].start,
        usable_ranges(regions)[i].1 == regions[k].start + regions[k].length,
    decreases regions.len(),
{
    let rest = regions.drop_last();
    let last = regions.last();
    assert(rest.push(last) =~= regions);
    law_one_more_region_of_the_map(rest, last);
    let more = usable_ranges(regions);
    if k == regions.len() - 1 {
        more.len() - 1
    } else {
        let i = lemma_usable_region_has_range(rest, k);
        if last.kind == MemoryRegionKind::Usable {
            reveal(Seq::filter);
            assert(more =~= usable_ranges(rest).push(range_of(last)));
        }
        i
    }
}

/// How many page-aligned 4 KiB frames lie within `[start, end)`.
pub open spec fn frames_between(start: int, end: int) -> int {
    let first = (start + 4095) / 4096;
    let past = end / 4096;
    if first < past {
        past - first
    } else {
        0
    }
}

/// How many page-aligned 4 KiB frames lie within the usable regions of the map.
pub open spec fn frames_of_map(regions: Seq<MemoryRegion>) -> int
    decreases regions.len(),
{
    if regions.len() == 0 {
        0
    } else {
        let region = regions[regions.len() - 1];
        frames_of_map(regions.take(regions.len() - 1)) + if region.kind
            == MemoryRegionKind::Usable {
            frames_between(region.start as int, region.start + region.length)
        } else {
            0
        }
    }
}

proof fn lemma_frames_within_all_of_one_more(ranges: Seq<(u64, u64)>, range: (u64, u64), i: int)
    requires
        0 <= i <= ranges.len(),
    ensures
        frames_within_all(ranges.push(range), i) == frames_within_all(ranges, i) + frames_within(
            range,
        ),
    decreases ranges.len() - i,
{
    if i < ranges.len() {
        lemma_frames_within_all_of_one_more(ranges, range, i + 1);
        assert(ranges.push(range)[i] == ranges[i]);
    } else {
        assert(ranges.push(range)[i] == range);
        assert(frames_within_all(ranges.push(range), i + 1) == 0);
    }
}

proof fn lemma_frames_of_ranges(regions: Seq<MemoryRegion>)
    requires
        forall|k: int|
            0 <= k < regions.len() && (#[trigger] regions[k]).kind == MemoryRegionKind::Usable
                ==> regions[k].start + regions[k].length <= u64::MAX,
    ensures
        frames_within_all(usable_ranges(regions), 0) == frames_of_map(regions),
    decreases regions.len(),
{
    if regions.len() == 0 {
        assert(regions =~= Seq::empty());
        law_one_more_region_of_the_map(
            regions,
            MemoryRegion { start: 0, length: 0, kind: MemoryRegionKind::Reserved },
        );
    } else {
        let rest = regions.take(regions.len() - 1);
        let last = regions[regions.len() - 1];
        assert(rest.push(last) =~= regions);
        assert forall|k: int|
            0 <= k < rest.len() && (#[trigger] rest[k]).kind
                == MemoryRegionKind::Usable implies rest[k].start + rest[k].length <= u64::MAX by {
            assert(rest[k] == regions[k]);
        }
        lemma_frames_of_ranges(rest);
        law_one_more_region_of_the_map(rest, last);
        if last.kind == MemoryRegionKind::Usable {
            let more = usable_ranges(regions);
            assert(more =~= usable_ranges(rest).push(more[more.len() - 1]));
            lemma_frames_within_all_of_one_more(usable_ranges(rest), more[more.len() - 1], 0);
        }
    }
}

impl FrameState {
    /// The allocator after `n` allocations.
    pub open spec fn after_allocations(self, n: nat) -> FrameState
        decreases n,
    {
        if n == 0 {
            self
        } else {
            self.after_allocate().after_allocations((n - 1) as nat)
        }
    }
}

/// A frame ahead of the search is handed out sooner or later.
proof fn lemma_frame_ahead_is_reached(state: FrameState, i: int, addr: u64) -> (n: nat)
    requires
        state.wf(),
        frame_ahead(state, i, addr as int),
    ensures
        state.after_allocations(n).allocation() == Some(addr),
    decreases state.available(),
{
    law_allocation_is_first_frame_ahead(state);
    law_allocation_counts_down(state);
    let after = state.after_allocate();
    if state.free_list.len() == 0 && after.current_region == i && state.allocation() == Some(addr) {
        assert(state.after_allocations(0) == state);
        0
    } else {
        if state.free_list.len() > 0 {
            assert(frame_ahead(after, i, addr as int));
        } else {
            assert(state.allocation() is Some);
            assert(frame_ahead(after, i, addr as int));
        }
        let n = lemma_frame_ahead_is_reached(after, i, addr);
        assert(state.after_allocations(n + 1) == after.after_allocations(n));
        n + 1
    }
}

/// After the allocator was initialised from a memory map, every page-aligned frame that
/// lies within a usable region of the map is handed out sooner or later; and the number
/// of frames available has grown by exactly those.
pub proof fn law_init_hands_over_every_usable_frame(
    frames: &mut BumpAllocator,
    map: &MemoryMap<'_>,
    k: int,
    addr: u64,
)
    requires
        call_ensures(allocator::init, (frames, map), ()),
        old(frames)@.wf(),
        forall|j: int|
            0 <= j < map.regions@.len() && (#[trigger] map.regions@[j]).kind
                == MemoryRegionKind::Usable ==> map.regions@[j].start + map.regions@[j].length
                <= u64::MAX,
    ensures
        call_requires(allocator::init, (frames, map)),
        final(frames)@.available() == old(frames)@.available() + frames_of_map(map.regions@),
        old(frames)@.regions.len() == 0 && old(frames)@.free_list.len() == 0
            ==> final(frames)@.available() == frames_of_map(map.regions@),
        final(frames)@.free_list == old(frames)@.free_list,
        0 <= k < map.regions@.len() && map.regions@[k].kind == MemoryRegionKind::Usable
            && map.regions@[k].start <= addr && addr + 4096 <= map.regions@[k].start
            + map.regions@[k].length && addr as int % 4096 == 0 ==> exists|n: nat| #[trigger]
            final(frames)@.after_allocations(n).allocation() == Some(addr),
{
    let regions = map.regions@;
    let before = old(frames)@;
    let after = final(frames)@;
    assert(usable_ranges_end(regions));
    law_added_regions_are_available(before, usable_ranges(regions));
    lemma_frames_of_ranges(regions);
    if 0 <= k < regions.len() && regions[k].kind == MemoryRegionKind::Usable && regions[k].start
        <= addr && addr + 4096 <= regions[k].start + regions[k].length && addr as int % 4096 == 0 {
        let i = lemma_usable_region_has_range(regions, k);
        let place = before.regions.len() + i;
        assert(after.regions[place] == usable_ranges(regions)[i]);
        assert(frame_ahead(after, place, addr as int));
        let n = lemma_frame_ahead_is_reached(after, place, addr);
        assert(after.after_allocations(n).allocation() == Some(addr));
    }
}

/// Initialising the memory subsystem does to the allocator what the allocator's own
/// initialisation does, and the map says when it can be done.
pub proof fn law_memory_init_is_allocator_init(
    frames: &mut BumpAllocator,
    direct: &mut BumpAllocator,
    map: &MemoryMap<'_>,
    fits: bool,
)
    requires
        call_ensures(init, (frames, map), ()),
        call_ensures(allocator::init, (direct, map), ()),
        call_ensures(MemoryMap::ranges_end, (map,), fits),
    ensures
        old(frames)@ == old(direct)@ ==> final(frames)@ == final(direct)@,
        fits <==> forall|j: int|
            0 <= j < map.regions@.len() && (#[trigger] map.regions@[j]).kind
                == MemoryRegionKind::Usable ==> map.regions@[j].start + map.regions@[j].length
                <= u64::MAX,
        fits ==> call_requires(init, (frames, map)) && call_requires(
            allocator::init,
            (frames, map),
        ),
{
    let regions = map.regions@;
    if forall|j: int|
        0 <= j < regions.len() && (#[trigger] regions[j]).kind == MemoryRegionKind::Usable
            ==> regions[j].start + regions[j].length <= u64::MAX {
        assert(usable_ranges_end(regions));
    }
    if usable_ranges_end(regions) {
        assert forall|j: int|
            0 <= j < regions.len() && (#[trigger] regions[j]).kind
                == MemoryRegionKind::Usable implies regions[j].start + regions[j].length
            <= u64::MAX by {
            assert(is_usable(regions[j]));
        }
    }
}

} // verus!
