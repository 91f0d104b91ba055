//! # Physical Frame Allocator
//!
//! A bump allocator that hands out 4 KiB frames in order, from the usable regions
//! of the boot-time memory map, and prefers frames that were given back.
//!
//! ```text
//!  allocate_frame()  →  PhysFrame (owned; release → free list)
//!       │
//!       ▼
//!  pinning  →  PhysicallyPinned (cannot be moved / reclaimed)
//!       │
//!       ▼
//!  iommu::map()  →  IommuMapping (device can now access the buffer)
//! ```
use vstd::prelude::*;
#[allow(unused_imports)]
use vstd::arithmetic::power2::pow2;

use super::{MemoryMap, MemoryRegionKind};
#[allow(unused_imports)]
use super::{is_usable, range_of, usable_ranges, usable_ranges_end, MemoryRegion};

verus! {

// ── Constants ────────────────────────────────────────────────────────────────

/// System page size in bytes (4 KiB).
pub const PAGE_SIZE: usize = 4096;

/// Alignment required for DMA buffers (64-byte cache line).
pub const DMA_ALIGNMENT: usize = 64;

// ── PhysFrame ────────────────────────────────────────────────────────────────

/// An owned physical page frame.
///
/// The owner gives the frame back with [`PhysFrame::release`]. Frames that are in
/// use for DMA are wrapped in [`PhysicallyPinned`] before they are mapped.
#[derive(Debug)]
pub struct PhysFrame {
    /// Physical base address of this 4 KiB frame.
    pub phys_addr: u64,
}

impl PhysFrame {
    /// Return the frame to the allocator.
    pub fn release(self, frames: &mut BumpAllocator)
        ensures
            final(frames)@ == old(frames)@.after_free(self.phys_addr),
    {
        frames.free(self.phys_addr);
    }
}

// ── PhysicallyPinned ─────────────────────────────────────────────────────────

/// A frame that has been **pinned** for DMA use.
///
/// Pinning keeps the frame from being reclaimed until the wrapper is un-pinned via
/// [`PhysicallyPinned::unpin`].
#[derive(Debug)]
pub struct PhysicallyPinned {
    frame: PhysFrame,
}

impl PhysicallyPinned {
    /// The physical address of the pinned frame.
    pub closed spec fn addr(self) -> u64 {
        self.frame.phys_addr
    }

    /// Consume the wrapper and recover the underlying frame.
    ///
    /// The caller **must** ensure no DMA transfer is in flight.
    pub fn unpin(self) -> (frame: PhysFrame)
        ensures
            frame == (PhysFrame { phys_addr: self.addr() }),
    {
        self.frame
    }

    /// Physical address of the pinned frame.
    pub fn phys_addr(&self) -> (addr: u64)
        ensures
            addr == self.addr(),
    {
        self.frame.phys_addr
    }
}

// ── The allocator, as a mathematical state ───────────────────────────────────

/// `addr` rounded up to a multiple of `align`.
pub open spec fn round_up(addr: int, align: int) -> int {
    (addr + align - 1) / align * align
}

/// Whether `n` is a power of two.
pub open spec fn is_power_of_two(n: int) -> bool {
    exists|e: nat| n == #[trigger] pow2(e)
}

/// The state of a frame allocator.
#[verifier::ext_equal]
pub struct FrameState {
    /// The usable regions: first address, and first address past the end.
    pub regions: Seq<(u64, u64)>,
    /// The region that frames are taken from; those before it are used up.
    pub current_region: nat,
    /// Where the search for a new frame starts in the current region.
    pub next: u64,
    /// The frames that were given back, the latest one last.
    pub free_list: Seq<u64>,
}

impl FrameState {
    /// An allocator without memory.
    pub open spec fn empty() -> FrameState {
        FrameState {
            regions: Seq::empty(),
            current_region: 0,
            next: 0,
            free_list: Seq::empty(),
        }
    }

    /// The allocator with one more region behind the others. Where the search has
    /// run past the others, it goes on at the start of the new one.
    pub open spec fn with_region(self, start: u64, end: u64) -> FrameState {
        FrameState {
            regions: self.regions.push((start, end)),
            next: if self.current_region == self.regions.len() {
                start
            } else {
                self.next
            },
            ..self
        }
    }

    /// The allocator with more regions behind the others. Where the search has run
    /// past the others, it goes on at the start of the new region that it has reached.
    pub open spec fn with_regions(self, ranges: Seq<(u64, u64)>) -> FrameState {
        let reached = self.current_region - self.regions.len();
        FrameState {
            regions: self.regions + ranges,
            next: if 0 <= reached < ranges.len() {
                ranges[reached].0
            } else {
                self.next
            },
            ..self
        }
    }

    /// Where the search for a new frame starts in region `i`.
    pub open spec fn search_start(self, i: int) -> int {
        if i == self.current_region {
            self.next as int
        } else {
            self.regions[i].0 as int
        }
    }

    /// The first page-aligned address in region `i` that was not searched yet.
    pub open spec fn candidate(self, i: int) -> int {
        round_up(self.search_start(i), PAGE_SIZE as int)
    }

    /// Whether region `i` has room for a new frame.
    pub open spec fn fits(self, i: int) -> bool {
        self.candidate(i) + PAGE_SIZE <= self.regions[i].1
    }

    /// Whether none of the regions from the current one up to `i` has room.
    pub open spec fn no_room_before(self, i: int) -> bool {
        forall|j: int| self.current_region <= j < i ==> !#[trigger] self.fits(j)
    }

    /// Whether `i` is the first region, from the current one on, that has room.
    pub open spec fn is_first_fit(self, i: int) -> bool {
        &&& self.current_region <= i < self.regions.len()
        &&& self.fits(i)
        &&& self.no_room_before(i)
    }

    /// The first region, from region `i` on, that has room.
    pub open spec fn first_fit_from(self, i: int) -> Option<int>
        decreases self.regions.len() - i,
    {
        if i >= self.regions.len() {
            None
        } else if self.fits(i) {
            Some(i)
        } else {
            self.first_fit_from(i + 1)
        }
    }

    /// The first region, from the current one on, that has room.
    pub open spec fn first_fit(self) -> Option<int> {
        self.first_fit_from(self.current_region as int)
    }

    /// The address that an allocation hands out: the frame that was given back
    /// last, else the first new frame, else none.
    pub open spec fn allocation(self) -> Option<u64> {
        if self.free_list.len() > 0 {
            Some(self.free_list.last())
        } else {
            match self.first_fit() {
                Some(i) => Some(self.candidate(i) as u64),
                None => None,
            }
        }
    }

    /// The allocator after an allocation.
    pub open spec fn after_allocate(self) -> FrameState {
        if self.free_list.len() > 0 {
            FrameState { free_list: self.free_list.drop_last(), ..self }
        } else {
            match self.first_fit() {
                Some(i) => FrameState {
                    current_region: i as nat,
                    next: (self.candidate(i) + PAGE_SIZE) as u64,
                    ..self
                },
                None => self.exhausted(),
            }
        }
    }

    /// The allocator after it has searched every region in vain.
    pub open spec fn exhausted(self) -> FrameState {
        FrameState {
            current_region: if self.current_region < self.regions.len() {
                self.regions.len()
            } else {
                self.current_region
            },
            next: if self.current_region + 1 < self.regions.len() {
                self.regions.last().0
            } else {
                self.next
            },
            ..self
        }
    }

    /// The allocator after a frame was given back.
    pub open spec fn after_free(self, addr: u64) -> FrameState {
        FrameState { free_list: self.free_list.push(addr), ..self }
    }

    /// Whether an allocation stays within 64-bit addresses: in every region that it
    /// looks at, the first page-aligned frame ends within the address space.
    pub open spec fn search_in_range(self) -> bool {
        self.free_list.len() == 0 ==> forall|i: int|
            self.current_region <= i < self.regions.len() && #[trigger] self.no_room_before(i)
                ==> self.search_start(i) + 2 * PAGE_SIZE - 1 <= u64::MAX
    }
}

// ── BumpAllocator ────────────────────────────────────────────────────────────

/// The physical frame allocator.
pub struct BumpAllocator {
    regions: Vec<(u64, u64)>,  // (start, end) of usable regions
    current_region: usize,
    next: u64,
    free_list: Vec<u64>,  // returned frames
}

impl View for BumpAllocator {
    type V = FrameState;

    closed spec fn view(&self) -> FrameState {
        FrameState {
            regions: self.regions@,
            current_region: self.current_region as nat,
            next: self.next,
            free_list: self.free_list@,
        }
    }
}

impl BumpAllocator {
    /// An allocator without memory.
    pub fn empty() -> (frames: Self)
        ensures
            frames@ == FrameState::empty(),
    {
        BumpAllocator {
            regions: Vec::new(),
            current_region: 0,
            next: 0,
            free_list: Vec::new(),
        }
    }

    /// Add the region `[start, end)` behind the others. Its frames are handed out
    /// once the others have none left, also where they have none left already.
    pub fn add_region(&mut self, start: u64, end: u64)
        ensures
            final(self)@ == old(self)@.with_region(start, end),
    {
        if self.current_region == self.regions.len() {
            self.next = start;
        }
        self.regions.push((start, end));
    }

    /// Allocate one 4 KiB frame; returns `None` if OOM.
    pub fn allocate(&mut self) -> (r: Option<u64>)
        requires
            old(self)@.search_in_range(),
        ensures
            r == old(self)@.allocation(),
            final(self)@ == old(self)@.after_allocate(),
    {
        // Prefer frames from the free list (from prior releases).
        if let Some(addr) = self.free_list.pop() {
            return Some(addr);
        }
        let ghost before = self@;
        loop
            invariant
                before == old(self)@,
                before.search_in_range(),
                before.free_list.len() == 0,
                self@.regions == before.regions,
                self@.free_list == before.free_list,
                before.current_region <= self@.current_region,
                self@.current_region == before.current_region || self@.current_region
                    <= before.regions.len(),
                before.no_room_before(self@.current_region as int),
                self@.current_region < before.regions.len() ==> self@.next == before.search_start(
                    self@.current_region as int,
                ),
                self@.current_region >= before.regions.len() ==> self@ == before.exhausted(),
            decreases self.regions.len() - self.current_region,
        {
            if self.current_region >= self.regions.len() {
                proof {
                    law_first_fit(before);
                }
                return None;  // OOM
            }
            let (_, end) = self.regions[self.current_region];
            let ghost i = self.current_region as int;
            assert(before.no_room_before(i));
            proof {
                lemma_page_size_is_power_of_two();
            }
            let aligned = align_up(self.next, PAGE_SIZE as u64);
            assert(aligned == before.candidate(i));
            if aligned + PAGE_SIZE as u64 <= end {
                self.next = aligned + PAGE_SIZE as u64;
                proof {
                    assert(before.is_first_fit(i));
                    law_first_fit(before);
                }
                return Some(aligned);
            }
            // Advance to the next region.
            self.current_region += 1;
            if self.current_region < self.regions.len() {
                self.next = self.regions[self.current_region].0;
            }
            assert(!before.fits(i));
        }
    }

    /// Take a frame back.
    pub fn free(&mut self, addr: u64)
        ensures
            final(self)@ == old(self)@.after_free(addr),
    {
        self.free_list.push(addr);
    }

    /// Whether an allocation stays within 64-bit addresses.
    pub fn search_in_range(&self) -> (r: bool)
        ensures
            r == self@.search_in_range(),
    {
        if self.free_list.len() > 0 {
            return true;
        }
        let mut i: usize = self.current_region;
        while i < self.regions.len()
            invariant
                self@.free_list.len() == 0,
                self@.current_region <= i,
                i <= self@.regions.len() || i == self@.current_region,
                self@.no_room_before(i as int),
                forall|j: int|
                    self@.current_region <= j < i && #[trigger] self@.no_room_before(j)
                        ==> self@.search_start(j) + 2 * PAGE_SIZE - 1 <= u64::MAX,
            decreases self.regions.len() - i,
        {
            let (start, end) = self.regions[i];
            let from = if i == self.current_region {
                self.next
            } else {
                start
            };
            assert(from == self@.search_start(i as int));
            if from > u64::MAX - (2 * PAGE_SIZE as u64 - 1) {
                assert(self@.no_room_before(i as int));
                return false;
            }
            proof {
                lemma_page_size_is_power_of_two();
            }
            if align_up(from, PAGE_SIZE as u64) + PAGE_SIZE as u64 <= end {
                assert(self@.fits(i as int));
                return true;
            }
            assert(!self@.fits(i as int));
            i += 1;
        }
        true
    }
}

/// The page size is a power of two.
pub proof fn lemma_page_size_is_power_of_two()
    ensures
        is_power_of_two(PAGE_SIZE as int),
{
    vstd::arithmetic::power2::lemma2_to64();
    assert(PAGE_SIZE == pow2(12));
}

/// The first fit has room, and no region before it has; where there is none, no
/// region has room.
pub proof fn law_first_fit(state: FrameState)
    ensures
        match state.first_fit() {
            Some(i) => state.is_first_fit(i),
            None => state.no_room_before(state.regions.len() as int),
        },
        forall|i: int| #[trigger] state.is_first_fit(i) ==> state.first_fit() == Some(i),
{
    lemma_first_fit_from(state, state.current_region as int);
    assert forall|i: int| #[trigger] state.is_first_fit(i) implies state.first_fit() == Some(i) by {
        match state.first_fit() {
            Some(k) => {
                if k < i {
                    assert(!state.fits(k));
                }
                if i < k {
                    assert(!state.fits(i));
                }
            },
            None => {
                assert(!state.fits(i));
            },
        }
    }
}

proof fn lemma_first_fit_from(state: FrameState, i: int)
    requires
        state.current_region <= i,
        state.no_room_before(i),
    ensures
        match state.first_fit_from(i) {
            Some(k) => state.is_first_fit(k),
            None => state.no_room_before(state.regions.len() as int),
        },
    decreases state.regions.len() - i,
{
    if i < state.regions.len() && !state.fits(i) {
        assert(state.no_room_before(i + 1));
        lemma_first_fit_from(state, i + 1);
    }
}

// ── Subsystem API ────────────────────────────────────────────────────────────

/// Initialise the frame allocator from the boot-time memory map.
///
/// Called once by [`crate::memory::init`].
pub fn init(frames: &mut BumpAllocator, map: &MemoryMap<'_>)
    requires
        usable_ranges_end(map.regions@),
    ensures
        final(frames)@ == old(frames)@.with_regions(usable_ranges(map.regions@)),
{
    let regions = map.regions;
    let ghost before = frames@;
    let ghost usable = |region: MemoryRegion| is_usable(region);
    let mut i: usize = 0;
    assert(regions@.take(0).filter(usable) =~= Seq::empty()) by {
        reveal(Seq::filter);
    }
    while i < regions.len()
        invariant
            i <= regions.len(),
            usable_ranges_end(regions@),
            usable == (|region: MemoryRegion| is_usable(region)),
            frames@ == before.with_regions(usable_ranges(regions@.take(i as int))),
        decreases regions.len() - i,
    {
        let region = regions[i];
        let ghost done = regions@.take(i as int);
        proof {
            assert(regions@.take(i + 1).drop_last() =~= done);
            reveal(Seq::filter);
        }
        if region.kind == MemoryRegionKind::Usable {
            frames.add_region(region.start, region.start + region.length);
            assert(usable_ranges(regions@.take(i + 1)) =~= usable_ranges(done).push(
                range_of(region),
            ));
        }
        i += 1;
    }
    assert(regions@.take(i as int) =~= regions@);
}

/// Allocate a single 4 KiB physical frame.
///
/// Returns `None` if no physical memory is available.
pub fn allocate_frame(frames: &mut BumpAllocator) -> (r: Option<PhysFrame>)
    requires
        old(frames)@.search_in_range(),
    ensures
        r == match old(frames)@.allocation() {
            Some(phys_addr) => Some(PhysFrame { phys_addr }),
            None => None,
        },
        final(frames)@ == old(frames)@.after_allocate(),
{
    match frames.allocate() {
        Some(addr) => Some(PhysFrame { phys_addr: addr }),
        None => None,
    }
}

/// Allocate a frame and immediately pin it for DMA use.
///
/// Equivalent to `allocate_frame()` followed by pinning, but avoids any
/// window in which the frame could be accidentally released.
pub fn allocate_pinned_frame(frames: &mut BumpAllocator) -> (r: Option<PhysicallyPinned>)
    requires
        old(frames)@.search_in_range(),
    ensures
        match old(frames)@.allocation() {
            Some(phys_addr) => r matches Some(pinned) && pinned.addr() == phys_addr,
            None => r is None,
        },
        final(frames)@ == old(frames)@.after_allocate(),
{
    match allocate_frame(frames) {
        Some(frame) => Some(PhysicallyPinned { frame }),
        None => None,
    }
}

// ── Helpers ──────────────────────────────────────────────────────────────────

/// Round `addr` up to the nearest multiple of `align` (must be a power of 2).
pub fn align_up(addr: u64, align: u64) -> (r: u64)
    requires
        is_power_of_two(align as int),
        addr + align <= u64::MAX,
    ensures
        r == round_up(addr as int, align as int),
        addr <= r < addr + align,
        r % align == 0,
{
    proof {
        lemma_align_up((addr + align - 1) as u64, align);
    }
    (addr + align - 1) & !(align - 1)
}

/// Clearing the bits below a power of two rounds down to a multiple of it.
proof fn lemma_align_up(x: u64, align: u64)
    requires
        is_power_of_two(align as int),
    ensures
        align > 0,
        x & !((align - 1) as u64) == x as int / align as int * align as int,
        (x as int / align as int * align as int) % align as int == 0,
        x - align < x as int / align as int * align as int <= x,
{
    let e = choose|e: nat| align as int == #[trigger] pow2(e);
    vstd::arithmetic::power2::lemma_pow2_pos(e);
    if e >= 64 {
        vstd::arithmetic::power2::lemma2_to64_rest();
        if e > 64 {
            vstd::arithmetic::power2::lemma_pow2_strictly_increases(64, e);
        }
        assert(false);
    }
    vstd::bits::lemma_u64_low_bits_mask_is_mod(x, e);
    let mask = (align - 1) as u64;
    assert(x & mask == x % align);
    assert(x & !mask == x - (x & mask)) by (bit_vector);
    vstd::arithmetic::div_mod::lemma_fundamental_div_mod(x as int, align as int);
    vstd::arithmetic::mul::lemma_mul_is_commutative(align as int, x as int / align as int);
    vstd::arithmetic::div_mod::lemma_mod_multiples_basic(
        x as int / align as int,
        align as int,
    );
    vstd::arithmetic::div_mod::lemma_mod_bound(x as int, align as int);
}

} // verus!
