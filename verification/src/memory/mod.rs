//! # Memory Management Subsystem
//!
//! - Physical frame allocator ([`allocator`]) and what holds of it ([`laws`])
//! - IOMMU / DMA mapping layer ([`iommu`]) and what holds of it ([`isolation`])
//! - The [`MemoryMap`] that the firmware hands over at boot
pub mod allocator;
pub mod iommu;
pub mod isolation;
pub mod laws;

use vstd::prelude::*;

use allocator::BumpAllocator;

verus! {

// ── MemoryMap ────────────────────────────────────────────────────────────────

/// A descriptor for a single contiguous region of physical memory.
#[derive(Debug, Clone, Copy, PartialEq, Eq, Structural)]
pub struct MemoryRegion {
    /// Start address (physical, byte-aligned).
    pub start: u64,
    /// Length in bytes.
    pub length: u64,
    /// Kind of region (usable RAM, reserved, MMIO …).
    pub kind: MemoryRegionKind,
}

/// Classification of a [`MemoryRegion`].
#[derive(Debug, Clone, Copy, PartialEq, Eq, Structural)]
pub enum MemoryRegionKind {
    /// General-purpose RAM available for kernel use.
    Usable,
    /// Reserved by firmware or hardware — must not be allocated.
    Reserved,
    /// Memory-mapped I/O — access only through volatile reads/writes.
    Mmio,
    /// Framebuffer / video memory.
    Framebuffer,
    /// ACPI reclaimable memory.
    AcpiReclaimable,
}

/// The firmware-supplied physical memory map handed to [`init`].
pub struct MemoryMap<'a> {
    /// Slice of memory region descriptors, ordered by `start` address.
    pub regions: &'a [MemoryRegion],
}

/// Whether a region may be given to the frame allocator.
pub open spec fn is_usable(region: MemoryRegion) -> bool {
    region.kind == MemoryRegionKind::Usable
}

/// The first address of a region and the first one past it.
pub open spec fn range_of(region: MemoryRegion) -> (u64, u64) {
    (region.start, (region.start + region.length) as u64)
}

/// The ranges of the usable regions, in the order of the map.
pub open spec fn usable_ranges(regions: Seq<MemoryRegion>) -> Seq<(u64, u64)> {
    regions.filter(|region: MemoryRegion| is_usable(region)).map_values(
        |region: MemoryRegion| range_of(region),
    )
}

/// Whether every usable region ends within the address space.
pub open spec fn usable_ranges_end(regions: Seq<MemoryRegion>) -> bool {
    forall|i: int|
        0 <= i < regions.len() && is_usable(#[trigger] regions[i]) ==> regions[i].start
            + regions[i].length <= u64::MAX
}

impl<'a> MemoryMap<'a> {
    /// Whether every usable region ends within the address space, as [`init`] asks.
    pub fn ranges_end(&self) -> (r: bool)
        ensures
            r == usable_ranges_end(self.regions@),
    {
        let mut i: usize = 0;
        while i < self.regions.len()
            invariant
                i <= self.regions.len(),
                usable_ranges_end(self.regions@.take(i as int)),
            decreases self.regions.len() - i,
        {
            let region = self.regions[i];
            if region.kind == MemoryRegionKind::Usable && region.start > u64::MAX - region.length {
                assert(is_usable(self.regions@[i as int]));
                return false;
            }
            i += 1;
        }
        assert(self.regions@.take(i as int) =~= self.regions@);
        true
    }
}

// ── Subsystem init ───────────────────────────────────────────────────────────

/// Initialise the memory subsystem from the boot-time memory map.
///
/// Walks all `Usable` regions and hands them to the frame allocator.
pub fn init(frames: &mut BumpAllocator, map: &MemoryMap<'_>)
    requires
        usable_ranges_end(map.regions@),
    ensures
        final(frames)@ == old(frames)@.with_regions(usable_ranges(map.regions@)),
{
    allocator::init(frames, map)
}

} // verus!
