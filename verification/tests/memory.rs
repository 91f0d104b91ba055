use cyberkernel::capability::{
    self, Capability, CapabilityId, CapabilityKind, CapabilityRights, CapabilityTable,
};
use cyberkernel::memory::allocator::{self, align_up, BumpAllocator, PhysicallyPinned, PAGE_SIZE};
use cyberkernel::memory::iommu::{
    self, HalCommand, IommuError, IommuMapping, IommuPermissions, IommuState,
};
use cyberkernel::memory::{self, MemoryMap, MemoryRegion, MemoryRegionKind};

fn region(start: u64, length: u64, kind: MemoryRegionKind) -> MemoryRegion {
    MemoryRegion { start, length, kind }
}

// ── Allocator ────────────────────────────────────────────────────────────────

#[test]
fn test_align_up() {
    assert_eq!(align_up(0, 4096), 0);
    assert_eq!(align_up(1, 4096), 4096);
    assert_eq!(align_up(4096, 4096), 4096);
    assert_eq!(align_up(4097, 4096), 8192);
}

#[test]
fn align_up_to_other_powers_of_two() {
    assert_eq!(align_up(17, 1), 17);
    assert_eq!(align_up(17, 2), 18);
    assert_eq!(align_up(65, allocator::DMA_ALIGNMENT as u64), 128);
    assert_eq!(align_up(1, 1 << 63), 1 << 63);
}

#[test]
fn test_bump_allocator_basic() {
    let mut alloc = BumpAllocator::empty();
    // 8 KiB region → should yield exactly 2 frames
    alloc.add_region(0x1000_0000, 0x1000_0000 + 2 * PAGE_SIZE as u64);
    assert!(alloc.allocate().is_some());
    assert!(alloc.allocate().is_some());
    assert!(alloc.allocate().is_none()); // OOM
}

#[test]
fn test_bump_allocator_free_list() {
    let mut alloc = BumpAllocator::empty();
    alloc.add_region(0x2000_0000, 0x2000_0000 + PAGE_SIZE as u64);
    let addr = alloc.allocate().expect("first allocation");
    alloc.free(addr);
    // Should get the same address back from the free list.
    let addr2 = alloc.allocate().expect("second allocation after free");
    assert_eq!(addr, addr2);
}

#[test]
fn empty_allocator_has_nothing() {
    let mut alloc = BumpAllocator::empty();
    assert!(alloc.search_in_range());
    assert_eq!(alloc.allocate(), None);
    assert_eq!(alloc.allocate(), None);
}

#[test]
fn frames_come_in_order_across_regions() {
    let mut alloc = BumpAllocator::empty();
    alloc.add_region(0x1001, 0x4000); // unaligned start: two frames
    alloc.add_region(0x5000, 0x5fff); // too small
    alloc.add_region(0x8000, 0x9000); // one frame
    assert_eq!(alloc.allocate(), Some(0x2000));
    assert_eq!(alloc.allocate(), Some(0x3000));
    assert_eq!(alloc.allocate(), Some(0x8000));
    assert_eq!(alloc.allocate(), None);
}

#[test]
fn region_added_after_exhaustion_is_used() {
    let mut alloc = BumpAllocator::empty();
    alloc.add_region(0x1000, 0x2000);
    assert_eq!(alloc.allocate(), Some(0x1000));
    assert_eq!(alloc.allocate(), None);
    alloc.add_region(0x8000, 0x9000);
    assert_eq!(alloc.allocate(), Some(0x8000));
    assert_eq!(alloc.allocate(), None);
}

#[test]
fn map_added_after_exhaustion_is_used() {
    let mut frames = BumpAllocator::empty();
    assert_eq!(frames.allocate(), None);
    for start in [0x8000u64, 0x2000] {
        let regions = [
            region(start, 0x1000, MemoryRegionKind::Usable),
            region(start + 0x1000, 0x1000, MemoryRegionKind::Reserved),
            region(start + 0x2000, 0x1000, MemoryRegionKind::Usable),
        ];
        allocator::init(&mut frames, &MemoryMap { regions: &regions });
        assert_eq!(frames.allocate(), Some(start));
        assert_eq!(frames.allocate(), Some(start + 0x2000));
        assert_eq!(frames.allocate(), None);
    }
}

#[test]
fn free_list_is_last_in_first_out() {
    let mut alloc = BumpAllocator::empty();
    alloc.add_region(0x1000, 0x4000);
    let a = alloc.allocate().unwrap();
    let b = alloc.allocate().unwrap();
    alloc.free(a);
    alloc.free(b);
    assert_eq!(alloc.allocate(), Some(b));
    assert_eq!(alloc.allocate(), Some(a));
    assert_eq!(alloc.allocate(), Some(0x3000));
}

#[test]
fn search_at_the_end_of_the_address_space() {
    let mut alloc = BumpAllocator::empty();
    alloc.add_region(u64::MAX - 8191, u64::MAX);
    assert!(alloc.search_in_range());
    assert_eq!(alloc.allocate(), Some(u64::MAX - 8191));
    // The next candidate would end past the address space.
    assert!(!alloc.search_in_range());

    let mut alloc = BumpAllocator::empty();
    alloc.add_region(0x1000, 0x1000);
    alloc.add_region(u64::MAX - 100, u64::MAX);
    assert!(!alloc.search_in_range());
    alloc.free(0x7000);
    assert!(alloc.search_in_range());
    assert_eq!(alloc.allocate(), Some(0x7000));
}

#[test]
fn only_usable_regions_are_allocated() {
    let regions = [
        region(0x0, 0x1000, MemoryRegionKind::Reserved),
        region(0x10_0000, 0x1000, MemoryRegionKind::Usable),
        region(0x20_0000, 0x1000, MemoryRegionKind::Mmio),
        region(0x30_0000, 0x1000, MemoryRegionKind::Framebuffer),
        region(0x40_0000, 0x1000, MemoryRegionKind::AcpiReclaimable),
        region(0x50_0000, 0x2000, MemoryRegionKind::Usable),
        region(u64::MAX, u64::MAX, MemoryRegionKind::Reserved),
    ];
    let mut frames = BumpAllocator::empty();
    memory::init(&mut frames, &MemoryMap { regions: &regions });
    let mut addrs = Vec::new();
    while let Some(frame) = allocator::allocate_frame(&mut frames) {
        addrs.push(frame.phys_addr);
    }
    assert_eq!(addrs, vec![0x10_0000, 0x50_0000, 0x50_1000]);
}

#[test]
fn memory_map_tells_whether_its_ranges_end() {
    let fits = region(u64::MAX - 0x1000, 0x1000, MemoryRegionKind::Usable);
    let overflows = region(u64::MAX - 0x1000, 0x1001, MemoryRegionKind::Usable);
    let reserved = region(u64::MAX, u64::MAX, MemoryRegionKind::Reserved);
    assert!(MemoryMap { regions: &[] }.ranges_end());
    assert!(MemoryMap { regions: &[fits, reserved] }.ranges_end());
    assert!(!MemoryMap { regions: &[overflows] }.ranges_end());
    assert!(!MemoryMap { regions: &[fits, reserved, overflows, fits] }.ranges_end());
}

#[test]
fn released_and_unpinned_frames_are_reused() {
    let mut frames = BumpAllocator::empty();
    frames.add_region(0x1000, 0x3000);
    let frame = allocator::allocate_frame(&mut frames).expect("a frame");
    assert_eq!(frame.phys_addr, 0x1000);
    frame.release(&mut frames);
    let pinned = allocator::allocate_pinned_frame(&mut frames).expect("a frame");
    assert_eq!(pinned.phys_addr(), 0x1000);
    let frame = pinned.unpin();
    assert_eq!(frame.phys_addr, 0x1000);
    frame.release(&mut frames);
    assert_eq!(frames.allocate(), Some(0x1000));
    assert_eq!(frames.allocate(), Some(0x2000));
    assert!(allocator::allocate_pinned_frame(&mut frames).is_none());
}

// ── IOMMU ────────────────────────────────────────────────────────────────────

fn pinned_at(addr: u64) -> PhysicallyPinned {
    let mut frames = BumpAllocator::empty();
    frames.add_region(addr, addr + PAGE_SIZE as u64);
    allocator::allocate_pinned_frame(&mut frames).expect("a frame")
}

fn capability_of(kind: CapabilityKind) -> (Option<CapabilityTable>, Capability) {
    let mut table = None;
    let cap = capability::issue(&mut table, kind, CapabilityRights::DMA());
    (table, cap)
}

fn read_write() -> IommuPermissions {
    IommuPermissions::READ() | IommuPermissions::WRITE()
}

fn map_at(slot: &mut Option<IommuState>, addr: u64, device_id: u64) -> IommuMapping {
    let (mut table, cap) = capability_of(CapabilityKind::DmaBuffer);
    match iommu::map(slot, &mut table, pinned_at(addr), 512, read_write(), device_id, &cap) {
        Ok(mapping) => mapping,
        Err(_) => panic!("mapping should succeed"),
    }
}

#[test]
fn test_iommu_state_starts_uninitialised() {
    let state = IommuState::new();
    assert!(!state.initialised);
    assert!(state.no_active_mappings());
}

#[test]
fn initialised_iommu_says_so() {
    let mut slot = Some(IommuState::new());
    assert!(!slot.as_ref().unwrap().initialised());
    iommu::init(&mut slot);
    assert!(slot.as_ref().unwrap().initialised());
}

#[test]
fn test_permissions_flags() {
    let rw = IommuPermissions::READ() | IommuPermissions::WRITE();
    assert!(rw.contains(IommuPermissions::READ()));
    assert!(rw.contains(IommuPermissions::WRITE()));
    assert!(!rw.contains(IommuPermissions::EXEC()));
}

#[test]
fn permission_bits() {
    assert_eq!(IommuPermissions::READ().bits, 1);
    assert_eq!(IommuPermissions::WRITE().bits, 2);
    assert_eq!(IommuPermissions::EXEC().bits, 4);
    assert_eq!((IommuPermissions::READ() | IommuPermissions::EXEC()).bits, 5);
}

#[test]
fn mapping_records_and_tells_the_hardware() {
    let mut slot = None;
    iommu::init(&mut slot);
    let mapping = map_at(&mut slot, 0x4000, 0xBEEF);
    assert_eq!(mapping.phys_start, 0x4000);
    assert_eq!(mapping.length, 512);
    assert_eq!(mapping.permissions, read_write());
    assert_eq!(mapping.device_id, 0xBEEF);
    assert_eq!(mapping.phys_start(), 0x4000);
    assert_eq!(mapping.length(), 512);
    assert_eq!(mapping.permissions(), read_write());
    assert_eq!(mapping.device_id(), 0xBEEF);
    assert!(!slot.as_ref().unwrap().no_active_mappings());
    let commands = iommu::take_commands(&mut slot);
    assert_eq!(
        commands,
        vec![HalCommand::MapRange {
            device_id: 0xBEEF,
            phys_start: 0x4000,
            length: 512,
            permissions: read_write(),
        }]
    );
    assert!(iommu::take_commands(&mut slot).is_empty());
}

#[test]
fn double_map_is_refused_until_release() {
    let mut slot = None;
    iommu::init(&mut slot);
    let first = map_at(&mut slot, 0x4000, 1);
    let (mut table, cap) = capability_of(CapabilityKind::ComputeRegion);
    let refused = iommu::map(&mut slot, &mut table, pinned_at(0x4000), 512, read_write(), 2, &cap);
    let (pinned, error) = refused.err().expect("already mapped");
    assert_eq!(pinned.phys_addr(), 0x4000);
    assert_eq!(error, IommuError::AlreadyMapped);

    let mut frames = BumpAllocator::empty();
    assert_eq!(first.release(&mut slot, &mut frames), Ok(()));
    assert_eq!(frames.allocate(), Some(0x4000));
    assert!(slot.as_ref().unwrap().no_active_mappings());
    assert!(iommu::map(&mut slot, &mut table, pinned, 512, read_write(), 2, &cap).is_ok());

    let commands = iommu::take_commands(&mut slot);
    assert_eq!(commands.len(), 3);
    assert_eq!(
        commands[1],
        HalCommand::UnmapRange { device_id: 1, phys_start: 0x4000, length: 512 }
    );
}

#[test]
fn release_keeps_other_mappings() {
    let mut slot = None;
    iommu::init(&mut slot);
    let a = map_at(&mut slot, 0x4000, 1);
    let b = map_at(&mut slot, 0x5000, 1);
    let mut frames = BumpAllocator::empty();
    a.release(&mut slot, &mut frames).expect("initialised");
    assert!(!slot.as_ref().unwrap().no_active_mappings());
    b.release(&mut slot, &mut frames).expect("initialised");
    assert!(slot.as_ref().unwrap().no_active_mappings());
}

#[test]
fn wrong_kind_is_refused_before_anything_else() {
    let mut slot = None;
    for kind in [CapabilityKind::FabricEndpoint, CapabilityKind::TvdpSession] {
        let (mut table, cap) = capability_of(kind);
        let refused = iommu::map(&mut slot, &mut table, pinned_at(0x4000), 1, read_write(), 1, &cap);
        let (pinned, error) = refused.err().expect("wrong kind");
        assert_eq!(pinned.phys_addr(), 0x4000);
        assert_eq!(error, IommuError::CapabilityMismatch);
    }
    assert!(slot.is_none());
}

#[test]
fn revoked_capability_maps_nothing() {
    let mut slot = None;
    iommu::init(&mut slot);
    let (mut table, cap) = capability_of(CapabilityKind::DmaBuffer);
    capability::revoke(&mut table, cap.id).expect("live");
    let refused =
        iommu::map(&mut slot, &mut table, pinned_at(0x4000_0000), 512, read_write(), 1, &cap);
    let (pinned, error) = refused.err().expect("revoked");
    assert_eq!(pinned.phys_addr(), 0x4000_0000);
    assert_eq!(error, IommuError::CapabilityMismatch);

    // Capabilities that are issued later do not bring it back.
    let other = capability::issue(&mut table, CapabilityKind::DmaBuffer, CapabilityRights::DMA());
    let refused = iommu::map(&mut slot, &mut table, pinned, 512, read_write(), 1, &cap);
    let (pinned, error) = refused.err().expect("still revoked");
    assert_eq!(error, IommuError::CapabilityMismatch);
    assert!(slot.as_ref().unwrap().no_active_mappings());
    assert!(iommu::take_commands(&mut slot).is_empty());
    assert!(iommu::map(&mut slot, &mut table, pinned, 512, read_write(), 1, &other).is_ok());
}

#[test]
fn capability_that_was_never_issued_maps_nothing() {
    let mut slot = None;
    iommu::init(&mut slot);
    let mut table = None;
    let made_up = Capability {
        id: CapabilityId(1),
        kind: CapabilityKind::DmaBuffer,
        rights: CapabilityRights::DMA(),
    };
    let refused =
        iommu::map(&mut slot, &mut table, pinned_at(0x4000), 1, read_write(), 1, &made_up);
    assert_eq!(refused.err().expect("never issued").1, IommuError::CapabilityMismatch);
}

#[test]
fn forged_kind_maps_nothing() {
    let mut slot = None;
    iommu::init(&mut slot);
    for (issued, shown) in [
        (CapabilityKind::TvdpSession, CapabilityKind::DmaBuffer),
        (CapabilityKind::FabricEndpoint, CapabilityKind::ComputeRegion),
        (CapabilityKind::ComputeRegion, CapabilityKind::DmaBuffer),
    ] {
        let (mut table, mut cap) = capability_of(issued);
        cap.kind = shown;
        let refused =
            iommu::map(&mut slot, &mut table, pinned_at(0x4000), 1, read_write(), 1, &cap);
        assert_eq!(refused.err().expect("forged").1, IommuError::CapabilityMismatch);
    }
}

#[test]
fn uninitialised_iommu_refuses() {
    let mut slot = None;
    let (mut table, cap) = capability_of(CapabilityKind::DmaBuffer);
    let refused = iommu::map(&mut slot, &mut table, pinned_at(0x4000), 1, read_write(), 1, &cap);
    assert_eq!(refused.err().expect("not initialised").1, IommuError::NotInitialised);
    assert!(iommu::take_commands(&mut slot).is_empty());
}

#[test]
fn release_without_iommu_still_returns_the_frame() {
    let mut slot = None;
    iommu::init(&mut slot);
    let mapping = map_at(&mut slot, 0x4000, 1);
    let mut frames = BumpAllocator::empty();
    let mut down = None;
    assert_eq!(mapping.release(&mut down, &mut frames), Err(IommuError::NotInitialised));
    assert_eq!(frames.allocate(), Some(0x4000));
}
