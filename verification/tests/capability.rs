use cyberkernel::capability::{
    self, AuthorizedDmaBuffer, Capability, CapabilityError, CapabilityId, CapabilityKind,
    CapabilityRights, CapabilityTable, ComputeCapability,
};
use cyberkernel::memory::allocator::{self, BumpAllocator, PhysicallyPinned};
use cyberkernel::memory::{MemoryMap, MemoryRegion, MemoryRegionKind};

fn init_table() -> Option<CapabilityTable> {
    let mut table = None;
    capability::init(&mut table);
    table
}

fn usable_frames() -> BumpAllocator {
    let mut frames = BumpAllocator::empty();
    let region = MemoryRegion {
        start: 0x1000_0000,
        length: 0x10_0000, // 1 MiB
        kind: MemoryRegionKind::Usable,
    };
    allocator::init(&mut frames, &MemoryMap { regions: core::slice::from_ref(&region) });
    frames
}

fn make_pinned(frames: &mut BumpAllocator) -> PhysicallyPinned {
    allocator::allocate_pinned_frame(frames).expect("allocator has frames")
}

// ── The table ────────────────────────────────────────────────────────────────

#[test]
fn test_issue_and_validate() {
    let mut table = init_table();
    let cap = capability::issue(
        &mut table,
        CapabilityKind::DmaBuffer,
        CapabilityRights::READ() | CapabilityRights::DMA(),
    );
    assert_eq!(cap.kind, CapabilityKind::DmaBuffer);
    assert!(capability::validate(&mut table, &cap, CapabilityRights::READ()).is_ok());
    assert!(capability::validate(&mut table, &cap, CapabilityRights::DMA()).is_ok());
    assert!(capability::validate(&mut table, &cap, CapabilityRights::EXECUTE()).is_err());
}

#[test]
fn test_revoke() {
    let mut table = init_table();
    let cap = capability::issue(
        &mut table,
        CapabilityKind::ComputeRegion,
        CapabilityRights::EXECUTE(),
    );
    let id = cap.id;
    capability::revoke(&mut table, id).expect("revoke should succeed");
    assert_eq!(
        capability::validate(&mut table, &cap, CapabilityRights::EXECUTE()),
        Err(CapabilityError::Revoked)
    );
}

#[test]
fn test_unique_ids() {
    let mut table = init_table();
    let a = capability::issue(&mut table, CapabilityKind::DmaBuffer, CapabilityRights::READ());
    let b = capability::issue(&mut table, CapabilityKind::DmaBuffer, CapabilityRights::READ());
    assert_ne!(a.id, b.id);
}

#[test]
fn ids_start_at_one_and_increase() {
    let mut table = init_table();
    for expected in 1..=5u64 {
        let cap =
            capability::issue(&mut table, CapabilityKind::TvdpSession, CapabilityRights::READ());
        assert_eq!(cap.id, CapabilityId(expected));
    }
}

#[test]
fn revoked_id_is_not_issued_again() {
    let mut table = init_table();
    let a = capability::issue(&mut table, CapabilityKind::DmaBuffer, CapabilityRights::READ());
    assert_eq!(capability::revoke(&mut table, a.id), Ok(()));
    let b = capability::issue(&mut table, CapabilityKind::DmaBuffer, CapabilityRights::READ());
    assert_eq!(b.id, CapabilityId(2));
    assert_eq!(
        capability::validate(&mut table, &a, CapabilityRights::READ()),
        Err(CapabilityError::Revoked)
    );
    assert_eq!(capability::validate(&mut table, &b, CapabilityRights::READ()), Ok(()));
}

#[test]
fn second_revocation_finds_nothing() {
    let mut table = init_table();
    let cap = capability::issue(&mut table, CapabilityKind::DmaBuffer, CapabilityRights::READ());
    assert_eq!(capability::revoke(&mut table, cap.id), Ok(()));
    assert_eq!(capability::revoke(&mut table, cap.id), Err(CapabilityError::NotFound));
    assert_eq!(capability::revoke(&mut table, CapabilityId(77)), Err(CapabilityError::NotFound));
}

#[test]
fn revocation_leaves_other_capabilities_alone() {
    let mut table = init_table();
    let a = capability::issue(&mut table, CapabilityKind::DmaBuffer, CapabilityRights::READ());
    let b = capability::issue(&mut table, CapabilityKind::DmaBuffer, CapabilityRights::WRITE());
    capability::revoke(&mut table, a.id).expect("live");
    assert_eq!(capability::validate(&mut table, &b, CapabilityRights::WRITE()), Ok(()));
}

#[test]
fn forged_rights_count_for_nothing() {
    let mut table = init_table();
    let cap = capability::issue(&mut table, CapabilityKind::DmaBuffer, CapabilityRights::READ());
    let forged = Capability {
        id: cap.id,
        kind: CapabilityKind::ComputeRegion,
        rights: CapabilityRights::READ() | CapabilityRights::EXECUTE(),
    };
    assert_eq!(
        capability::validate(&mut table, &forged, CapabilityRights::EXECUTE()),
        Err(CapabilityError::InsufficientRights)
    );
    assert_eq!(capability::validate(&mut table, &forged, CapabilityRights::READ()), Ok(()));
}

#[test]
fn empty_slot_behaves_as_fresh_table() {
    let mut table = None;
    let never_issued = Capability {
        id: CapabilityId(1),
        kind: CapabilityKind::DmaBuffer,
        rights: CapabilityRights::READ(),
    };
    assert_eq!(
        capability::validate(&mut table, &never_issued, CapabilityRights::READ()),
        Err(CapabilityError::NotFound)
    );
    assert!(table.is_some());
    let cap = capability::issue(&mut table, CapabilityKind::DmaBuffer, CapabilityRights::READ());
    assert_eq!(cap.id, CapabilityId(1));
}

#[test]
fn id_that_was_never_issued_is_not_found() {
    let mut table = init_table();
    let live = capability::issue(&mut table, CapabilityKind::DmaBuffer, CapabilityRights::READ());
    for id in [0u64, 2, 77, u64::MAX] {
        let made_up = Capability { id: CapabilityId(id), ..live.clone() };
        assert_eq!(
            capability::validate(&mut table, &made_up, CapabilityRights::READ()),
            Err(CapabilityError::NotFound)
        );
    }
    // The next id is found once it is issued.
    let next = capability::issue(&mut table, CapabilityKind::DmaBuffer, CapabilityRights::READ());
    assert_eq!(next.id, CapabilityId(2));
    assert_eq!(capability::validate(&mut table, &next, CapabilityRights::READ()), Ok(()));
}

#[test]
fn fresh_table_finds_no_id() {
    let mut table = init_table();
    let made_up = Capability {
        id: CapabilityId(77),
        kind: CapabilityKind::DmaBuffer,
        rights: CapabilityRights::READ(),
    };
    assert_eq!(
        capability::validate(&mut table, &made_up, CapabilityRights::READ()),
        Err(CapabilityError::NotFound)
    );
}

#[test]
fn init_keeps_the_table() {
    let mut table = init_table();
    let cap = capability::issue(&mut table, CapabilityKind::DmaBuffer, CapabilityRights::READ());
    capability::init(&mut table);
    assert_eq!(capability::validate(&mut table, &cap, CapabilityRights::READ()), Ok(()));
}

#[test]
fn table_methods() {
    let mut table = CapabilityTable::new();
    assert!(table.has_free_id());
    let cap = table.issue(CapabilityKind::FabricEndpoint, CapabilityRights::DERIVE());
    let stored = table.lookup(cap.id).expect("live");
    assert_eq!(stored.kind, CapabilityKind::FabricEndpoint);
    assert_eq!(stored.rights, CapabilityRights::DERIVE());
    assert_eq!(table.revoke(cap.id), Ok(()));
    assert!(table.lookup(cap.id).is_none());
}

#[test]
fn rights_flags() {
    assert_eq!(CapabilityRights::READ().bits, 1);
    assert_eq!(CapabilityRights::WRITE().bits, 2);
    assert_eq!(CapabilityRights::TRANSFER().bits, 4);
    assert_eq!(CapabilityRights::DERIVE().bits, 8);
    assert_eq!(CapabilityRights::DMA().bits, 16);
    assert_eq!(CapabilityRights::EXECUTE().bits, 32);
    let rwd = CapabilityRights::READ() | CapabilityRights::WRITE() | CapabilityRights::DMA();
    assert_eq!(rwd.bits, 19);
    assert!(rwd.contains(CapabilityRights::READ() | CapabilityRights::DMA()));
    assert!(!rwd.contains(CapabilityRights::READ() | CapabilityRights::EXECUTE()));
    assert!(rwd.contains(CapabilityRights { bits: 0 }));
}

// ── The wrappers ─────────────────────────────────────────────────────────────

#[test]
fn test_authorized_dma_buffer_happy_path() {
    let mut table = init_table();
    let mut frames = usable_frames();
    let cap = capability::issue(
        &mut table,
        capability::CapabilityKind::DmaBuffer,
        capability::CapabilityRights::READ()
            | capability::CapabilityRights::WRITE()
            | capability::CapabilityRights::DMA(),
    );
    let pinned = make_pinned(&mut frames);
    let buf = match AuthorizedDmaBuffer::new(&mut table, pinned, 4096, cap) {
        Ok(buf) => buf,
        Err(_) => panic!("construction should succeed"),
    };
    assert!(buf.phys_addr() > 0);
    assert_eq!(buf.length, 4096);
}

#[test]
fn test_authorized_dma_buffer_wrong_kind() {
    let mut table = init_table();
    let mut frames = usable_frames();
    let cap = capability::issue(
        &mut table,
        capability::CapabilityKind::ComputeRegion, // wrong kind
        capability::CapabilityRights::DMA(),
    );
    let pinned = make_pinned(&mut frames);
    let result = AuthorizedDmaBuffer::new(&mut table, pinned, 4096, cap);
    assert!(result.is_err());
}

#[test]
fn refused_dma_buffer_gives_the_frame_back() {
    let mut table = init_table();
    let mut frames = usable_frames();
    let read_only =
        capability::issue(&mut table, CapabilityKind::DmaBuffer, CapabilityRights::READ());
    let revoked = capability::issue(&mut table, CapabilityKind::DmaBuffer, CapabilityRights::DMA());
    capability::revoke(&mut table, revoked.id).expect("live");

    let pinned = make_pinned(&mut frames);
    let addr = pinned.phys_addr();
    let (pinned, error) = match AuthorizedDmaBuffer::new(&mut table, pinned, 64, read_only) {
        Err(refused) => refused,
        Ok(_) => panic!("the DMA right is missing"),
    };
    assert_eq!(pinned.phys_addr(), addr);
    assert_eq!(error, CapabilityError::InsufficientRights);

    let (pinned, error) = match AuthorizedDmaBuffer::new(&mut table, pinned, 64, revoked) {
        Err(refused) => refused,
        Ok(_) => panic!("the capability is revoked"),
    };
    assert_eq!(pinned.phys_addr(), addr);
    assert_eq!(error, CapabilityError::Revoked);
}

#[test]
fn forged_kind_authorises_no_buffer() {
    let mut table = init_table();
    let mut frames = usable_frames();
    let mut cap =
        capability::issue(&mut table, CapabilityKind::ComputeRegion, CapabilityRights::DMA());
    cap.kind = CapabilityKind::DmaBuffer;
    let pinned = make_pinned(&mut frames);
    let (pinned, error) = match AuthorizedDmaBuffer::new(&mut table, pinned, 64, cap) {
        Err(refused) => refused,
        Ok(_) => panic!("the capability was issued for a compute region"),
    };
    assert_eq!(pinned.phys_addr(), 0x1000_0000);
    assert_eq!(error, CapabilityError::InsufficientRights);
}

#[test]
fn made_up_capability_authorises_no_buffer() {
    let mut table = init_table();
    let mut frames = usable_frames();
    let made_up = Capability {
        id: CapabilityId(9),
        kind: CapabilityKind::DmaBuffer,
        rights: CapabilityRights::DMA(),
    };
    let pinned = make_pinned(&mut frames);
    let (_, error) = match AuthorizedDmaBuffer::new(&mut table, pinned, 64, made_up) {
        Err(refused) => refused,
        Ok(_) => panic!("the capability was never issued"),
    };
    assert_eq!(error, CapabilityError::NotFound);
}

#[test]
fn forged_kind_schedules_no_compute() {
    let mut table = init_table();
    let mut cap =
        capability::issue(&mut table, CapabilityKind::DmaBuffer, CapabilityRights::EXECUTE());
    cap.kind = CapabilityKind::ComputeRegion;
    assert!(matches!(
        ComputeCapability::new(&mut table, cap, 1, 2),
        Err(CapabilityError::InsufficientRights)
    ));
}

#[test]
fn released_dma_buffer_returns_its_frame() {
    let mut table = init_table();
    let mut frames = usable_frames();
    let cap = capability::issue(&mut table, CapabilityKind::DmaBuffer, CapabilityRights::DMA());
    let pinned = make_pinned(&mut frames);
    let buf = match AuthorizedDmaBuffer::new(&mut table, pinned, 100, cap) {
        Ok(buf) => buf,
        Err(_) => panic!("construction should succeed"),
    };
    assert_eq!(buf.phys_addr(), 0x1000_0000);
    assert_eq!(buf.capability.id, CapabilityId(1));
    assert_eq!(buf.capability().id, CapabilityId(1));
    assert_eq!(buf.capability().kind, CapabilityKind::DmaBuffer);
    assert_eq!(buf.length(), 100);
    buf.release(&mut frames);
    assert_eq!(make_pinned(&mut frames).phys_addr(), 0x1000_0000);
}

#[test]
fn test_compute_capability_happy_path() {
    let mut table = init_table();
    let cap = capability::issue(
        &mut table,
        capability::CapabilityKind::ComputeRegion,
        capability::CapabilityRights::EXECUTE(),
    );
    let cc = ComputeCapability::new(&mut table, cap, 0xDEAD, 1_000_000).expect("should succeed");
    assert!(cc.as_raw_handle() > 0);
}

#[test]
fn compute_capability_refusals() {
    let mut table = init_table();
    let wrong_kind =
        capability::issue(&mut table, CapabilityKind::DmaBuffer, CapabilityRights::EXECUTE());
    let no_execute =
        capability::issue(&mut table, CapabilityKind::ComputeRegion, CapabilityRights::READ());
    let good =
        capability::issue(&mut table, CapabilityKind::ComputeRegion, CapabilityRights::EXECUTE());
    assert!(matches!(
        ComputeCapability::new(&mut table, wrong_kind, 1, 2),
        Err(CapabilityError::InsufficientRights)
    ));
    assert!(matches!(
        ComputeCapability::new(&mut table, no_execute, 1, 2),
        Err(CapabilityError::InsufficientRights)
    ));
    let cc = ComputeCapability::new(&mut table, good.clone(), 1, 2).expect("should succeed");
    assert_eq!(cc.clone().as_raw_handle(), 3);
    assert_eq!((cc.device_id, cc.flops_budget), (1, 2));
    capability::revoke(&mut table, good.id).expect("live");
    assert!(matches!(
        ComputeCapability::new(&mut table, good, 1, 2),
        Err(CapabilityError::Revoked)
    ));
}
