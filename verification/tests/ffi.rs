use cyberkernel::capability::{self, CapabilityId, CapabilityKind, CapabilityRights};
use cyberkernel::fabric::{self, NodeId, NodeKind};
use cyberkernel::ffi::{
    issue_compute_capability, register_compute_region, release_compute_region,
    validate_capability_handle, FfiStatus,
};
use cyberkernel::memory::allocator::allocate_pinned_frame;
use cyberkernel::memory::iommu::{self, HalCommand, IommuPermissions};
use cyberkernel::memory::{self, MemoryMap, MemoryRegion, MemoryRegionKind};
use cyberkernel::{init, Kernel};

const TEST_REGION: MemoryRegion = MemoryRegion {
    start: 0x4000_0000,
    length: 0x100_0000, // 16 MiB
    kind: MemoryRegionKind::Usable,
};

fn init_all() -> Kernel {
    let mut kernel = Kernel::new();
    memory::allocator::init(
        &mut kernel.frames,
        &MemoryMap { regions: core::slice::from_ref(&TEST_REGION) },
    );
    iommu::init(&mut kernel.iommu);
    capability::init(&mut kernel.capabilities);
    kernel
}

#[test]
fn test_register_and_release_compute_region() {
    let mut kernel = init_all();
    let mut phys_addr: u64 = 0;
    let ret = register_compute_region(&mut kernel, 512, 0xBEEF, Some(&mut phys_addr));
    assert_eq!(ret, FfiStatus::Success.code());
    assert!(phys_addr > 0);

    let ret2 = release_compute_region(&mut kernel, phys_addr);
    assert_eq!(ret2, FfiStatus::Success.code());
}

#[test]
fn test_release_nonexistent_region() {
    let mut kernel = init_all();
    let ret = release_compute_region(&mut kernel, 0xDEAD_BEEF);
    assert_eq!(ret, FfiStatus::NotFound.code());
}

#[test]
fn test_issue_and_validate_compute_capability() {
    let mut kernel = init_all();
    let mut handle: u64 = 0;
    let ret = issue_compute_capability(&mut kernel, 0xCAFE, 1_000_000, Some(&mut handle));
    assert_eq!(ret, FfiStatus::Success.code());
    assert!(handle > 0);

    let vret = validate_capability_handle(&mut kernel, handle);
    assert_eq!(vret, FfiStatus::Success.code());
}

#[test]
fn test_validate_invalid_handle() {
    let mut kernel = init_all();
    let vret = validate_capability_handle(&mut kernel, 0xFFFF_FFFF_FFFF_FFFF);
    assert_eq!(vret, FfiStatus::CapabilityDenied.code());
}

#[test]
fn status_codes() {
    assert_eq!(FfiStatus::Success.code(), 0);
    assert_eq!(FfiStatus::InvalidArgument.code(), -1);
    assert_eq!(FfiStatus::OutOfMemory.code(), -2);
    assert_eq!(FfiStatus::CapabilityDenied.code(), -3);
    assert_eq!(FfiStatus::AlreadyRegistered.code(), -4);
    assert_eq!(FfiStatus::NotFound.code(), -5);
    assert_eq!(FfiStatus::IommuError.code(), -6);
}

#[test]
fn invalid_arguments_change_nothing() {
    let mut kernel = init_all();
    let mut out: u64 = 7;
    assert_eq!(register_compute_region(&mut kernel, 0, 1, Some(&mut out)), -1);
    assert_eq!(register_compute_region(&mut kernel, 4097, 1, Some(&mut out)), -1);
    assert_eq!(register_compute_region(&mut kernel, 512, 1, None), -1);
    assert_eq!(issue_compute_capability(&mut kernel, 1, 1, None), -1);
    assert_eq!(out, 7);
    assert_eq!(register_compute_region(&mut kernel, 4096, 1, Some(&mut out)), 0);
    assert_eq!(out, 0x4000_0000);
    // The first capability id went to the registration that succeeded.
    let mut handle: u64 = 0;
    assert_eq!(issue_compute_capability(&mut kernel, 1, 1, Some(&mut handle)), 0);
    assert_eq!(handle, 2);
}

#[test]
fn released_region_is_reused_and_gone() {
    let mut kernel = init_all();
    let mut a: u64 = 0;
    let mut b: u64 = 0;
    assert_eq!(register_compute_region(&mut kernel, 1, 1, Some(&mut a)), 0);
    assert_eq!(register_compute_region(&mut kernel, 1, 1, Some(&mut b)), 0);
    assert_eq!((a, b), (0x4000_0000, 0x4000_1000));
    assert_eq!(release_compute_region(&mut kernel, a), 0);
    assert_eq!(release_compute_region(&mut kernel, a), -5);
    let mut c: u64 = 0;
    assert_eq!(register_compute_region(&mut kernel, 1, 1, Some(&mut c)), 0);
    assert_eq!(c, a);
}

#[test]
fn hardware_is_told_about_regions() {
    let mut kernel = init_all();
    let mut addr: u64 = 0;
    assert_eq!(register_compute_region(&mut kernel, 512, 0xBEEF, Some(&mut addr)), 0);
    assert_eq!(release_compute_region(&mut kernel, addr), 0);
    assert_eq!(
        iommu::take_commands(&mut kernel.iommu),
        vec![
            HalCommand::MapRange {
                device_id: 0xBEEF,
                phys_start: addr,
                length: 512,
                permissions: IommuPermissions::READ() | IommuPermissions::WRITE(),
            },
            HalCommand::UnmapRange { device_id: 0xBEEF, phys_start: addr, length: 512 },
        ]
    );
    assert!(kernel.iommu.as_ref().unwrap().no_active_mappings());
}

#[test]
fn out_of_memory() {
    let mut kernel = Kernel::new();
    let region = MemoryRegion { start: 0x1000, length: 0x1000, kind: MemoryRegionKind::Usable };
    init(&mut kernel, &MemoryMap { regions: core::slice::from_ref(&region) });
    let mut addr: u64 = 0;
    assert_eq!(register_compute_region(&mut kernel, 1, 1, Some(&mut addr)), 0);
    let mut other: u64 = 5;
    assert_eq!(register_compute_region(&mut kernel, 1, 1, Some(&mut other)), -2);
    assert_eq!(other, 5);
    assert_eq!(release_compute_region(&mut kernel, addr), 0);
    assert_eq!(register_compute_region(&mut kernel, 1, 1, Some(&mut other)), 0);
    assert_eq!(other, 0x1000);
}

#[test]
fn uninitialised_iommu_gives_the_frame_back() {
    let mut kernel = Kernel::new();
    kernel.frames.add_region(0x1000, 0x3000);
    let mut addr: u64 = 5;
    assert_eq!(register_compute_region(&mut kernel, 1, 1, Some(&mut addr)), -6);
    assert_eq!(addr, 5);
    assert_eq!(kernel.frames.allocate(), Some(0x1000));
}

#[test]
fn frame_handed_out_twice_is_already_registered() {
    let mut kernel = Kernel::new();
    let region = MemoryRegion { start: 0x1000, length: 0x1000, kind: MemoryRegionKind::Usable };
    // The same memory twice: the memory map is at fault.
    init(&mut kernel, &MemoryMap { regions: &[region, region] });
    let mut addr: u64 = 0;
    assert_eq!(register_compute_region(&mut kernel, 1, 1, Some(&mut addr)), 0);
    assert_eq!(register_compute_region(&mut kernel, 1, 1, Some(&mut addr)), -4);
    assert_eq!(kernel.frames.allocate(), Some(0x1000));
}

#[test]
fn displaced_region_is_released() {
    let mut kernel = Kernel::new();
    let region = MemoryRegion { start: 0x1000, length: 0x1000, kind: MemoryRegionKind::Usable };
    let other = MemoryRegion { start: 0x5000, ..region };
    init(&mut kernel, &MemoryMap { regions: &[region, other, region] });
    let mut addr: u64 = 0;
    assert_eq!(register_compute_region(&mut kernel, 1, 1, Some(&mut addr)), 0);
    // The mapping is taken away behind the region's back: another mapping poses as it.
    let cap = capability::issue(
        &mut kernel.capabilities,
        CapabilityKind::DmaBuffer,
        CapabilityRights::DMA(),
    );
    let pinned = allocate_pinned_frame(&mut kernel.frames).expect("the second region");
    let mut mapping = iommu::map(
        &mut kernel.iommu,
        &mut kernel.capabilities,
        pinned,
        1,
        IommuPermissions::READ(),
        1,
        &cap,
    )
    .ok()
    .expect("a free frame");
    mapping.phys_start = 0x1000;
    mapping.release(&mut kernel.iommu, &mut kernel.frames).expect("initialised");
    assert_eq!(kernel.frames.allocate(), Some(0x5000));

    assert_eq!(register_compute_region(&mut kernel, 2, 2, Some(&mut addr)), 0);
    assert_eq!(addr, 0x1000);
    let commands = iommu::take_commands(&mut kernel.iommu);
    assert_eq!(
        commands.last(),
        Some(&HalCommand::UnmapRange { device_id: 1, phys_start: 0x1000, length: 1 })
    );
    assert_eq!(kernel.frames.allocate(), Some(0x1000));
}

#[test]
fn mixed_operations_keep_devices_apart() {
    let mut kernel = init_all();
    let carry_out = |commands: Vec<HalCommand>, seen: &mut Vec<(u64, u64)>| {
        for command in commands {
            match command {
                HalCommand::MapRange { device_id, phys_start, .. } => {
                    seen.push((device_id, phys_start))
                }
                HalCommand::UnmapRange { device_id, phys_start, .. } => {
                    seen.retain(|entry| *entry != (device_id, phys_start))
                }
            }
        }
    };
    let mut hardware: Vec<(u64, u64)> = Vec::new();
    let mut region: u64 = 0;
    assert_eq!(register_compute_region(&mut kernel, 512, 1, Some(&mut region)), 0);
    let cap = capability::issue(
        &mut kernel.capabilities,
        CapabilityKind::ComputeRegion,
        CapabilityRights::DMA(),
    );
    let pinned = allocate_pinned_frame(&mut kernel.frames).expect("a frame");
    let direct = pinned.phys_addr();
    let mapping = iommu::map(
        &mut kernel.iommu,
        &mut kernel.capabilities,
        pinned,
        4096,
        IommuPermissions::READ(),
        2,
        &cap,
    )
    .ok()
    .expect("a free frame");
    carry_out(iommu::take_commands(&mut kernel.iommu), &mut hardware);
    assert_eq!(hardware, vec![(1, region), (2, direct)]);

    // Initialising again adds memory and takes no mapping away.
    let more = MemoryRegion { start: 0x9000_0000, length: 0x1000, kind: MemoryRegionKind::Usable };
    init(&mut kernel, &MemoryMap { regions: core::slice::from_ref(&more) });
    assert!(iommu::take_commands(&mut kernel.iommu).is_empty());
    assert!(!kernel.iommu.as_ref().unwrap().no_active_mappings());

    assert_eq!(release_compute_region(&mut kernel, region), 0);
    carry_out(iommu::take_commands(&mut kernel.iommu), &mut hardware);
    assert_eq!(hardware, vec![(2, direct)]);
    mapping.release(&mut kernel.iommu, &mut kernel.frames).expect("initialised");
    carry_out(iommu::take_commands(&mut kernel.iommu), &mut hardware);
    assert!(hardware.is_empty());
    assert!(kernel.iommu.as_ref().unwrap().no_active_mappings());
    // Both frames are back, the last one first.
    assert_eq!(kernel.frames.allocate(), Some(direct));
    assert_eq!(kernel.frames.allocate(), Some(region));
}

#[test]
fn handle_is_good_until_revoked() {
    let mut kernel = init_all();
    let mut handle: u64 = 0;
    assert_eq!(issue_compute_capability(&mut kernel, 1, 1, Some(&mut handle)), 0);
    let dma =
        capability::issue(&mut kernel.capabilities, CapabilityKind::DmaBuffer, CapabilityRights::DMA());
    assert_eq!(validate_capability_handle(&mut kernel, dma.id.0), -3);
    assert_eq!(capability::revoke(&mut kernel.capabilities, dma.id), Ok(()));
    assert_eq!(validate_capability_handle(&mut kernel, handle), 0);
    assert_eq!(capability::revoke(&mut kernel.capabilities, CapabilityId(handle)), Ok(()));
    assert_eq!(validate_capability_handle(&mut kernel, handle), -3);
}

#[test]
fn init_brings_every_subsystem_up() {
    let mut kernel = Kernel::new();
    init(&mut kernel, &MemoryMap { regions: core::slice::from_ref(&TEST_REGION) });
    assert!(kernel.iommu.as_ref().unwrap().initialised);
    assert!(kernel.capabilities.is_some());
    assert!(kernel.tvdp.is_some());
    assert!(fabric::register_endpoint(
        &mut kernel.fabric,
        &mut kernel.capabilities,
        NodeId(1),
        NodeKind::Cpu,
        0,
        0
    )
    .is_ok());
    assert_eq!(kernel.frames.allocate(), Some(0x4000_0000));
}
