//! # Operations of the Mojo Data Plane
//!
//! What the data plane asks of the kernel across the C ABI:
//!
//! 1. **Register a compute region**: a physical memory range that serves as a
//!    shared tensor buffer.
//! 2. **Issue a compute capability**: an opaque handle that grants permission to
//!    schedule work on a device.
//! 3. **Validate a capability handle**, before any request is honoured.
//! 4. **Release a compute region**, which revokes the IOMMU mapping.
//!
//! The platform layer turns the raw pointers of the C side into references: an
//! `out` argument is `None` where the caller's pointer cannot be written through.
//! Every operation answers with the number of an [`FfiStatus`].
use std::collections::BTreeMap;

use vstd::prelude::*;

use crate::capability;
use crate::capability::{Capability, CapabilityId, CapabilityKind, CapabilityRights};
use crate::memory::allocator::{allocate_pinned_frame, BumpAllocator, PAGE_SIZE};
use crate::memory::iommu;
use crate::memory::iommu::{IommuError, IommuMapping, IommuPermissions, IommuState};
#[allow(unused_imports)]
use crate::memory::iommu::{iommu_of, MappingState};
use crate::Kernel;
#[allow(unused_imports)]
use crate::KernelState;

verus! {

broadcast use vstd::std_specs::btree::group_btree_axioms;

// ── ComputeRegion ────────────────────────────────────────────────────────────

/// Record kept per registered compute region.
pub struct ComputeRegion {
    phys_addr: u64,
    length: usize,
    capability: Capability,
    /// Active IOMMU mapping — released by [`release_compute_region`].
    mapping: IommuMapping,
}

/// A compute region: its address and length, the capability that it was mapped
/// with, and the mapping.
pub struct RegionState {
    pub phys_addr: u64,
    pub length: usize,
    pub capability: Capability,
    pub mapping: MappingState,
}

impl View for ComputeRegion {
    type V = RegionState;

    closed spec fn view(&self) -> RegionState {
        RegionState {
            phys_addr: self.phys_addr,
            length: self.length,
            capability: self.capability,
            mapping: self.mapping@,
        }
    }
}

impl ComputeRegion {
    /// Revoke the IOMMU mapping of the region and return its frame.
    fn release(self, slot: &mut Option<IommuState>, frames: &mut BumpAllocator)
        ensures
            iommu_of(*final(slot)) == iommu_of(*old(slot)).after_release(self@.mapping),
            *final(slot) is Some,
            final(frames)@ == old(frames)@.after_free(self@.mapping.frame),
    {
        // The frame is returned even where the IOMMU is not up and has nothing to
        // revoke.
        let _ = self.mapping.release(slot, frames);
    }
}

// ── Registry ─────────────────────────────────────────────────────────────────

/// The regions in a slot, by physical address; an empty slot holds none.
pub open spec fn regions_of(slot: Option<BTreeMap<u64, ComputeRegion>>) -> Map<u64, RegionState> {
    match slot {
        Some(regions) => regions@.map_values(|region: ComputeRegion| region@),
        None => Map::empty(),
    }
}

/// The regions in the slot, which is filled with an empty map when it is empty.
fn regions_lock(slot: &mut Option<BTreeMap<u64, ComputeRegion>>) -> (regions: &mut BTreeMap<
    u64,
    ComputeRegion,
>)
    ensures
        regions@.map_values(|region: ComputeRegion| region@) == regions_of(*old(slot)),
        *final(slot) == Some(*final(regions)),
{
    if slot.is_none() {
        *slot = Some(BTreeMap::new());
    }
    slot.as_mut().unwrap()
}

// ── Status codes (returned to Mojo) ──────────────────────────────────────────

/// Return codes used by all operations of this module.
#[derive(Debug, Clone, Copy, PartialEq, Eq, Structural)]
pub enum FfiStatus {
    /// Operation completed successfully.
    Success,
    /// A required argument was null, zero, or out of range.
    InvalidArgument,
    /// The physical frame allocator is exhausted.
    OutOfMemory,
    /// The capability token is missing, revoked, or has insufficient rights.
    CapabilityDenied,
    /// A region at this address is already registered.
    AlreadyRegistered,
    /// No region or capability with the given identifier was found.
    NotFound,
    /// The IOMMU hardware returned an error.
    IommuError,
}

impl FfiStatus {
    /// The number of this status on the C side.
    pub open spec fn number(self) -> int {
        match self {
            FfiStatus::Success => 0,
            FfiStatus::InvalidArgument => -1,
            FfiStatus::OutOfMemory => -2,
            FfiStatus::CapabilityDenied => -3,
            FfiStatus::AlreadyRegistered => -4,
            FfiStatus::NotFound => -5,
            FfiStatus::IommuError => -6,
        }
    }

    /// The number of this status on the C side.
    pub fn code(self) -> (code: i32)
        ensures
            code == self.number(),
    {
        match self {
            FfiStatus::Success => 0,
            FfiStatus::InvalidArgument => -1,
            FfiStatus::OutOfMemory => -2,
            FfiStatus::CapabilityDenied => -3,
            FfiStatus::AlreadyRegistered => -4,
            FfiStatus::NotFound => -5,
            FfiStatus::IommuError => -6,
        }
    }
}

// ── The operations, on the mathematical state ────────────────────────────────

/// The rights of the capability behind a compute region.
pub open spec fn region_rights() -> CapabilityRights {
    CapabilityRights::READ().union(CapabilityRights::WRITE()).union(CapabilityRights::DMA())
}

/// The rights of a compute capability.
pub open spec fn compute_rights() -> CapabilityRights {
    CapabilityRights::EXECUTE().union(CapabilityRights::READ())
}

/// What a device may do with a compute region.
pub open spec fn region_permissions() -> IommuPermissions {
    IommuPermissions::READ().union(IommuPermissions::WRITE())
}

/// The status that stands for a refusal of the IOMMU layer.
pub open spec fn status_of_refusal(error: IommuError) -> FfiStatus {
    match error {
        IommuError::AlreadyMapped => FfiStatus::AlreadyRegistered,
        IommuError::CapabilityMismatch => FfiStatus::CapabilityDenied,
        _ => FfiStatus::IommuError,
    }
}

/// Whether the arguments of a registration are in order: there is a place for the
/// address, and the length is that of a part of a page.
pub open spec fn registrable(has_out: bool, length: usize) -> bool {
    has_out && 0 < length <= PAGE_SIZE
}

impl KernelState {
    /// Why the frame at `addr` cannot be mapped with the capability that is issued for
    /// a registration; `None` if it can.
    pub open spec fn region_map_refusal(self, addr: u64) -> Option<IommuError> {
        self.iommu.map_refusal(
            self.capabilities.after_issue(CapabilityKind::DmaBuffer, region_rights()),
            addr,
            self.capabilities.next_capability(CapabilityKind::DmaBuffer, region_rights()),
        )
    }

    /// The answer to a registration whose arguments are in order.
    pub open spec fn register_status(self) -> FfiStatus {
        match self.frames.allocation() {
            None => FfiStatus::OutOfMemory,
            Some(addr) => match self.region_map_refusal(addr) {
                Some(error) => status_of_refusal(error),
                None => FfiStatus::Success,
            },
        }
    }

    /// The region that a registration makes in the frame at `addr`.
    pub open spec fn new_region(self, addr: u64, length: usize, device_id: u64) -> RegionState {
        RegionState {
            phys_addr: addr,
            length,
            capability: self.capabilities.next_capability(
                CapabilityKind::DmaBuffer,
                region_rights(),
            ),
            mapping: MappingState {
                phys_start: addr,
                length,
                permissions: region_permissions(),
                device_id,
                frame: addr,
            },
        }
    }

    /// The state after a registration whose arguments are in order. A capability is
    /// issued in any case; a frame that cannot be mapped goes back; a region that
    /// was on record under the same address is released.
    pub open spec fn after_register(self, length: usize, device_id: u64) -> KernelState {
        let issued = KernelState {
            capabilities: self.capabilities.after_issue(
                CapabilityKind::DmaBuffer,
                region_rights(),
            ),
            frames: self.frames.after_allocate(),
            ..self
        };
        match self.frames.allocation() {
            None => issued,
            Some(addr) => match self.region_map_refusal(addr) {
                Some(_) => KernelState { frames: issued.frames.after_free(addr), ..issued },
                None => {
                    let region = self.new_region(addr, length, device_id);
                    let mapped = KernelState {
                        iommu: self.iommu.after_map(region.mapping),
                        regions: self.regions.insert(addr, region),
                        ..issued
                    };
                    if self.regions.dom().contains(addr) {
                        mapped.after_region_release(self.regions[addr])
                    } else {
                        mapped
                    }
                },
            },
        }
    }

    /// The state once the mapping of a region that is off the record is released.
    pub open spec fn after_region_release(self, region: RegionState) -> KernelState {
        KernelState {
            iommu: self.iommu.after_release(region.mapping),
            frames: self.frames.after_free(region.mapping.frame),
            ..self
        }
    }

    /// The answer to a request to release the region at `phys_addr`.
    pub open spec fn release_status(self, phys_addr: u64) -> FfiStatus {
        if self.regions.dom().contains(phys_addr) {
            FfiStatus::Success
        } else {
            FfiStatus::NotFound
        }
    }

    /// The state after a request to release the region at `phys_addr`.
    pub open spec fn after_release(self, phys_addr: u64) -> KernelState {
        if self.regions.dom().contains(phys_addr) {
            KernelState { regions: self.regions.remove(phys_addr), ..self }.after_region_release(
                self.regions[phys_addr],
            )
        } else {
            self
        }
    }

    /// The answer to a data plane that presents a handle.
    pub open spec fn handle_status(self, cap_handle: u64) -> FfiStatus {
        if self.capabilities.validation(CapabilityId(cap_handle), CapabilityRights::EXECUTE()) is Ok {
            FfiStatus::Success
        } else {
            FfiStatus::CapabilityDenied
        }
    }
}

// ── register_compute_region ──────────────────────────────────────────────────

/// Allocate a kernel-managed, IOMMU-mapped shared memory region and register it
/// for use by the Mojo Data Plane.
///
/// - `length`       : size of the region in bytes (must be ≤ `PAGE_SIZE`).
/// - `device_id`    : the device (GPU / NPU) that will access the buffer.
/// - `out_phys_addr`: written with the physical address on success.
///
/// Returns `0` on success; negative error code otherwise.
pub fn register_compute_region(
    kernel: &mut Kernel,
    length: usize,
    device_id: u64,
    out_phys_addr: Option<&mut u64>,
) -> (code: i32)
    requires
        registrable(out_phys_addr is Some, length) ==> old(kernel)@.capabilities.has_free_id()
            && old(kernel)@.frames.search_in_range(),
    ensures
        if registrable(out_phys_addr is Some, length) {
            &&& code == old(kernel)@.register_status().number()
            &&& final(kernel)@ == old(kernel)@.after_register(length, device_id)
        } else {
            &&& code == FfiStatus::InvalidArgument.number()
            &&& *final(kernel) == *old(kernel)
        },
        out_phys_addr matches Some(out) ==> *final(out) == if code == 0 {
            old(kernel)@.frames.allocation()->0
        } else {
            *out
        },
        final(kernel).fabric == old(kernel).fabric,
        final(kernel).tvdp == old(kernel).tvdp,
{
    // ── Input validation ─────────────────────────────────────────────────────
    let out = match out_phys_addr {
        Some(out) => out,
        None => return FfiStatus::InvalidArgument.code(),
    };
    if length == 0 || length > PAGE_SIZE {
        return FfiStatus::InvalidArgument.code();
    }
    // ── Issue a DMA capability ───────────────────────────────────────────────

    let cap = capability::issue(
        &mut kernel.capabilities,
        CapabilityKind::DmaBuffer,
        CapabilityRights::READ() | CapabilityRights::WRITE() | CapabilityRights::DMA(),
    );

    // ── Allocate and pin a physical frame ────────────────────────────────────
    let pinned = match allocate_pinned_frame(&mut kernel.frames) {
        Some(p) => p,
        None => return FfiStatus::OutOfMemory.code(),
    };

    let phys_addr = pinned.phys_addr();

    // ── Map through the IOMMU ────────────────────────────────────────────────
    let mapping = match iommu::map(
        &mut kernel.iommu,
        &mut kernel.capabilities,
        pinned,
        length,
        IommuPermissions::READ() | IommuPermissions::WRITE(),
        device_id,
        &cap,
    ) {
        Ok(m) => m,
        Err((pinned, e)) => {
            pinned.unpin().release(&mut kernel.frames);
            return match e {
                IommuError::AlreadyMapped => FfiStatus::AlreadyRegistered.code(),
                IommuError::CapabilityMismatch => FfiStatus::CapabilityDenied.code(),
                _ => FfiStatus::IommuError.code(),
            };
        },
    };

    // ── Store in the registry ────────────────────────────────────────────────
    let regions = regions_lock(&mut kernel.regions);
    let replaced = regions.insert(
        phys_addr,
        ComputeRegion { phys_addr, length, capability: cap, mapping },
    );
    if let Some(region) = replaced {
        region.release(&mut kernel.iommu, &mut kernel.frames);
    }
    *out = phys_addr;

    FfiStatus::Success.code()
}

// ── issue_compute_capability ─────────────────────────────────────────────────

/// Issue a compute capability handle for the Mojo runtime to present when
/// scheduling work on a device.
///
/// - `_device_id`     : target accelerator node ID.
/// - `_flops_budget`  : FLOPS budget granted to this capability.
/// - `out_cap_handle` : written with the opaque capability handle on success.
///
/// Returns `0` on success; negative error code otherwise.
pub fn issue_compute_capability(
    kernel: &mut Kernel,
    _device_id: u64,
    _flops_budget: u64,
    out_cap_handle: Option<&mut u64>,
) -> (code: i32)
    requires
        out_cap_handle is Some ==> old(kernel)@.capabilities.has_free_id(),
    ensures
        match out_cap_handle {
            Some(out) => {
                &&& code == FfiStatus::Success.number()
                &&& *final(out) == old(kernel)@.capabilities.next_id
                &&& final(kernel)@ == old(kernel)@.with_capabilities(
                    old(kernel)@.capabilities.after_issue(
                        CapabilityKind::ComputeRegion,
                        compute_rights(),
                    ),
                )
                &&& final(kernel).capabilities is Some
            },
            None => {
                &&& code == FfiStatus::InvalidArgument.number()
                &&& *final(kernel) == *old(kernel)
            },
        },
{
    let out = match out_cap_handle {
        Some(out) => out,
        None => return FfiStatus::InvalidArgument.code(),
    };

    let cap = capability::issue(
        &mut kernel.capabilities,
        CapabilityKind::ComputeRegion,
        CapabilityRights::EXECUTE() | CapabilityRights::READ(),
    );

    *out = cap.id.0;

    FfiStatus::Success.code()
}

// ── validate_capability_handle ───────────────────────────────────────────────

/// Validate that `cap_handle` is still live and carries `EXECUTE` rights.
///
/// Called before a compute kernel is submitted, to confirm that the capability
/// hasn't been revoked since it was issued.
///
/// Returns `0` if valid; the number of [`FfiStatus::CapabilityDenied`] otherwise.
pub fn validate_capability_handle(kernel: &mut Kernel, cap_handle: u64) -> (code: i32)
    ensures
        code == old(kernel)@.handle_status(cap_handle).number(),
        final(kernel)@ == old(kernel)@,
        final(kernel).capabilities is Some,
{
    // A capability to validate: of it only the id counts, the rights are those in
    // the table.
    let cap = Capability {
        id: CapabilityId(cap_handle),
        kind: CapabilityKind::ComputeRegion,
        rights: CapabilityRights::EXECUTE(),
    };

    match capability::validate(&mut kernel.capabilities, &cap, CapabilityRights::EXECUTE()) {
        Ok(()) => FfiStatus::Success.code(),
        Err(_) => FfiStatus::CapabilityDenied.code(),
    }
}

// ── release_compute_region ───────────────────────────────────────────────────

/// Release a previously-registered compute region.
///
/// The IOMMU mapping is revoked; the underlying physical frame is returned to the
/// allocator. No DMA transfer may be in flight to this region.
///
/// Returns `0` on success; the number of [`FfiStatus::NotFound`] if there is no
/// region at `phys_addr`.
pub fn release_compute_region(kernel: &mut Kernel, phys_addr: u64) -> (code: i32)
    ensures
        code == old(kernel)@.release_status(phys_addr).number(),
        final(kernel)@ == old(kernel)@.after_release(phys_addr),
        final(kernel).regions is Some,
        code != 0 ==> final(kernel).frames == old(kernel).frames && final(kernel).iommu == old(
            kernel,
        ).iommu,
{
    let regions = regions_lock(&mut kernel.regions);
    match regions.remove(&phys_addr) {
        Some(region) => {
            region.release(&mut kernel.iommu, &mut kernel.frames);
            FfiStatus::Success.code()
        },
        None => FfiStatus::NotFound.code(),
    }
}

} // verus!
