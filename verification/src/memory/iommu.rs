//! # IOMMU Abstraction Layer
//!
//! The IOMMU restricts which physical memory a DMA-capable device (NIC, GPU,
//! NVMe …) may access. Mapping a frame takes a live capability that was issued as
//! `DmaBuffer` or `ComputeRegion`; this is verified before any hardware table
//! changes.
//!
//! This module decides and keeps the accounts. What the platform's hardware
//! (Intel VT-d, AMD-Vi, ARM SMMU) has to do is put into a queue of
//! [`HalCommand`]s, which the platform layer carries out in order while it still
//! holds the lock: see [`take_commands`].
//!
//! The state of a running kernel lives in a slot that is empty until the first
//! use; an empty slot stands for a fresh, uninitialised state: see [`iommu_of`].
use vstd::prelude::*;

use crate::capability::{vouches_for, Capability, CapabilityKind, CapabilityTable};
#[allow(unused_imports)]
use crate::capability::{table_of, TableState};
use crate::collections::DeviceMap;
#[allow(unused_imports)]
use crate::collections::devices_in;
use super::allocator::{BumpAllocator, PhysicallyPinned};

verus! {

// ── IommuPermissions ─────────────────────────────────────────────────────────

/// Permissions granted to the device for a given IOMMU mapping: a set of flags, one
/// bit each.
#[derive(Debug, Clone, Copy, PartialEq, Eq, Structural)]
pub struct IommuPermissions {
    /// The flags, as a bit pattern.
    pub bits: u8,
}

#[allow(non_snake_case)]
impl IommuPermissions {
    /// Device may read from the mapped physical range.
    #[verifier::allow_in_spec]
    pub fn READ() -> IommuPermissions
        returns
            (IommuPermissions { bits: 0b0000_0001 }),
    {
        IommuPermissions { bits: 0b0000_0001 }
    }

    /// Device may write to the mapped physical range.
    #[verifier::allow_in_spec]
    pub fn WRITE() -> IommuPermissions
        returns
            (IommuPermissions { bits: 0b0000_0010 }),
    {
        IommuPermissions { bits: 0b0000_0010 }
    }

    /// Device may execute from the mapped physical range (rare; GPU shaders).
    #[verifier::allow_in_spec]
    pub fn EXEC() -> IommuPermissions
        returns
            (IommuPermissions { bits: 0b0000_0100 }),
    {
        IommuPermissions { bits: 0b0000_0100 }
    }
}

impl IommuPermissions {
    /// Whether every flag of `other` is among these.
    pub open spec fn includes(self, other: IommuPermissions) -> bool {
        self.bits & other.bits == other.bits
    }

    /// The flags of both.
    pub open spec fn union(self, other: IommuPermissions) -> IommuPermissions {
        IommuPermissions { bits: self.bits | other.bits }
    }

    /// Whether every flag of `other` is among these.
    pub fn contains(&self, other: IommuPermissions) -> (r: bool)
        ensures
            r == self.includes(other),
    {
        self.bits & other.bits == other.bits
    }
}

impl core::ops::BitOr for IommuPermissions {
    type Output = IommuPermissions;

    /// The flags of both.
    fn bitor(self, rhs: IommuPermissions) -> (r: IommuPermissions) {
        IommuPermissions { bits: self.bits | rhs.bits }
    }
}

impl vstd::std_specs::ops::BitOrSpecImpl for IommuPermissions {
    open spec fn obeys_bitor_spec() -> bool {
        true
    }

    open spec fn bitor_req(self, rhs: IommuPermissions) -> bool {
        true
    }

    open spec fn bitor_spec(self, rhs: IommuPermissions) -> IommuPermissions {
        self.union(rhs)
    }
}

// ── IommuError ───────────────────────────────────────────────────────────────

/// Errors that can occur during IOMMU operations.
#[derive(Debug, PartialEq, Eq, Structural)]
pub enum IommuError {
    /// The IOMMU hardware is not present or failed to initialise.
    NotInitialised,
    /// The provided capability does not authorise DMA to this address range.
    CapabilityMismatch,
    /// The physical address range is already mapped (double-map attempt).
    AlreadyMapped,
    /// Hardware returned an error during page-table update.
    HardwareFault,
}

// ── HalCommand ───────────────────────────────────────────────────────────────

/// What the platform layer has to do to the hardware's tables.
#[derive(Debug, Clone, Copy, PartialEq, Eq, Structural)]
pub enum HalCommand {
    /// Allow `device_id` to access `[phys_start, phys_start + length)`.
    MapRange { device_id: u64, phys_start: u64, length: usize, permissions: IommuPermissions },
    /// Remove the mapping of `device_id` that covers
    /// `[phys_start, phys_start + length)`.
    UnmapRange { device_id: u64, phys_start: u64, length: usize },
}

// ── The IOMMU, as a mathematical state ───────────────────────────────────────

/// An active mapping: the fields of an [`IommuMapping`], and the address of the
/// pinned frame behind it.
pub struct MappingState {
    pub phys_start: u64,
    pub length: usize,
    pub permissions: IommuPermissions,
    pub device_id: u64,
    pub frame: u64,
}

/// The state of the IOMMU layer: whether it is up, which device has access at each
/// mapped address, and what the hardware was told to do since the platform layer
/// last looked.
#[verifier::ext_equal]
pub struct IommuTable {
    pub initialised: bool,
    pub active: Map<u64, u64>,
    pub commands: Seq<HalCommand>,
}

/// Whether a capability of this kind authorises DMA.
pub open spec fn authorises_dma(kind: CapabilityKind) -> bool {
    kind == CapabilityKind::DmaBuffer || kind == CapabilityKind::ComputeRegion
}

/// Whether the capability authorises a mapping: its kind does, and it is live and was
/// issued as one of that kind.
pub open spec fn authorises_mapping(table: TableState, capability: Capability) -> bool {
    authorises_dma(capability.kind) && table.vouches_for(capability)
}

impl IommuTable {
    /// The state before anything happened.
    pub open spec fn fresh() -> IommuTable {
        IommuTable { initialised: false, active: Map::empty(), commands: Seq::empty() }
    }

    /// The state once the layer is up.
    pub open spec fn after_init(self) -> IommuTable {
        IommuTable { initialised: true, ..self }
    }

    /// Why a frame at `phys_start` cannot be mapped for the holder of `capability`,
    /// with this capability table; `None` if it can. The capability is looked at
    /// first.
    pub open spec fn map_refusal(
        self,
        table: TableState,
        phys_start: u64,
        capability: Capability,
    ) -> Option<IommuError> {
        if !authorises_mapping(table, capability) {
            Some(IommuError::CapabilityMismatch)
        } else if !self.initialised {
            Some(IommuError::NotInitialised)
        } else if self.active.dom().contains(phys_start) {
            Some(IommuError::AlreadyMapped)
        } else {
            None
        }
    }

    /// The state once a mapping is in place.
    pub open spec fn after_map(self, mapping: MappingState) -> IommuTable {
        IommuTable {
            active: self.active.insert(mapping.phys_start, mapping.device_id),
            commands: self.commands.push(
                HalCommand::MapRange {
                    device_id: mapping.device_id,
                    phys_start: mapping.phys_start,
                    length: mapping.length,
                    permissions: mapping.permissions,
                },
            ),
            ..self
        }
    }

    /// The answer to a request to unmap.
    pub open spec fn unmap_result(self) -> Result<(), IommuError> {
        if self.initialised {
            Ok(())
        } else {
            Err(IommuError::NotInitialised)
        }
    }

    /// The state after a request to unmap.
    pub open spec fn after_unmap(self, device_id: u64, phys_start: u64, length: usize) -> IommuTable {
        if self.initialised {
            IommuTable {
                active: self.active.remove(phys_start),
                commands: self.commands.push(HalCommand::UnmapRange { device_id, phys_start, length }),
                ..self
            }
        } else {
            self
        }
    }

    /// The state once a mapping is released.
    pub open spec fn after_release(self, mapping: MappingState) -> IommuTable {
        self.after_unmap(mapping.device_id, mapping.phys_start, mapping.length)
    }

    /// The state once the platform layer has taken the commands.
    pub open spec fn after_commands_taken(self) -> IommuTable {
        IommuTable { commands: Seq::empty(), ..self }
    }
}

/// The state in a slot; an empty slot stands for a fresh state.
pub open spec fn iommu_of(slot: Option<IommuState>) -> IommuTable {
    match slot {
        Some(state) => state@,
        None => IommuTable::fresh(),
    }
}

// ── IommuMapping ─────────────────────────────────────────────────────────────

/// An active IOMMU mapping.
///
/// While this value exists, the device identified by `device_id` can access
/// the physical memory region specified at construction time, subject to
/// [`IommuPermissions`]. [`IommuMapping::release`] revokes the device's access and
/// returns the frame.
#[derive(Debug)]
pub struct IommuMapping {
    /// Physical start address of the mapped region.
    pub phys_start: u64,
    /// Length of the mapped region in bytes.
    pub length: usize,
    /// Permissions granted to the device.
    pub permissions: IommuPermissions,
    /// Opaque device identifier (PCI BDF, SMMU stream ID, …).
    pub device_id: u64,
    /// The pinned frame backing this mapping (kept alive until unmap).
    pinned: PhysicallyPinned,
}

impl View for IommuMapping {
    type V = MappingState;

    closed spec fn view(&self) -> MappingState {
        MappingState {
            phys_start: self.phys_start,
            length: self.length,
            permissions: self.permissions,
            device_id: self.device_id,
            frame: self.pinned.addr(),
        }
    }
}

impl IommuMapping {
    /// Physical start address of the mapped region.
    pub fn phys_start(&self) -> (phys_start: u64)
        ensures
            phys_start == self@.phys_start,
    {
        self.phys_start
    }

    /// Length of the mapped region in bytes.
    pub fn length(&self) -> (length: usize)
        ensures
            length == self@.length,
    {
        self.length
    }

    /// Permissions granted to the device.
    pub fn permissions(&self) -> (permissions: IommuPermissions)
        ensures
            permissions == self@.permissions,
    {
        self.permissions
    }

    /// Opaque device identifier (PCI BDF, SMMU stream ID, …).
    pub fn device_id(&self) -> (device_id: u64)
        ensures
            device_id == self@.device_id,
    {
        self.device_id
    }

    /// Revoke the device's access, then un-pin the frame and return it to the
    /// allocator.
    ///
    /// # Errors
    /// Returns [`IommuError::NotInitialised`] if the IOMMU is not up; the frame is
    /// returned all the same.
    pub fn release(self, slot: &mut Option<IommuState>, frames: &mut BumpAllocator) -> (r: Result<
        (),
        IommuError,
    >)
        ensures
            r == iommu_of(*old(slot)).unmap_result(),
            iommu_of(*final(slot)) == iommu_of(*old(slot)).after_release(self@),
            *final(slot) is Some,
            final(frames)@ == old(frames)@.after_free(self@.frame),
    {
        let r = unmap_internal(slot, self.device_id, self.phys_start, self.length);
        self.pinned.unpin().release(frames);
        r
    }
}

// ── IOMMU state ──────────────────────────────────────────────────────────────

/// The accounts of the IOMMU layer.
pub struct IommuState {
    /// Whether the IOMMU is up.
    pub initialised: bool,
    /// Active mappings: phys_start → device_id.
    active_mappings: DeviceMap,
    /// What the platform layer has to carry out, the oldest first.
    commands: Vec<HalCommand>,
}

impl View for IommuState {
    type V = IommuTable;

    closed spec fn view(&self) -> IommuTable {
        IommuTable {
            initialised: self.initialised,
            active: devices_in(self.active_mappings),
            commands: self.commands@,
        }
    }
}

impl IommuState {
    /// The state before anything happened.
    pub fn new() -> (state: Self)
        ensures
            state@ == IommuTable::fresh(),
    {
        IommuState { initialised: false, active_mappings: DeviceMap::new(), commands: Vec::new() }
    }

    /// Whether the IOMMU is up.
    pub fn initialised(&self) -> (initialised: bool)
        ensures
            initialised == self@.initialised,
    {
        self.initialised
    }

    /// Whether no mapping is active.
    pub fn no_active_mappings(&self) -> (r: bool)
        ensures
            r == (self@.active.dom() == Set::<u64>::empty()),
    {
        self.active_mappings.is_empty()
    }
}

/// The state in the slot, which is filled with a fresh one when it is empty.
pub(crate) fn iommu_lock(slot: &mut Option<IommuState>) -> (state: &mut IommuState)
    ensures
        state@ == iommu_of(*old(slot)),
        *final(slot) == Some(*final(state)),
{
    if slot.is_none() {
        *slot = Some(IommuState::new());
    }
    slot.as_mut().unwrap()
}

// ── Public API ───────────────────────────────────────────────────────────────

/// Initialise the IOMMU subsystem.
pub fn init(slot: &mut Option<IommuState>)
    ensures
        iommu_of(*final(slot)) == iommu_of(*old(slot)).after_init(),
        *final(slot) is Some,
{
    let state = iommu_lock(slot);
    state.initialised = true;
}

/// Map a pinned physical frame for DMA access by `device_id`.
///
/// # Arguments
/// - `pinned` — The physical frame to expose. Ownership is transferred into
///   the returned [`IommuMapping`].
/// - `length` — How many bytes of the frame to expose (≤ 4 KiB for a single
///   frame).
/// - `permissions` — Read/write/execute permissions for the device.
/// - `device_id` — Opaque device identifier (e.g., PCI BDF encoded as `u64`).
/// - `capability` — A kernel capability token that authorises this mapping.
///
/// # Errors
/// Returns the frame and an [`IommuError`] if the capability is invalid (its kind
/// does not authorise DMA, it is not live, or it was issued as one of another kind),
/// if the IOMMU is not initialised, or if the frame is mapped already.
pub fn map(
    slot: &mut Option<IommuState>,
    capabilities: &mut Option<CapabilityTable>,
    pinned: PhysicallyPinned,
    length: usize,
    permissions: IommuPermissions,
    device_id: u64,
    capability: &Capability,
) -> (r: Result<IommuMapping, (PhysicallyPinned, IommuError)>)
    ensures
        match iommu_of(*old(slot)).map_refusal(
            table_of(*old(capabilities)),
            pinned.addr(),
            *capability,
        ) {
            Some(error) => r == Err::<IommuMapping, _>((pinned, error)) && iommu_of(*final(slot))
                == iommu_of(*old(slot)),
            None => r matches Ok(mapping) && mapping@ == (MappingState {
                phys_start: pinned.addr(),
                length,
                permissions,
                device_id,
                frame: pinned.addr(),
            }) && iommu_of(*final(slot)) == iommu_of(*old(slot)).after_map(mapping@),
        },
        if authorises_mapping(table_of(*old(capabilities)), *capability) {
            *final(slot) is Some
        } else {
            *final(slot) == *old(slot)
        },
        table_of(*final(capabilities)) == table_of(*old(capabilities)),
        if authorises_dma(capability.kind) {
            *final(capabilities) is Some
        } else {
            *final(capabilities) == *old(capabilities)
        },
{
    // ── 1. Verify the capability authorises DMA access. ──────────────────────
    match capability.kind {
        CapabilityKind::DmaBuffer | CapabilityKind::ComputeRegion => {},
        _ => return Err((pinned, IommuError::CapabilityMismatch)),
    }
    if !vouches_for(capabilities, capability) {
        return Err((pinned, IommuError::CapabilityMismatch));
    }

    let state = iommu_lock(slot);

    // ── 2. Check the IOMMU is ready. ─────────────────────────────────────────
    if !state.initialised {
        return Err((pinned, IommuError::NotInitialised));
    }
    let phys_start = pinned.phys_addr();

    // ── 3. Detect double-map attempts. ───────────────────────────────────────
    if state.active_mappings.contains_key(phys_start) {
        return Err((pinned, IommuError::AlreadyMapped));
    }

    // ── 4. Have the hardware page table programmed, and record the mapping. ──
    state.commands.push(HalCommand::MapRange { device_id, phys_start, length, permissions });
    state.active_mappings.insert(phys_start, device_id);

    Ok(IommuMapping { phys_start, length, permissions, device_id, pinned })
}

/// Hand the queued commands to the platform layer, the oldest first, and empty the
/// queue.
pub fn take_commands(slot: &mut Option<IommuState>) -> (commands: Vec<HalCommand>)
    ensures
        commands@ == iommu_of(*old(slot)).commands,
        iommu_of(*final(slot)) == iommu_of(*old(slot)).after_commands_taken(),
        *final(slot) is Some,
{
    let state = iommu_lock(slot);
    let mut commands: Vec<HalCommand> = Vec::new();
    core::mem::swap(&mut commands, &mut state.commands);
    commands
}

// ── Internal helpers ─────────────────────────────────────────────────────────

/// Revoke the access of `device_id` to `[phys_start, phys_start + length)`.
fn unmap_internal(
    slot: &mut Option<IommuState>,
    device_id: u64,
    phys_start: u64,
    length: usize,
) -> (r: Result<(), IommuError>)
    ensures
        r == iommu_of(*old(slot)).unmap_result(),
        iommu_of(*final(slot)) == iommu_of(*old(slot)).after_unmap(device_id, phys_start, length),
        *final(slot) is Some,
{
    let state = iommu_lock(slot);
    if !state.initialised {
        return Err(IommuError::NotInitialised);
    }
    state.active_mappings.remove(phys_start);
    state.commands.push(HalCommand::UnmapRange { device_id, phys_start, length });
    Ok(())
}

} // verus!
