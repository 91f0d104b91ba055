//! # High-level capability wrappers (type-state pattern)
//!
//! A value of one of these types is evidence that a capability was checked:
//!
//! ```text
//!  allocate_pinned_frame()
//!       │
//!       ▼
//!  AuthorizedDmaBuffer::new(frame, cap)   ← requires DmaBuffer capability
//!       │
//!       ▼
//!  &AuthorizedDmaBuffer → phys_addr, len  ← safe to pass to hardware
//!       │
//!       ▼
//!  release                                ← frame returned
//! ```
//!
//! Without a valid [`Capability`] of kind `DmaBuffer`, an `AuthorizedDmaBuffer`
//! cannot be constructed.
use vstd::prelude::*;

use super::{authorise, Capability, CapabilityError, CapabilityKind, CapabilityRights, CapabilityTable};
#[allow(unused_imports)]
use super::{table_of, TableState};
use crate::memory::allocator::{BumpAllocator, PhysicallyPinned};

verus! {

// ── AuthorizedDmaBuffer ──────────────────────────────────────────────────────

/// A physically-pinned memory buffer that has been **authorised** for DMA use.
///
/// Construction requires a [`Capability`] of kind [`CapabilityKind::DmaBuffer`]
/// with at least the `DMA` right, so no unauthenticated buffer can reach the
/// hardware DMA path. [`AuthorizedDmaBuffer::release`] returns the pinned frame to
/// the allocator.
pub struct AuthorizedDmaBuffer {
    /// The capability that authorises this buffer.
    pub capability: Capability,
    /// The underlying pinned physical frame.
    pinned: PhysicallyPinned,
    /// Length of the accessible region in bytes.
    pub length: usize,
}

/// An authorised buffer: the capability and the length that an
/// [`AuthorizedDmaBuffer`] shows, and the address of the frame behind it.
pub struct DmaBufferState {
    pub capability: Capability,
    pub frame: u64,
    pub length: usize,
}

impl View for AuthorizedDmaBuffer {
    type V = DmaBufferState;

    closed spec fn view(&self) -> DmaBufferState {
        DmaBufferState {
            capability: self.capability,
            frame: self.pinned.addr(),
            length: self.length,
        }
    }
}

impl AuthorizedDmaBuffer {
    /// Construct an `AuthorizedDmaBuffer` from a pinned frame and a capability.
    ///
    /// # Errors
    /// Returns the frame and [`CapabilityError::InsufficientRights`] if `cap` is of
    /// another kind, was issued as one of another kind, or does not carry the `DMA`
    /// right; [`CapabilityError::Revoked`] if the capability has been invalidated;
    /// [`CapabilityError::NotFound`] if it was never issued.
    pub fn new(
        slot: &mut Option<CapabilityTable>,
        pinned: PhysicallyPinned,
        length: usize,
        cap: Capability,
    ) -> (r: Result<Self, (PhysicallyPinned, CapabilityError)>)
        ensures
            match table_of(*old(slot)).refusal(
                cap,
                CapabilityKind::DmaBuffer,
                CapabilityRights::DMA(),
            ) {
                Some(error) => r == Err::<AuthorizedDmaBuffer, _>((pinned, error)),
                None => r matches Ok(buffer) && buffer@ == (DmaBufferState {
                    capability: cap,
                    frame: pinned.addr(),
                    length,
                }),
            },
            table_of(*final(slot)) == table_of(*old(slot)),
            if cap.kind == CapabilityKind::DmaBuffer {
                *final(slot) is Some
            } else {
                *final(slot) == *old(slot)
            },
    {
        // Verify kind and rights via the capability table.
        if let Err(e) = authorise(slot, &cap, CapabilityKind::DmaBuffer, CapabilityRights::DMA()) {
            return Err((pinned, e));
        }
        Ok(AuthorizedDmaBuffer { capability: cap, pinned, length })
    }

    /// Return the physical address of this buffer.
    ///
    /// The address is only valid as long as the buffer is not released.
    pub fn phys_addr(&self) -> (addr: u64)
        ensures
            addr == self@.frame,
    {
        self.pinned.phys_addr()
    }

    /// The capability that authorises this buffer.
    pub fn capability(&self) -> (capability: &Capability)
        ensures
            *capability == self@.capability,
    {
        &self.capability
    }

    /// Length of the accessible region in bytes.
    pub fn length(&self) -> (length: usize)
        ensures
            length == self@.length,
    {
        self.length
    }

    /// Un-pin the frame and return it to the allocator.
    pub fn release(self, frames: &mut BumpAllocator)
        ensures
            final(frames)@ == old(frames)@.after_free(self@.frame),
    {
        self.pinned.unpin().release(frames);
    }
}

// ── ComputeCapability ────────────────────────────────────────────────────────

/// A capability that grants the Mojo Data Plane permission to schedule compute
/// work on a specific GPU / NPU / heterogeneous execution unit.
///
/// It is passed to the Mojo runtime as an opaque `u64` handle.
#[derive(Debug)]
pub struct ComputeCapability {
    /// The underlying kernel capability token.
    pub capability: Capability,
    /// Opaque device identifier (matches the fabric topology node ID).
    pub device_id: u64,
    /// Maximum FLOPS budget the holder is allowed to consume.
    pub flops_budget: u64,
}

impl Clone for ComputeCapability {
    fn clone(&self) -> (r: Self)
        ensures
            r == *self,
    {
        ComputeCapability {
            capability: self.capability.clone(),
            device_id: self.device_id,
            flops_budget: self.flops_budget,
        }
    }
}

impl ComputeCapability {
    /// Construct a `ComputeCapability`.
    ///
    /// # Errors
    /// Returns [`CapabilityError`] if `cap` is not live, was not issued as one of kind
    /// `ComputeRegion`, or does not carry `EXECUTE` rights.
    pub fn new(
        slot: &mut Option<CapabilityTable>,
        cap: Capability,
        device_id: u64,
        flops_budget: u64,
    ) -> (r: Result<Self, CapabilityError>)
        ensures
            r == match table_of(*old(slot)).refusal(
                cap,
                CapabilityKind::ComputeRegion,
                CapabilityRights::EXECUTE(),
            ) {
                Some(error) => Err(error),
                None => Ok(ComputeCapability { capability: cap, device_id, flops_budget }),
            },
            table_of(*final(slot)) == table_of(*old(slot)),
            if cap.kind == CapabilityKind::ComputeRegion {
                *final(slot) is Some
            } else {
                *final(slot) == *old(slot)
            },
    {
        match authorise(slot, &cap, CapabilityKind::ComputeRegion, CapabilityRights::EXECUTE()) {
            Ok(()) => {},
            Err(e) => return Err(e),
        }
        Ok(ComputeCapability { capability: cap, device_id, flops_budget })
    }

    /// Return the capability ID as a raw `u64` handle for use across the FFI.
    ///
    /// The Mojo runtime stores this handle and presents it back when submitting
    /// compute work. The kernel validates the handle on every submission.
    pub fn as_raw_handle(&self) -> (handle: u64)
        ensures
            handle == self.capability.id.0,
    {
        self.capability.id.0
    }
}

} // verus!
