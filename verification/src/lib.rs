//! # CyberKernel — Control Plane
//!
//! The control plane of the CyberCore microkernel: physical memory and IOMMU
//! mappings, capabilities, fabric endpoints, the verified data path, and the
//! operations that the data plane calls.
//!
//! Every subsystem keeps its state in a value of its own, which its operations
//! take as an argument; [`Kernel`] puts them together. The contracts speak of
//! mathematical states ([`KernelState`] and its parts). The laws of a subsystem,
//! what holds of it over any course of events, stand next to it as proof
//! functions. What each operation does, in terms of its arguments and results, is
//! stated in [`operations`].
pub mod capability;
pub mod collections;
pub mod fabric;
pub mod ffi;
pub mod laws;
pub mod machine;
pub mod memory;
pub mod operations;
pub mod tvdp;

use std::collections::BTreeMap;

use vstd::prelude::*;

pub use capability::{Capability, CapabilityError};
pub use memory::iommu::{IommuError, IommuMapping};

use capability::CapabilityTable;
#[allow(unused_imports)]
use capability::{table_of, TableState};
use fabric::FabricState;
#[allow(unused_imports)]
use fabric::{fabric_of, FabricTable};
use ffi::ComputeRegion;
#[allow(unused_imports)]
use ffi::{regions_of, RegionState};
use memory::allocator::BumpAllocator;
#[allow(unused_imports)]
use memory::allocator::FrameState;
use memory::iommu::IommuState;
#[allow(unused_imports)]
use memory::iommu::{iommu_of, IommuTable};
use memory::MemoryMap;
#[allow(unused_imports)]
use memory::{usable_ranges, usable_ranges_end, MemoryRegion};
use tvdp::TvdpState;
#[allow(unused_imports)]
use tvdp::{tvdp_of, TvdpTable};

verus! {

/// The state of the whole control plane.
pub struct Kernel {
    /// The physical frame allocator.
    pub frames: BumpAllocator,
    /// The IOMMU layer.
    pub iommu: Option<IommuState>,
    /// The capability table.
    pub capabilities: Option<CapabilityTable>,
    /// The registry of fabric endpoints.
    pub fabric: Option<FabricState>,
    /// The verified data path.
    pub tvdp: Option<TvdpState>,
    /// The compute regions of the data plane, by physical address.
    pub regions: Option<BTreeMap<u64, ComputeRegion>>,
}

/// The mathematical state of the whole control plane.
#[verifier::ext_equal]
pub struct KernelState {
    pub frames: FrameState,
    pub iommu: IommuTable,
    pub capabilities: TableState,
    pub fabric: FabricTable,
    pub tvdp: TvdpTable,
    pub regions: Map<u64, RegionState>,
}

impl View for Kernel {
    type V = KernelState;

    open spec fn view(&self) -> KernelState {
        KernelState {
            frames: self.frames@,
            iommu: iommu_of(self.iommu),
            capabilities: table_of(self.capabilities),
            fabric: fabric_of(self.fabric),
            tvdp: tvdp_of(self.tvdp),
            regions: regions_of(self.regions),
        }
    }
}

impl KernelState {
    /// The state before anything happened.
    pub open spec fn fresh() -> KernelState {
        KernelState {
            frames: FrameState::empty(),
            iommu: IommuTable::fresh(),
            capabilities: TableState::fresh(),
            fabric: FabricTable::fresh(),
            tvdp: TvdpTable::fresh(),
            regions: Map::empty(),
        }
    }

    /// The kernel with its frame allocator in this state.
    pub open spec fn with_frames(self, frames: FrameState) -> KernelState {
        KernelState { frames, ..self }
    }

    /// The kernel with its IOMMU layer in this state.
    pub open spec fn with_iommu(self, iommu: IommuTable) -> KernelState {
        KernelState { iommu, ..self }
    }

    /// The kernel with its capability table in this state.
    pub open spec fn with_capabilities(self, capabilities: TableState) -> KernelState {
        KernelState { capabilities, ..self }
    }

    /// The state once every subsystem is up, with the usable memory of the map.
    pub open spec fn after_init(self, regions: Seq<MemoryRegion>) -> KernelState {
        KernelState {
            frames: self.frames.with_regions(usable_ranges(regions)),
            iommu: self.iommu.after_init(),
            fabric: self.fabric.after_init(),
            tvdp: self.tvdp.after_init(),
            ..self
        }
    }
}

impl Kernel {
    /// A kernel before its subsystems are initialised.
    pub fn new() -> (kernel: Self)
        ensures
            kernel@ == KernelState::fresh(),
    {
        Kernel {
            frames: BumpAllocator::empty(),
            iommu: None,
            capabilities: None,
            fabric: None,
            tvdp: None,
            regions: None,
        }
    }
}

/// Initialise all kernel subsystems in dependency order.
///
/// To be called once, from the boot context, before any other kernel API is used.
pub fn init(kernel: &mut Kernel, memory_map: &MemoryMap<'_>)
    requires
        usable_ranges_end(memory_map.regions@),
    ensures
        final(kernel)@ == old(kernel)@.after_init(memory_map.regions@),
        final(kernel).iommu is Some,
        final(kernel).capabilities is Some,
        final(kernel).fabric is Some,
        final(kernel).tvdp is Some,
{
    // 1. Physical memory allocator — must come first so later subsystems can
    //    allocate.
    memory::init(&mut kernel.frames, memory_map);

    // 2. IOMMU — must be up before any DMA-capable device is allowed to transfer.
    memory::iommu::init(&mut kernel.iommu);

    // 3. Capability table — depends on the allocator being ready.
    capability::init(&mut kernel.capabilities);

    // 4. CyberFabric network interface.
    fabric::init(&mut kernel.fabric);

    // 5. Trust-Verify Data Path.
    tvdp::init(&mut kernel.tvdp);
}

} // verus!
