//! What each operation of the control plane is for: what it answers and what it
//! changes, in terms of its arguments and results and of the plain contents of the
//! subsystems' states. The laws speak of the operations themselves: they hold of
//! whatever a call of the operation can result in.
pub mod capability;
pub mod fabric;
pub mod ffi;
pub mod iommu;
pub mod memory;
pub mod tvdp;
