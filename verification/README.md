# cyberkernel

The control plane of the CyberCore microkernel, written in Rust and verified with
Verus.

| Module | What it holds |
|---|---|
| `memory::allocator` | bump allocator for 4 KiB frames with a free list; pinned frames |
| `memory::iommu` | IOMMU mappings, and the commands for the platform's hardware |
| `capability` | the capability table; `AuthorizedDmaBuffer`, `ComputeCapability` |
| `fabric` | the registry of fabric endpoints |
| `tvdp` | the Trust-Verify Data Path: session check, replay guard, proof stamp |
| `ffi` | the operations of the data plane: compute regions and handles |
| `collections` | the `hashbrown` tables behind the subsystems |
| crate root | `Kernel`, which puts the subsystems together, and its `init` |

Every function has a contract over a mathematical state (`FrameState`,
`IommuTable`, `TableState`, `FabricTable`, `TvdpTable`, `KernelState`). What holds
over any course of events is stated and proved as proof functions named `law_…`:

- `memory::laws`: no frame is in use twice, frames come from usable memory only, and
  an allocation fails only when no frame is left, also after regions were added.
- `memory::isolation`: a device reaches exactly the memory that is mapped for it, and
  only a live capability of the right kind maps memory.
- `capability::laws`: ids are never issued twice, kinds and rights never change, a
  token cannot be forged, and a revoked capability stays revoked.
- `fabric`, `tvdp`: a lookup returns what was registered; no nonce is accepted twice.
- `laws`: frames, mappings and regions agree at boot, and each operation keeps it so.
- `machine`: from the first moment on and through every course of operations, a device
  reaches exactly what the mappings in place for it cover, as long as a mapping is
  released as it was made. Where frames in use are mapped and given back, mappings
  cover at most their frame and added memory overlaps nothing, frames, mappings and
  regions agree throughout, and devices stay within frames in use.

The proofs rest on the contracts in `collections`, which describe `hashbrown`'s maps
and sets.

`app/` is the running kernel around the library: the global lock, handles that give
their resource back when dropped, the IOMMU driver and the C ABI.
