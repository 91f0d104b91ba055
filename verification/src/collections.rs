//! The hash tables of the kernel subsystems.
//!
//! Each table is a `hashbrown` collection keyed by a `u64`: a capability id, a
//! fabric node id, a physical address or a nonce. `hashbrown`'s types carry an
//! allocator parameter whose trait the crate does not export, so each table is
//! held in a private field, and a specification function names what it holds.
//! The contracts below are the only facts the proofs use about `hashbrown`;
//! they say what its documentation promises for keys whose `Hash` and `Eq` agree,
//! as those of `u64` do. A table that outgrows memory stops the program, as any
//! failed allocation does; no contract speaks of that.
use vstd::prelude::*;

use crate::capability::Capability;
use crate::fabric::FabricEndpoint;

verus! {

// ── Physical address → device ────────────────────────────────────────────────

/// The devices with access to memory, by the physical address of the mapping.
#[verifier::external_body]
pub struct DeviceMap {
    inner: hashbrown::HashMap<u64, u64>,
}

/// What a [`DeviceMap`] holds: the device id at each mapped physical address.
pub uninterp spec fn devices_in(map: DeviceMap) -> Map<u64, u64>;

impl DeviceMap {
    /// `hashbrown::HashMap::new`: the new table holds nothing.
    #[verifier::external_body]
    pub(crate) fn new() -> (r: DeviceMap)
        ensures
            devices_in(r).dom() == Set::<u64>::empty(),
    {
        DeviceMap { inner: hashbrown::HashMap::new() }
    }

    /// `hashbrown::HashMap::is_empty`: whether the table holds nothing.
    #[verifier::external_body]
    pub(crate) fn is_empty(&self) -> (r: bool)
        ensures
            r == (devices_in(*self).dom() == Set::<u64>::empty()),
    {
        self.inner.is_empty()
    }

    /// `hashbrown::HashMap::contains_key`: whether the table holds an entry for
    /// `phys_start`.
    #[verifier::external_body]
    pub(crate) fn contains_key(&self, phys_start: u64) -> (r: bool)
        ensures
            r == devices_in(*self).dom().contains(phys_start),
    {
        self.inner.contains_key(&phys_start)
    }

    /// `hashbrown::HashMap::insert`: the entry for `phys_start` becomes
    /// `device_id`, every other entry stays, and the entry that was there before,
    /// if any, comes back.
    #[verifier::external_body]
    pub(crate) fn insert(&mut self, phys_start: u64, device_id: u64) -> (r: Option<u64>)
        ensures
            devices_in(*final(self)) == devices_in(*old(self)).insert(phys_start, device_id),
            r == devices_in(*old(self)).get(phys_start),
    {
        self.inner.insert(phys_start, device_id)
    }

    /// `hashbrown::HashMap::remove`: the entry for `phys_start` leaves the table
    /// and comes back, if there was one; every other entry stays.
    #[verifier::external_body]
    pub(crate) fn remove(&mut self, phys_start: u64) -> (r: Option<u64>)
        ensures
            devices_in(*final(self)) == devices_in(*old(self)).remove(phys_start),
            r == devices_in(*old(self)).get(phys_start),
    {
        self.inner.remove(&phys_start)
    }
}

// ── Capability id → capability ───────────────────────────────────────────────

/// The live capabilities, by the number of their id.
#[verifier::external_body]
pub struct CapabilityMap {
    inner: hashbrown::HashMap<u64, Capability>,
}

/// What a [`CapabilityMap`] holds: the capability recorded under each id.
pub uninterp spec fn capabilities_in(map: CapabilityMap) -> Map<u64, Capability>;

impl CapabilityMap {
    /// `hashbrown::HashMap::new`: the new table holds nothing.
    #[verifier::external_body]
    pub(crate) fn new() -> (r: CapabilityMap)
        ensures
            capabilities_in(r).dom() == Set::<u64>::empty(),
    {
        CapabilityMap { inner: hashbrown::HashMap::new() }
    }

    /// `hashbrown::HashMap::get`: the capability recorded under `id`, if any.
    #[verifier::external_body]
    pub(crate) fn get(&self, id: u64) -> (r: Option<&Capability>)
        ensures
            r is Some <==> capabilities_in(*self).dom().contains(id),
            r matches Some(cap) ==> *cap == capabilities_in(*self)[id],
    {
        self.inner.get(&id)
    }

    /// `hashbrown::HashMap::insert`: the entry for `id` becomes `cap`, every other
    /// entry stays, and the entry that was there before, if any, comes back.
    #[verifier::external_body]
    pub(crate) fn insert(&mut self, id: u64, cap: Capability) -> (r: Option<Capability>)
        ensures
            capabilities_in(*final(self)) == capabilities_in(*old(self)).insert(id, cap),
            r == capabilities_in(*old(self)).get(id),
    {
        self.inner.insert(id, cap)
    }

    /// `hashbrown::HashMap::remove`: the entry for `id` leaves the table and comes
    /// back, if there was one; every other entry stays.
    #[verifier::external_body]
    pub(crate) fn remove(&mut self, id: u64) -> (r: Option<Capability>)
        ensures
            capabilities_in(*final(self)) == capabilities_in(*old(self)).remove(id),
            r == capabilities_in(*old(self)).get(id),
    {
        self.inner.remove(&id)
    }
}

// ── Node id → fabric endpoint ────────────────────────────────────────────────

/// The registered fabric endpoints, by the number of their node id.
#[verifier::external_body]
pub struct EndpointMap {
    inner: hashbrown::HashMap<u64, FabricEndpoint>,
}

/// What an [`EndpointMap`] holds: the endpoint registered for each node.
pub uninterp spec fn endpoints_in(map: EndpointMap) -> Map<u64, FabricEndpoint>;

impl EndpointMap {
    /// `hashbrown::HashMap::new`: the new table holds nothing.
    #[verifier::external_body]
    pub(crate) fn new() -> (r: EndpointMap)
        ensures
            endpoints_in(r).dom() == Set::<u64>::empty(),
    {
        EndpointMap { inner: hashbrown::HashMap::new() }
    }

    /// `hashbrown::HashMap::contains_key`: whether the table holds an entry for
    /// `node`.
    #[verifier::external_body]
    pub(crate) fn contains_key(&self, node: u64) -> (r: bool)
        ensures
            r == endpoints_in(*self).dom().contains(node),
    {
        self.inner.contains_key(&node)
    }

    /// `hashbrown::HashMap::get`: the endpoint registered for `node`, if any.
    #[verifier::external_body]
    pub(crate) fn get(&self, node: u64) -> (r: Option<&FabricEndpoint>)
        ensures
            r is Some <==> endpoints_in(*self).dom().contains(node),
            r matches Some(endpoint) ==> *endpoint == endpoints_in(*self)[node],
    {
        self.inner.get(&node)
    }

    /// `hashbrown::HashMap::insert`: the entry for `node` becomes `endpoint`, every
    /// other entry stays, and the entry that was there before, if any, comes back.
    #[verifier::external_body]
    pub(crate) fn insert(&mut self, node: u64, endpoint: FabricEndpoint) -> (r: Option<
        FabricEndpoint,
    >)
        ensures
            endpoints_in(*final(self)) == endpoints_in(*old(self)).insert(node, endpoint),
            r == endpoints_in(*old(self)).get(node),
    {
        self.inner.insert(node, endpoint)
    }
}

// ── Nonces ───────────────────────────────────────────────────────────────────

/// The nonces of accepted transfers.
#[verifier::external_body]
pub struct NonceSet {
    inner: hashbrown::HashSet<u64>,
}

/// What a [`NonceSet`] holds: the nonces recorded so far.
pub uninterp spec fn nonces_in(set: NonceSet) -> Set<u64>;

impl NonceSet {
    /// `hashbrown::HashSet::new`: the new set holds nothing.
    #[verifier::external_body]
    pub(crate) fn new() -> (r: NonceSet)
        ensures
            nonces_in(r) == Set::<u64>::empty(),
    {
        NonceSet { inner: hashbrown::HashSet::new() }
    }

    /// `hashbrown::HashSet::contains`: whether the set holds `nonce`.
    #[verifier::external_body]
    pub(crate) fn contains(&self, nonce: u64) -> (r: bool)
        ensures
            r == nonces_in(*self).contains(nonce),
    {
        self.inner.contains(&nonce)
    }

    /// `hashbrown::HashSet::insert`: the set holds `nonce` besides what it held
    /// before, and the result says whether it is new.
    #[verifier::external_body]
    pub(crate) fn insert(&mut self, nonce: u64) -> (r: bool)
        ensures
            nonces_in(*final(self)) == nonces_in(*old(self)).insert(nonce),
            r == !nonces_in(*old(self)).contains(nonce),
    {
        self.inner.insert(nonce)
    }
}

} // verus!
