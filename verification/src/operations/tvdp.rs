//! What the operations of the verified data path do.
use vstd::prelude::*;

#[allow(unused_imports)]
use crate::capability::{table_of, Capability, CapabilityError, CapabilityKind, CapabilityTable};
#[allow(unused_imports)]
use crate::tvdp::{
    all_zero, init, tvdp_of, verify_transfer, DeviceIdentity, TvdpError, TvdpProof, TvdpState,
};

verus! {

/// At first the data path is down and has seen no nonce; initialising brings it up and
/// forgets none.
pub proof fn law_init_brings_the_path_up(
    slot: &mut Option<TvdpState>,
    fresh: TvdpState,
    nonce: u64,
)
    requires
        call_ensures(init, (slot,), ()),
        call_ensures(TvdpState::new, (), fresh),
    ensures
        !fresh@.initialised,
        !fresh@.seen_nonces.contains(nonce),
        !tvdp_of(None).initialised,
        !tvdp_of(None).seen_nonces.contains(nonce),
        tvdp_of(Some(fresh)) == fresh@,
        tvdp_of(*final(slot)).initialised,
        tvdp_of(*final(slot)).seen_nonces.contains(nonce) <==> tvdp_of(
            *old(slot),
        ).seen_nonces.contains(nonce),
{
}

/// A transfer is accepted exactly if its token shows a session and is live, and was
/// issued as a session with the right to read (bit 0); the path is up; the certificate
/// and the HMAC each have a byte that is not zero; and the nonce is new. The proof then
/// carries the token, the address, the length and the nonce that were handed in, and
/// just that nonce is recorded. Otherwise the first reason that applies comes back, and
/// no nonce is recorded. The capability table never changes.
pub proof fn law_transfer_is_verified(
    slot: &mut Option<TvdpState>,
    capabilities: &mut Option<CapabilityTable>,
    identity: &DeviceIdentity,
    phys_addr: u64,
    length: usize,
    hmac: &[u8; 32],
    capability: Capability,
    r: Result<TvdpProof, TvdpError>,
    other: u64,
)
    requires
        call_ensures(
            verify_transfer,
            (slot, capabilities, identity, phys_addr, length, hmac, capability),
            r,
        ),
    ensures
        ({
            let before = tvdp_of(*old(slot));
            let after = tvdp_of(*final(slot));
            let table = table_of(*old(capabilities));
            let id = capability.id.0;
            let issued = 0 < id && id < table.next_id;
            let live = table.entries.dom().contains(id);
            let record = table.entries[id];
            let session = {
                &&& capability.kind == CapabilityKind::TvdpSession
                &&& issued
                &&& live
                &&& record.kind == CapabilityKind::TvdpSession
                &&& record.rights.bits & 1 != 0
            };
            let certified = exists|i: int| 0 <= i < 32 && #[trigger] identity.cert_bytes@[i] != 0;
            let signed = exists|i: int| 0 <= i < 32 && #[trigger] hmac@[i] != 0;
            let replayed = before.seen_nonces.contains(identity.nonce);
            &&& table_of(*final(capabilities)) == table
            &&& after.initialised == before.initialised
            &&& after.seen_nonces.contains(other) <==> before.seen_nonces.contains(other) || (r is Ok
                && other == identity.nonce)
            &&& r is Ok <==> session && before.initialised && certified && !replayed && signed
            &&& r is Ok ==> {
                &&& r->Ok_0.capability == capability
                &&& r->Ok_0.phys_addr == phys_addr
                &&& r->Ok_0.length == length
                &&& r->Ok_0.nonce == identity.nonce
            }
            &&& r is Err ==> {
                &&& r->Err_0 is CapabilityError <==> !session
                &&& r->Err_0 == TvdpError::NotInitialised <==> session && !before.initialised
                &&& r->Err_0 == TvdpError::InvalidIdentity <==> session && before.initialised
                    && !certified
                &&& r->Err_0 == TvdpError::NonceReplay <==> session && before.initialised
                    && certified && replayed
                &&& r->Err_0 == TvdpError::SignatureInvalid <==> session && before.initialised
                    && certified && !replayed && !signed
                &&& r->Err_0 == TvdpError::CapabilityError(CapabilityError::Revoked)
                    <==> capability.kind == CapabilityKind::TvdpSession && issued && !live
                &&& r->Err_0 == TvdpError::CapabilityError(CapabilityError::NotFound)
                    <==> capability.kind == CapabilityKind::TvdpSession && !issued && !(live
                    && record.kind != CapabilityKind::TvdpSession)
                &&& r->Err_0 == TvdpError::CapabilityError(CapabilityError::InsufficientRights)
                    <==> capability.kind != CapabilityKind::TvdpSession || (live && (record.kind
                    != CapabilityKind::TvdpSession || (issued && record.rights.bits & 1 == 0)))
            }
        }),
{
    let x = table_of(*old(capabilities)).entries[capability.id.0].rights.bits;
    assert((x & 1 == 1) <==> (x & 1 != 0)) by (bit_vector);
    lemma_all_zero(identity.cert_bytes@);
    lemma_all_zero(hmac@);
}

proof fn lemma_all_zero(bytes: Seq<u8>)
    requires
        bytes.len() == 32,
    ensures
        !all_zero(bytes) <==> exists|i: int| 0 <= i < 32 && #[trigger] bytes[i] != 0,
{
}

/// A copy of an identity is the same identity, and an error of the capability table is
/// handed on as it is.
pub proof fn law_identity_and_errors_are_kept(
    identity: DeviceIdentity,
    copy: DeviceIdentity,
    error: CapabilityError,
    converted: TvdpError,
)
    requires
        call_ensures(DeviceIdentity::clone, (&identity,), copy),
        call_ensures(<TvdpError as From<CapabilityError>>::from, (error,), converted),
    ensures
        copy.cert_bytes == identity.cert_bytes,
        copy.nonce == identity.nonce,
        converted == TvdpError::CapabilityError(error),
{
}

} // verus!
