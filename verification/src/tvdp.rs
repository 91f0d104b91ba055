//! # Trust-Verify Data Path (TVDP)
//!
//! How do we know that data arriving from a remote node hasn't been tampered with,
//! and that the device sending it is who it claims to be?
//!
//! ```text
//!  Sender (GPU / SmartNIC / Storage)
//!    1. Compute HMAC over data + nonce
//!    2. Attach proof to DMA descriptor
//!                         │  Zero-copy DMA (RDMA)
//!  Receiver               ▼
//!    3. Verify the session's capability and the device's identity
//!    4. Check nonce freshness (replay guard)
//!    5. Verify the HMAC
//!    6. Stamp `TvdpProof` onto data buffer
//! ```
//!
//! The cryptographic checks are placeholders: a certificate and an HMAC count as
//! valid when they are not all zero.
//!
//! The state of a running kernel lives in a slot that is empty until the first
//! use; an empty slot stands for a fresh, uninitialised state: see [`tvdp_of`].
use vstd::prelude::*;

use crate::capability::{
    authorise, Capability, CapabilityError, CapabilityKind, CapabilityRights, CapabilityTable,
};
#[allow(unused_imports)]
use crate::capability::{table_of, TableState};
use crate::collections::NonceSet;
#[allow(unused_imports)]
use crate::collections::nonces_in;

verus! {

// ── DeviceIdentity ───────────────────────────────────────────────────────────

/// A device's identity claim, provided as part of the DMA transfer descriptor.
#[derive(Debug)]
pub struct DeviceIdentity {
    /// Opaque device certificate / endorsement key.
    pub cert_bytes: [u8; 32],
    /// Nonce to prevent replay attacks.
    pub nonce: u64,
}

impl Clone for DeviceIdentity {
    fn clone(&self) -> (r: Self)
        ensures
            r == *self,
    {
        DeviceIdentity { cert_bytes: self.cert_bytes, nonce: self.nonce }
    }
}

// ── TvdpProof ────────────────────────────────────────────────────────────────

/// Attestation proof stamped onto a data buffer after TVDP verification.
#[derive(Debug)]
pub struct TvdpProof {
    /// The capability that was used to authorise this data path.
    pub capability: Capability,
    /// Physical address of the verified buffer.
    pub phys_addr: u64,
    /// Length of the verified region.
    pub length: usize,
    /// The nonce value used in the verification.
    pub nonce: u64,
}

// ── TvdpError ────────────────────────────────────────────────────────────────

/// Errors from TVDP verification.
#[derive(Debug, PartialEq, Eq, Structural)]
pub enum TvdpError {
    /// Subsystem not initialised.
    NotInitialised,
    /// The device certificate is invalid or unknown.
    InvalidIdentity,
    /// The HMAC signature does not match the data.
    SignatureInvalid,
    /// The nonce has already been seen (replay attack).
    NonceReplay,
    /// The IOMMU mapping for this buffer is not active. [`verify_transfer`] looks at no
    /// mapping and never returns this; it is there for callers that check the buffer's
    /// mapping themselves.
    IommuNotMapped,
    /// The capability presented does not grant TVDP access.
    CapabilityError(CapabilityError),
}

impl From<CapabilityError> for TvdpError {
    fn from(e: CapabilityError) -> (r: Self) {
        TvdpError::CapabilityError(e)
    }
}

impl vstd::std_specs::convert::FromSpecImpl<CapabilityError> for TvdpError {
    open spec fn obeys_from_spec() -> bool {
        true
    }

    open spec fn from_spec(e: CapabilityError) -> TvdpError {
        TvdpError::CapabilityError(e)
    }
}

// ── The data path, as a mathematical state ───────────────────────────────────

/// Whether the bytes are all zero.
pub open spec fn all_zero(bytes: Seq<u8>) -> bool {
    forall|i: int| 0 <= i < bytes.len() ==> #[trigger] bytes[i] == 0
}

/// The state of the data path: whether it is up, and the nonces of the transfers
/// that were accepted.
#[verifier::ext_equal]
pub struct TvdpTable {
    pub initialised: bool,
    pub seen_nonces: Set<u64>,
}

impl TvdpTable {
    /// The state before anything happened.
    pub open spec fn fresh() -> TvdpTable {
        TvdpTable { initialised: false, seen_nonces: Set::empty() }
    }

    /// The state once the subsystem is up.
    pub open spec fn after_init(self) -> TvdpTable {
        TvdpTable { initialised: true, ..self }
    }

    /// Why a transfer is refused; `None` if it is accepted. The checks come in this
    /// order: the session's capability, the state of the subsystem, the device's
    /// certificate, the nonce, the HMAC.
    pub open spec fn refusal(
        self,
        table: TableState,
        capability: Capability,
        cert_bytes: Seq<u8>,
        nonce: u64,
        hmac: Seq<u8>,
    ) -> Option<TvdpError> {
        match table.refusal(capability, CapabilityKind::TvdpSession, CapabilityRights::READ()) {
            Some(error) => Some(TvdpError::CapabilityError(error)),
            None => {
                if !self.initialised {
                    Some(TvdpError::NotInitialised)
                } else if all_zero(cert_bytes) {
                    Some(TvdpError::InvalidIdentity)
                } else if self.seen_nonces.contains(nonce) {
                    Some(TvdpError::NonceReplay)
                } else if all_zero(hmac) {
                    Some(TvdpError::SignatureInvalid)
                } else {
                    None
                }
            },
        }
    }

    /// The state once a transfer with this nonce is accepted.
    pub open spec fn after_accept(self, nonce: u64) -> TvdpTable {
        TvdpTable { seen_nonces: self.seen_nonces.insert(nonce), ..self }
    }
}

/// The state in a slot; an empty slot stands for a fresh state.
pub open spec fn tvdp_of(slot: Option<TvdpState>) -> TvdpTable {
    match slot {
        Some(state) => state@,
        None => TvdpTable::fresh(),
    }
}

// ── TVDP state ───────────────────────────────────────────────────────────────

/// The accounts of the data path.
pub struct TvdpState {
    initialised: bool,
    /// Set of seen nonces for replay detection.
    seen_nonces: NonceSet,
}

impl View for TvdpState {
    type V = TvdpTable;

    closed spec fn view(&self) -> TvdpTable {
        TvdpTable { initialised: self.initialised, seen_nonces: nonces_in(self.seen_nonces) }
    }
}

impl TvdpState {
    /// The state before anything happened.
    pub fn new() -> (state: Self)
        ensures
            state@ == TvdpTable::fresh(),
    {
        TvdpState { initialised: false, seen_nonces: NonceSet::new() }
    }
}

/// The state in the slot, which is filled with a fresh one when it is empty.
pub(crate) fn tvdp_lock(slot: &mut Option<TvdpState>) -> (state: &mut TvdpState)
    ensures
        state@ == tvdp_of(*old(slot)),
        *final(slot) == Some(*final(state)),
{
    if slot.is_none() {
        *slot = Some(TvdpState::new());
    }
    slot.as_mut().unwrap()
}

// ── Public API ───────────────────────────────────────────────────────────────

/// Initialise the TVDP subsystem.
pub fn init(slot: &mut Option<TvdpState>)
    ensures
        tvdp_of(*final(slot)) == tvdp_of(*old(slot)).after_init(),
        *final(slot) is Some,
{
    let state = tvdp_lock(slot);
    state.initialised = true;
}

/// Whether the bytes are all zero.
fn is_all_zero(bytes: &[u8; 32]) -> (r: bool)
    ensures
        r == all_zero(bytes@),
{
    let mut i: usize = 0;
    while i < 32
        invariant
            i <= 32,
            forall|j: int| 0 <= j < i ==> #[trigger] bytes@[j] == 0,
        decreases 32 - i,
    {
        if bytes[i] != 0 {
            assert(bytes@[i as int] != 0);
            return false;
        }
        i += 1;
    }
    true
}

/// Verify a data transfer's identity proof and stamp a [`TvdpProof`].
///
/// This is the **hot path** called for every incoming zero-copy DMA transfer.
///
/// ## Steps
/// 1. Check the `TvdpSession` capability is valid.
/// 2. Verify the device identity certificate.
/// 3. Check nonce freshness.
/// 4. Verify the HMAC over `[phys_addr, phys_addr + length)`.
/// 5. Mark the nonce as seen.
/// 6. Return a [`TvdpProof`] that downstream consumers can rely on.
///
/// No IOMMU mapping is looked at: whether one covers the buffer is for the caller to
/// see to.
///
/// # Errors
/// Returns [`TvdpError`] on any verification failure. The caller must **not**
/// use the data if verification fails.
pub fn verify_transfer(
    slot: &mut Option<TvdpState>,
    capabilities: &mut Option<CapabilityTable>,
    identity: &DeviceIdentity,
    phys_addr: u64,
    length: usize,
    hmac: &[u8; 32],
    capability: Capability,
) -> (r: Result<TvdpProof, TvdpError>)
    ensures
        match tvdp_of(*old(slot)).refusal(
            table_of(*old(capabilities)),
            capability,
            identity.cert_bytes@,
            identity.nonce,
            hmac@,
        ) {
            Some(error) => {
                &&& r == Err::<TvdpProof, _>(error)
                &&& tvdp_of(*final(slot)) == tvdp_of(*old(slot))
            },
            None => {
                &&& r == Ok::<_, TvdpError>(
                    TvdpProof { capability, phys_addr, length, nonce: identity.nonce },
                )
                &&& tvdp_of(*final(slot)) == tvdp_of(*old(slot)).after_accept(identity.nonce)
            },
        },
        table_of(*final(capabilities)) == table_of(*old(capabilities)),
        if capability.kind == CapabilityKind::TvdpSession {
            *final(capabilities) is Some
        } else {
            *final(capabilities) == *old(capabilities)
        },
        if table_of(*old(capabilities)).refusal(
            capability,
            CapabilityKind::TvdpSession,
            CapabilityRights::READ(),
        ) is None {
            *final(slot) is Some
        } else {
            *final(slot) == *old(slot)
        },
{
    // ── 1. Validate the capability. ──────────────────────────────────────────
    match authorise(
        capabilities,
        &capability,
        CapabilityKind::TvdpSession,
        CapabilityRights::READ(),
    ) {
        Ok(()) => {},
        Err(e) => return Err(TvdpError::from(e)),
    }

    let state = tvdp_lock(slot);

    if !state.initialised {
        return Err(TvdpError::NotInitialised);
    }
    // ── 2. Verify device identity (placeholder). ─────────────────────────────

    if is_all_zero(&identity.cert_bytes) {
        return Err(TvdpError::InvalidIdentity);
    }
    // ── 3. Nonce freshness check. ────────────────────────────────────────────

    if state.seen_nonces.contains(identity.nonce) {
        return Err(TvdpError::NonceReplay);
    }
    // ── 4. Verify HMAC over the payload (placeholder). ───────────────────────

    if is_all_zero(hmac) {
        return Err(TvdpError::SignatureInvalid);
    }
    // ── 5. Record nonce to prevent future replays. ───────────────────────────

    state.seen_nonces.insert(identity.nonce);

    // ── 6. Return the proof. ─────────────────────────────────────────────────
    Ok(TvdpProof { capability, phys_addr, length, nonce: identity.nonce })
}

// ── Laws ─────────────────────────────────────────────────────────────────────

/// A transfer as it arrives: the capability table of the moment, and what the
/// sender presents.
pub struct Transfer {
    pub table: TableState,
    pub capability: Capability,
    pub cert_bytes: Seq<u8>,
    pub nonce: u64,
    pub hmac: Seq<u8>,
}

/// What can happen to the data path.
pub enum TvdpEvent {
    /// The data path is initialised, for the first time or again.
    Init,
    /// A transfer is verified.
    Verify { transfer: Transfer },
}

impl TvdpTable {
    /// Whether the transfer is accepted.
    pub open spec fn accepts(self, transfer: Transfer) -> bool {
        self.refusal(
            transfer.table,
            transfer.capability,
            transfer.cert_bytes,
            transfer.nonce,
            transfer.hmac,
        ) is None
    }

    /// The state after an event.
    pub open spec fn after(self, event: TvdpEvent) -> TvdpTable {
        match event {
            TvdpEvent::Init => self.after_init(),
            TvdpEvent::Verify { transfer } => if self.accepts(transfer) {
                self.after_accept(transfer.nonce)
            } else {
                self
            },
        }
    }

    /// The state after the events have happened in order.
    pub open spec fn after_all(self, events: Seq<TvdpEvent>) -> TvdpTable
        decreases events.len(),
    {
        if events.len() == 0 {
            self
        } else {
            self.after_all(events.drop_last()).after(events.last())
        }
    }

    /// Whether a transfer with this nonce is verified at position `i`, and accepted
    /// when its turn comes.
    pub open spec fn accepts_at(self, events: Seq<TvdpEvent>, i: int, nonce: u64) -> bool {
        match events[i] {
            TvdpEvent::Init => false,
            TvdpEvent::Verify { transfer } => transfer.nonce == nonce && self.after_all(
                events.take(i),
            ).accepts(transfer),
        }
    }
}

/// The nonces on record are those recorded before and those of the transfers that
/// were accepted: a transfer that is refused uses up no nonce, and a new
/// initialisation forgets none. Once the data path is up, it stays up.
pub proof fn law_record_holds_accepted_nonces(
    state: TvdpTable,
    events: Seq<TvdpEvent>,
    nonce: u64,
)
    ensures
        state.after_all(events).seen_nonces.contains(nonce) <==> state.seen_nonces.contains(nonce)
            || exists|i: int|
            0 <= i < events.len() && #[trigger] state.accepts_at(events, i, nonce),
        state.initialised ==> state.after_all(events).initialised,
    decreases events.len(),
{
    if events.len() > 0 {
        let rest = events.drop_last();
        let last = events.len() - 1;
        law_record_holds_accepted_nonces(state, rest, nonce);
        assert(events.take(last) =~= rest);
        assert forall|i: int| 0 <= i < last implies #[trigger] state.accepts_at(events, i, nonce)
            == state.accepts_at(rest, i, nonce) by {
            assert(events.take(i) =~= rest.take(i));
        }
        if state.after_all(events).seen_nonces.contains(nonce) {
            if state.after_all(rest).seen_nonces.contains(nonce) {
                if !state.seen_nonces.contains(nonce) {
                    let i = choose|i: int|
                        0 <= i < rest.len() && #[trigger] state.accepts_at(rest, i, nonce);
                    assert(state.accepts_at(events, i, nonce));
                }
            } else {
                assert(state.accepts_at(events, last, nonce));
            }
        }
        if exists|i: int| 0 <= i < events.len() && #[trigger] state.accepts_at(events, i, nonce) {
            let i = choose|i: int|
                0 <= i < events.len() && #[trigger] state.accepts_at(events, i, nonce);
            if i < last {
                assert(state.accepts_at(rest, i, nonce));
            }
        }
    }
}

/// No nonce is accepted twice: once a transfer is accepted, every later transfer
/// with its nonce is refused, whatever comes in between, a new initialisation
/// included; and where nothing else is wrong before the nonce is looked at, as a
/// replay.
pub proof fn law_no_replay(
    state: TvdpTable,
    first: Transfer,
    between: Seq<TvdpEvent>,
    later: Transfer,
)
    requires
        state.accepts(first),
        later.nonce == first.nonce,
    ensures
        !state.after_accept(first.nonce).after_all(between).accepts(later),
        later.table.refusal(
            later.capability,
            CapabilityKind::TvdpSession,
            CapabilityRights::READ(),
        ) is None && !all_zero(later.cert_bytes) ==> state.after_accept(first.nonce).after_all(
            between,
        ).refusal(
            later.table,
            later.capability,
            later.cert_bytes,
            later.nonce,
            later.hmac,
        ) == Some(TvdpError::NonceReplay),
{
    law_record_holds_accepted_nonces(state.after_accept(first.nonce), between, first.nonce);
}

/// An accepted transfer came with a live capability that was issued for a session and
/// may read, a certificate, an HMAC and a new nonce, on a data path that is up.
pub proof fn law_acceptance_means_verified(state: TvdpTable, transfer: Transfer)
    ensures
        state.accepts(transfer) <==> {
            &&& transfer.capability.kind == CapabilityKind::TvdpSession
            &&& transfer.table.vouches_for(transfer.capability)
            &&& transfer.table.validation(transfer.capability.id, CapabilityRights::READ()) is Ok
            &&& state.initialised
            &&& !all_zero(transfer.cert_bytes)
            &&& !state.seen_nonces.contains(transfer.nonce)
            &&& !all_zero(transfer.hmac)
        },
{
}

} // verus!
