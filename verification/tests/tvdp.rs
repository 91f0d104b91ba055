use cyberkernel::capability::{
    self, Capability, CapabilityError, CapabilityId, CapabilityKind, CapabilityRights,
    CapabilityTable,
};
use cyberkernel::tvdp::{self, verify_transfer, DeviceIdentity, TvdpError, TvdpState};

const NONCE_HAPPY: u64 = 1001;
const NONCE_REPLAY: u64 = 1002;
const NONCE_BAD_ID: u64 = 1003;
const NONCE_BAD_HMAC: u64 = 1004;

fn init_all() -> (Option<TvdpState>, Option<CapabilityTable>) {
    let mut capabilities = None;
    let mut state = None;
    capability::init(&mut capabilities);
    tvdp::init(&mut state);
    (state, capabilities)
}

fn make_tvdp_cap(capabilities: &mut Option<CapabilityTable>) -> Capability {
    capability::issue(
        capabilities,
        CapabilityKind::TvdpSession,
        CapabilityRights::READ() | CapabilityRights::WRITE(),
    )
}

fn identity_with_nonce(nonce: u64) -> DeviceIdentity {
    let mut cert = [0u8; 32];
    cert[0] = 0xAB; // non-zero marker for a valid certificate
    DeviceIdentity { cert_bytes: cert, nonce }
}

fn good_hmac() -> [u8; 32] {
    let mut h = [0u8; 32];
    h[0] = 0xFF; // non-zero marker for a valid HMAC
    h
}

#[test]
fn test_verify_transfer_happy_path() {
    let (mut state, mut caps) = init_all();
    let cap = make_tvdp_cap(&mut caps);
    let identity = identity_with_nonce(NONCE_HAPPY);
    let proof = verify_transfer(&mut state, &mut caps, &identity, 0x1000, 4096, &good_hmac(), cap)
        .expect("should succeed");
    assert_eq!(proof.phys_addr, 0x1000);
    assert_eq!(proof.nonce, NONCE_HAPPY);
}

#[test]
fn test_replay_detected() {
    let (mut state, mut caps) = init_all();
    let cap1 = make_tvdp_cap(&mut caps);
    let cap2 = make_tvdp_cap(&mut caps);
    let identity = identity_with_nonce(NONCE_REPLAY);
    verify_transfer(&mut state, &mut caps, &identity, 0x2000, 4096, &good_hmac(), cap1)
        .expect("first transfer ok");
    // Same nonce → replay
    let result = verify_transfer(&mut state, &mut caps, &identity, 0x2000, 4096, &good_hmac(), cap2);
    assert!(matches!(result, Err(TvdpError::NonceReplay)));
}

#[test]
fn test_invalid_identity_rejected() {
    let (mut state, mut caps) = init_all();
    let cap = make_tvdp_cap(&mut caps);
    let bad_identity = DeviceIdentity {
        cert_bytes: [0u8; 32], // all-zero = invalid
        nonce: NONCE_BAD_ID,
    };
    let result =
        verify_transfer(&mut state, &mut caps, &bad_identity, 0x3000, 4096, &good_hmac(), cap);
    assert!(matches!(result, Err(TvdpError::InvalidIdentity)));
}

#[test]
fn test_bad_hmac_rejected() {
    let (mut state, mut caps) = init_all();
    let cap = make_tvdp_cap(&mut caps);
    let result = verify_transfer(
        &mut state,
        &mut caps,
        &identity_with_nonce(NONCE_BAD_HMAC),
        0x4000,
        4096,
        &[0u8; 32], // all-zero = invalid
        cap,
    );
    assert!(matches!(result, Err(TvdpError::SignatureInvalid)));
}

#[test]
fn proof_carries_what_was_verified() {
    let (mut state, mut caps) = init_all();
    let cap = make_tvdp_cap(&mut caps);
    let identity = identity_with_nonce(5).clone();
    let proof =
        verify_transfer(&mut state, &mut caps, &identity, 0x7000, 99, &good_hmac(), cap.clone())
            .expect("should succeed");
    assert_eq!(proof.capability.id, cap.id);
    assert_eq!((proof.phys_addr, proof.length, proof.nonce), (0x7000, 99, 5));
}

#[test]
fn refused_transfer_uses_up_no_nonce() {
    let (mut state, mut caps) = init_all();
    let cap = make_tvdp_cap(&mut caps);
    let identity = identity_with_nonce(6);
    let refused =
        verify_transfer(&mut state, &mut caps, &identity, 0, 0, &[0u8; 32], cap.clone());
    assert_eq!(refused.err(), Some(TvdpError::SignatureInvalid));
    let mut last = [0u8; 32];
    last[31] = 1;
    assert!(verify_transfer(&mut state, &mut caps, &identity, 0, 0, &last, cap.clone()).is_ok());
    // A replay is found out before the HMAC is looked at.
    let replay = verify_transfer(&mut state, &mut caps, &identity, 0, 0, &[0u8; 32], cap);
    assert_eq!(replay.err(), Some(TvdpError::NonceReplay));
}

#[test]
fn smaller_nonce_is_fresh() {
    let (mut state, mut caps) = init_all();
    let cap = make_tvdp_cap(&mut caps);
    for nonce in [9u64, 3, 0, u64::MAX] {
        let identity = identity_with_nonce(nonce);
        assert!(verify_transfer(
            &mut state,
            &mut caps,
            &identity,
            0,
            0,
            &good_hmac(),
            cap.clone()
        )
        .is_ok());
    }
}

#[test]
fn initialising_again_forgets_no_nonce() {
    let (mut state, mut caps) = init_all();
    let cap = make_tvdp_cap(&mut caps);
    let identity = identity_with_nonce(8);
    assert!(verify_transfer(&mut state, &mut caps, &identity, 0, 0, &good_hmac(), cap.clone())
        .is_ok());
    tvdp::init(&mut state);
    let replay = verify_transfer(&mut state, &mut caps, &identity, 0, 0, &good_hmac(), cap);
    assert_eq!(replay.err(), Some(TvdpError::NonceReplay));
}

#[test]
fn capability_is_checked_first() {
    let mut state = None;
    let mut caps = None;
    let wrong_kind =
        capability::issue(&mut caps, CapabilityKind::DmaBuffer, CapabilityRights::READ());
    let no_read =
        capability::issue(&mut caps, CapabilityKind::TvdpSession, CapabilityRights::WRITE());
    let revoked = make_tvdp_cap(&mut caps);
    capability::revoke(&mut caps, revoked.id).expect("live");
    let forged = Capability { kind: CapabilityKind::TvdpSession, ..wrong_kind.clone() };
    let made_up = Capability { id: CapabilityId(77), ..revoked.clone() };
    let good = make_tvdp_cap(&mut caps);
    let identity = identity_with_nonce(1);
    let cases = [
        (wrong_kind, TvdpError::CapabilityError(CapabilityError::InsufficientRights)),
        (no_read, TvdpError::CapabilityError(CapabilityError::InsufficientRights)),
        (revoked, TvdpError::CapabilityError(CapabilityError::Revoked)),
        (forged, TvdpError::CapabilityError(CapabilityError::InsufficientRights)),
        (made_up, TvdpError::CapabilityError(CapabilityError::NotFound)),
        (good, TvdpError::NotInitialised),
    ];
    for (cap, expected) in cases {
        let result =
            verify_transfer(&mut state, &mut caps, &identity, 0x1000, 1, &good_hmac(), cap);
        assert_eq!(result.err(), Some(expected));
    }
}

#[test]
fn tvdp_error_from_capability_error() {
    assert_eq!(
        TvdpError::from(CapabilityError::NotFound),
        TvdpError::CapabilityError(CapabilityError::NotFound)
    );
}
