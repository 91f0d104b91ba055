use cyberkernel::capability::{self, CapabilityError, CapabilityId, CapabilityKind, CapabilityRights, CapabilityTable};
use cyberkernel::fabric::{
    self, lookup_endpoint, register_endpoint, FabricError, FabricState, NodeId, NodeKind,
};

fn init_subsystems() -> (Option<FabricState>, Option<CapabilityTable>) {
    let mut capabilities = None;
    let mut state = None;
    capability::init(&mut capabilities);
    fabric::init(&mut state);
    (state, capabilities)
}

#[test]
fn test_register_and_lookup() {
    let (mut state, mut capabilities) = init_subsystems();
    let node = NodeId(42);
    let ep = register_endpoint(
        &mut state,
        &mut capabilities,
        node,
        NodeKind::Accelerator,
        0x8000_0000,
        1 << 20,
    )
    .expect("registration should succeed");
    assert_eq!(ep.node_id, node);
    assert_eq!(ep.node_kind, NodeKind::Accelerator);

    let found = lookup_endpoint(&mut state, node).expect("lookup should succeed");
    assert_eq!(found.mr_base, 0x8000_0000);
}

#[test]
fn test_lookup_unknown_node() {
    let (mut state, _capabilities) = init_subsystems();
    let result = lookup_endpoint(&mut state, NodeId(999));
    assert!(matches!(result, Err(FabricError::UnknownNode)));
}

#[test]
fn registration_issues_a_live_capability() {
    let (mut state, mut capabilities) = init_subsystems();
    let ep = register_endpoint(&mut state, &mut capabilities, NodeId(7), NodeKind::SmartNic, 1, 2)
        .expect("registration should succeed");
    assert_eq!(ep.capability.kind, CapabilityKind::FabricEndpoint);
    for right in [CapabilityRights::READ(), CapabilityRights::WRITE(), CapabilityRights::DMA()] {
        assert_eq!(capability::validate(&mut capabilities, &ep.capability, right), Ok(()));
    }
    for right in
        [CapabilityRights::TRANSFER(), CapabilityRights::DERIVE(), CapabilityRights::EXECUTE()]
    {
        assert_eq!(
            capability::validate(&mut capabilities, &ep.capability, right),
            Err(CapabilityError::InsufficientRights)
        );
    }
}

#[test]
fn second_registration_is_refused() {
    let (mut state, mut capabilities) = init_subsystems();
    register_endpoint(&mut state, &mut capabilities, NodeId(7), NodeKind::Cpu, 100, 200)
        .expect("registration should succeed");
    let again =
        register_endpoint(&mut state, &mut capabilities, NodeId(7), NodeKind::Storage, 300, 400);
    assert_eq!(again.err(), Some(FabricError::AlreadyRegistered));
    let found = lookup_endpoint(&mut state, NodeId(7)).expect("registered");
    assert_eq!(found.node_kind, NodeKind::Cpu);
    assert_eq!((found.mr_base, found.mr_length), (100, 200));
    // The refused registration used up no capability id.
    let next = register_endpoint(&mut state, &mut capabilities, NodeId(8), NodeKind::Cpu, 0, 0)
        .expect("another node");
    assert_eq!(next.capability.id, CapabilityId(2));
}

#[test]
fn uninitialised_fabric_refuses() {
    let mut state = None;
    let mut capabilities = None;
    let result =
        register_endpoint(&mut state, &mut capabilities, NodeId(1), NodeKind::Storage, 0, 0);
    assert_eq!(result.err(), Some(FabricError::NotInitialised));
    assert!(capabilities.is_none());
    assert!(matches!(lookup_endpoint(&mut state, NodeId(1)), Err(FabricError::UnknownNode)));
}

#[test]
fn fabric_error_from_capability_error() {
    assert_eq!(
        FabricError::from(CapabilityError::TableFull),
        FabricError::CapabilityError(CapabilityError::TableFull)
    );
}

#[test]
fn initialising_again_keeps_the_endpoints() {
    let (mut state, mut capabilities) = init_subsystems();
    register_endpoint(&mut state, &mut capabilities, NodeId(1), NodeKind::Cpu, 7, 8)
        .expect("registration should succeed");
    fabric::init(&mut state);
    let again = register_endpoint(&mut state, &mut capabilities, NodeId(1), NodeKind::Cpu, 9, 9);
    assert!(matches!(again, Err(FabricError::AlreadyRegistered)));
    assert_eq!(lookup_endpoint(&mut state, NodeId(1)).expect("registered").mr_base, 7);
    assert!(matches!(lookup_endpoint(&mut state, NodeId(2)), Err(FabricError::UnknownNode)));
}
