use orjail::errors::Errcode;
use orjail::host::WaitOutcome;
use orjail::net::{
    create_veth_pair, join_veth_to_ns_fd, join_veth_to_ns_pid, open_namespace, prepare_net,
    NetEvent, NetRequest, NetSetup, NetStage,
};

fn started() -> (NetSetup, NetRequest) {
    prepare_net(&"test".to_string(), "10.40.50.10", "10.40.50.20", 24)
}

fn happy_events() -> Vec<NetEvent> {
    vec![
        NetEvent::Done,
        NetEvent::Present(false),
        NetEvent::Done,
        NetEvent::Handle(9),
        NetEvent::Done,
        NetEvent::Index(Some(4)),
        NetEvent::Index(Some(5)),
        NetEvent::Done,
        NetEvent::Done,
        NetEvent::Done,
        NetEvent::Helper(WaitOutcome::Exited(0)),
    ]
}

fn advance_to(stage: NetStage) -> NetSetup {
    let (mut setup, _) = started();
    for event in happy_events() {
        if setup.stage == stage {
            break;
        }
        setup.advance(event);
    }
    assert_eq!(setup.stage, stage);
    setup
}

#[test]
fn network_set_up_from_start_to_finish() {
    let (mut setup, first) = started();
    assert_eq!(first, NetRequest::Connect);
    assert_eq!(setup.stage, NetStage::Connecting);
    let expected = vec![
        NetRequest::ProbeNamespace { path: "/run/netns/test".to_string() },
        NetRequest::CreateNamespace { name: "test".to_string() },
        NetRequest::OpenNamespace { name: "test".to_string(), path: "/run/netns/test".to_string() },
        NetRequest::CreateVeth { name: "test".to_string(), peer: "test_peer".to_string() },
        NetRequest::LinkIndex { name: "test".to_string() },
        NetRequest::LinkIndex { name: "test_peer".to_string() },
        NetRequest::LinkUp { index: 4 },
        NetRequest::AddAddress { index: 4, address: "10.40.50.10".to_string(), prefix_len: 24 },
        NetRequest::MoveToNamespace { index: 5, handle: 9 },
        NetRequest::RunHelper,
        NetRequest::Finish { veth_index: 4 },
    ];
    let mut requests = Vec::new();
    for event in happy_events() {
        requests.push(setup.advance(event));
    }
    assert_eq!(requests, expected);
    assert_eq!(setup.stage, NetStage::Finished);
}

#[test]
fn an_existing_namespace_is_opened_without_being_created() {
    let mut setup = advance_to(NetStage::ProbingNamespace);
    assert_eq!(
        setup.advance(NetEvent::Present(true)),
        NetRequest::OpenNamespace { name: "test".to_string(), path: "/run/netns/test".to_string() }
    );
    assert_eq!(setup.stage, NetStage::OpeningNamespace);
    let mut setup = advance_to(NetStage::ProbingNamespace);
    assert_eq!(
        setup.advance(NetEvent::Present(false)),
        NetRequest::CreateNamespace { name: "test".to_string() }
    );
    assert_eq!(
        setup.advance(NetEvent::Done),
        NetRequest::OpenNamespace { name: "test".to_string(), path: "/run/netns/test".to_string() }
    );
}

#[test]
fn migrated_index_is_forgotten() {
    let setup = advance_to(NetStage::Migrating);
    assert_eq!(setup.peer_index, Some(5));
    let setup = advance_to(NetStage::AwaitingHelper);
    assert_eq!(setup.peer_index, None);
    assert_eq!(setup.veth_index, Some(4));
    let setup = advance_to(NetStage::Finished);
    assert_eq!(setup.peer_index, None);
}

#[test]
fn inner_endpoint_is_neither_raised_nor_addressed_outside() {
    let (mut setup, _) = started();
    for event in happy_events() {
        match setup.advance(event) {
            NetRequest::LinkUp { index } => assert_eq!(index, 4),
            NetRequest::AddAddress { index, address, .. } => {
                assert_eq!(index, 4);
                assert_eq!(address, "10.40.50.10");
            }
            _ => {}
        }
    }
}

#[test]
fn request_builders() {
    assert_eq!(
        open_namespace(&"jail".to_string()),
        NetRequest::OpenNamespace { name: "jail".to_string(), path: "/run/netns/jail".to_string() }
    );
    assert_eq!(
        create_veth_pair(&"jail".to_string()),
        NetRequest::CreateVeth { name: "jail".to_string(), peer: "jail_peer".to_string() }
    );
    assert_eq!(join_veth_to_ns_fd(5, 9), NetRequest::MoveToNamespace { index: 5, handle: 9 });
    assert_eq!(join_veth_to_ns_pid(5, 4242), NetRequest::MoveToProcess { index: 5, pid: 4242 });
}

#[test]
fn failures_end_the_set_up_with_their_error() {
    let net = |text: &str| NetRequest::Abort(Errcode::NetworkError(text.to_string()));
    let ns = |text: &str| NetRequest::Abort(Errcode::NamespacesError(text.to_string()));
    let cases = vec![
        (NetStage::Connecting, net("EIO")),
        (NetStage::ProbingNamespace, ns("Can not create network namespace test: EIO")),
        (NetStage::CreatingNamespace, ns("Can not create network namespace test: EIO")),
        (NetStage::OpeningNamespace, ns("Can not create network namespace test: EIO")),
        (NetStage::CreatingVeth, net("Can not create veth interfaces: EIO")),
        (NetStage::ResolvingVeth, net("EIO")),
        (NetStage::ResolvingPeer, net("EIO")),
        (NetStage::RaisingVeth, net("Setting veth test up failed: EIO")),
        (NetStage::AddressingVeth, net("Setting addr 10.40.50.10 to veth test failed: EIO")),
        (NetStage::Migrating, net("Set veth 5 to fd 9 failed: EIO")),
        (NetStage::AwaitingHelper, ns("Error fork(): EIO")),
    ];
    for (stage, expected) in cases {
        let mut setup = advance_to(stage);
        assert_eq!(setup.advance(NetEvent::Failed("EIO".to_string())), expected);
        assert_eq!(setup.stage, NetStage::Finished);
        assert_eq!(setup.peer_index, None);
    }
}

#[test]
fn missing_interfaces_end_the_set_up() {
    let mut setup = advance_to(NetStage::ResolvingVeth);
    assert_eq!(
        setup.advance(NetEvent::Index(None)),
        NetRequest::Abort(Errcode::NetworkError("Failed to get index for test".to_string()))
    );
    let mut setup = advance_to(NetStage::ResolvingPeer);
    assert_eq!(
        setup.advance(NetEvent::Index(None)),
        NetRequest::Abort(Errcode::NetworkError("Failed to get index for test_peer".to_string()))
    );
}

#[test]
fn a_failed_helper_ends_the_set_up() {
    let ns = |text: &str| NetRequest::Abort(Errcode::NamespacesError(text.to_string()));
    let mut setup = advance_to(NetStage::AwaitingHelper);
    assert_eq!(
        setup.advance(NetEvent::Helper(WaitOutcome::Exited(2))),
        ns("Namespace conf error: child exited with 2")
    );
    let mut setup = advance_to(NetStage::AwaitingHelper);
    assert_eq!(
        setup.advance(NetEvent::Helper(WaitOutcome::Signaled {
            signal: "SIGABRT".to_string(),
            core_dumped: false
        })),
        ns("Child process killed by signal SIGABRT")
    );
}

#[test]
fn answers_that_do_not_fit_end_the_set_up() {
    let unexpected = NetRequest::Abort(Errcode::NetworkError(
        "Unexpected answer to a network request".to_string(),
    ));
    let mut setup = advance_to(NetStage::Connecting);
    assert_eq!(setup.advance(NetEvent::Handle(3)), unexpected);
    let mut setup = advance_to(NetStage::OpeningNamespace);
    assert_eq!(setup.advance(NetEvent::Done), unexpected);
    let mut setup = advance_to(NetStage::Migrating);
    assert_eq!(setup.advance(NetEvent::Index(Some(1))), unexpected);
    let mut setup = advance_to(NetStage::Finished);
    assert_eq!(setup.advance(NetEvent::Done), unexpected);
    assert_eq!(setup.advance(NetEvent::Failed("x".to_string())), unexpected);
    assert_eq!(setup.stage, NetStage::Finished);
}
