use capctl::caps::{Cap, CapSet};
use orjail::child::{
    child, generate_child_process, ChildEvent, ChildRequest, ChildSetup, ChildStage, CloneRequest,
    STACK_SIZE, SUBNET, VETH_2_IP, VETH_IP,
};
use orjail::config::ContainerOpts;
use orjail::errors::Errcode;
use orjail::host::{NamespaceSet, PathProbe, WaitOutcome};
use orjail::hostname::set_container_hostname;
use orjail::mountpoint::mount_plan;
use orjail::namespaces::{mount_netns, split_namespace, userns};
use orjail::net::{NetEvent, NetRequest};
use orjail::nftables::test_apply_ruleset;
use orjail::syscalls::{setsyscalls, FilterFailure};

fn config(disable_capabilities: bool, disable_syscall: bool) -> ContainerOpts {
    ContainerOpts::with_hostname(
        "/bin/sh -c id".to_string(),
        0,
        1000,
        1001,
        Some("/srv/root".to_string()),
        "test".to_string(),
        vec![("/srv/data".to_string(), "data".to_string())],
        "/usr/bin/tor".to_string(),
        "/usr/bin/slirp4netns".to_string(),
        disable_syscall,
        disable_capabilities,
        "orjail-Ab12".to_string(),
    )
    .unwrap()
}

fn full_set() -> CapSet {
    let mut set = CapSet::empty();
    for cap in Cap::iter() {
        set.add(cap);
    }
    set
}

fn net_events() -> Vec<ChildEvent> {
    vec![
        ChildEvent::Net(NetEvent::Done),
        ChildEvent::Net(NetEvent::Present(true)),
        ChildEvent::Net(NetEvent::Handle(9)),
        ChildEvent::Net(NetEvent::Done),
        ChildEvent::Net(NetEvent::Index(Some(4))),
        ChildEvent::Net(NetEvent::Index(Some(5))),
        ChildEvent::Net(NetEvent::Done),
        ChildEvent::Net(NetEvent::Done),
        ChildEvent::Net(NetEvent::Done),
        ChildEvent::Net(NetEvent::Helper(WaitOutcome::Exited(0))),
    ]
}

fn happy_events(disable_capabilities: bool, disable_syscall: bool) -> Vec<ChildEvent> {
    let mut events = vec![
        ChildEvent::Ran(Ok(())),
        ChildEvent::Probed(PathProbe::Present),
        ChildEvent::Ran(Ok(())),
        ChildEvent::Ran(Ok(())),
        ChildEvent::Ran(Ok(())),
    ];
    events.extend(net_events());
    events.push(ChildEvent::Applied(Ok(())));
    events.push(ChildEvent::SysReadOnly(false));
    events.push(ChildEvent::Ran(Ok(())));
    if !disable_capabilities {
        events.push(ChildEvent::Capabilities(Ok((full_set(), full_set()))));
        events.push(ChildEvent::CapabilitiesSet(Ok(())));
    }
    if !disable_syscall {
        events.push(ChildEvent::Installed(Ok(())));
    }
    events
}

fn run(disable_capabilities: bool, disable_syscall: bool) -> (ChildSetup, Vec<ChildRequest>) {
    let (mut setup, first) = child(config(disable_capabilities, disable_syscall));
    let mut requests = vec![first];
    for event in happy_events(disable_capabilities, disable_syscall) {
        requests.push(setup.advance(event));
    }
    (setup, requests)
}

fn advance_to(stage: ChildStage) -> ChildSetup {
    let (mut setup, _) = child(config(false, false));
    for event in happy_events(false, false) {
        if setup.stage == stage {
            break;
        }
        setup.advance(event);
    }
    assert_eq!(setup.stage, stage);
    setup
}

fn exec_request() -> ChildRequest {
    ChildRequest::Exec {
        path: "/bin/sh".to_string(),
        argv: vec!["/bin/sh".to_string(), "-c".to_string(), "id".to_string()],
        env: vec![],
    }
}

#[test]
fn contained_process_is_created_in_six_namespaces() {
    let all_but_pid = NamespaceSet {
        mount: true,
        network: true,
        user: true,
        cgroup: true,
        pid: false,
        ipc: true,
        uts: true,
    };
    assert_eq!(
        generate_child_process(false),
        CloneRequest { namespaces: all_but_pid, stack_size: 1024 * 1024, notify_parent: true }
    );
    let with_pid = NamespaceSet { pid: true, ..all_but_pid };
    assert_eq!(
        generate_child_process(true),
        CloneRequest { namespaces: with_pid, stack_size: STACK_SIZE, notify_parent: true }
    );
}

#[test]
fn set_up_sequence_in_full() {
    let (setup, requests) = run(false, false);
    let cfg = config(false, false);
    let plan = mount_plan(
        &cfg.mount_dir,
        &cfg.addpaths,
        &setup.staging_suffix,
        &setup.old_root_suffix,
    );
    let mut expected_left = full_set();
    for n in orjail::capabilities::capabilities_to_drop() {
        expected_left.drop(Cap::iter().nth(n as usize).unwrap());
    }
    let expected = vec![
        ChildRequest::Run(vec![set_container_hostname(&cfg.hostname)]),
        ChildRequest::ProbeNetns { path: "/run/netns/".to_string() },
        ChildRequest::Run(mount_netns(&cfg.hostname, &PathProbe::Present).unwrap()),
        ChildRequest::Run(userns(1000, 1001, 0)),
        ChildRequest::Run(plan.steps),
        ChildRequest::Net(NetRequest::Connect),
        ChildRequest::Net(NetRequest::ProbeNamespace { path: "/run/netns/test".to_string() }),
        ChildRequest::Net(NetRequest::OpenNamespace {
            name: "test".to_string(),
            path: "/run/netns/test".to_string(),
        }),
        ChildRequest::Net(NetRequest::CreateVeth {
            name: "test".to_string(),
            peer: "test_peer".to_string(),
        }),
        ChildRequest::Net(NetRequest::LinkIndex { name: "test".to_string() }),
        ChildRequest::Net(NetRequest::LinkIndex { name: "test_peer".to_string() }),
        ChildRequest::Net(NetRequest::LinkUp { index: 4 }),
        ChildRequest::Net(NetRequest::AddAddress {
            index: 4,
            address: "10.40.50.10".to_string(),
            prefix_len: 24,
        }),
        ChildRequest::Net(NetRequest::MoveToNamespace { index: 5, handle: 9 }),
        ChildRequest::Net(NetRequest::RunHelper),
        ChildRequest::ApplyRuleset(test_apply_ruleset("test")),
        ChildRequest::ProbeSys { path: "/sys".to_string() },
        ChildRequest::Run(split_namespace(&"test".to_string(), false)),
        ChildRequest::ReadCapabilities,
        ChildRequest::SetCapabilities { bounding: expected_left, inheritable: expected_left },
        ChildRequest::InstallFilter(setsyscalls()),
        exec_request(),
    ];
    assert_eq!(requests, expected);
    assert_eq!(setup.stage, ChildStage::Executing);
    assert_eq!(setup.staging_suffix.len(), 10);
    assert_eq!(setup.old_root_suffix.len(), 6);
    assert_eq!((VETH_IP, VETH_2_IP, SUBNET), ("10.40.50.10", "10.40.50.20", 24));
}

#[test]
fn privileges_go_last_and_exec_goes_after_them() {
    let (_, requests) = run(false, false);
    let first_reduction = requests
        .iter()
        .position(|r| matches!(r, ChildRequest::SetCapabilities { .. } | ChildRequest::InstallFilter(_)))
        .unwrap();
    for request in &requests[..first_reduction] {
        assert!(!matches!(request, ChildRequest::Exec { .. }));
    }
    for request in &requests[first_reduction..] {
        assert!(matches!(
            request,
            ChildRequest::SetCapabilities { .. }
                | ChildRequest::InstallFilter(_)
                | ChildRequest::Exec { .. }
        ));
    }
    assert_eq!(requests.last(), Some(&exec_request()));
}

#[test]
fn switched_off_reductions_are_skipped() {
    let (_, requests) = run(true, false);
    assert!(!requests.iter().any(|r| matches!(
        r,
        ChildRequest::ReadCapabilities | ChildRequest::SetCapabilities { .. }
    )));
    assert!(requests.iter().any(|r| matches!(r, ChildRequest::InstallFilter(_))));
    assert_eq!(requests.last(), Some(&exec_request()));

    let (_, requests) = run(false, true);
    assert!(requests.iter().any(|r| matches!(r, ChildRequest::SetCapabilities { .. })));
    assert!(!requests.iter().any(|r| matches!(r, ChildRequest::InstallFilter(_))));
    assert_eq!(requests.last(), Some(&exec_request()));

    let (_, requests) = run(true, true);
    assert!(!requests.iter().any(|r| matches!(
        r,
        ChildRequest::ReadCapabilities
            | ChildRequest::SetCapabilities { .. }
            | ChildRequest::InstallFilter(_)
    )));
    assert_eq!(requests.last(), Some(&exec_request()));
    assert_eq!(requests.len(), 19);
}

#[test]
fn the_target_command_gets_an_empty_environment() {
    let (_, requests) = run(false, false);
    match requests.last().unwrap() {
        ChildRequest::Exec { env, .. } => assert!(env.is_empty()),
        _ => panic!("the sequence does not end with the target command"),
    }
}

#[test]
fn a_failed_step_ends_the_process() {
    let failure = Errcode::MountsError("Cannot remount /: EPERM".to_string());
    for stage in [
        ChildStage::Hostname,
        ChildStage::NetnsArea,
        ChildStage::Identity,
        ChildStage::Mounts,
    ] {
        let mut setup = advance_to(stage);
        assert_eq!(
            setup.advance(ChildEvent::Ran(Err(failure.clone()))),
            ChildRequest::Exit { code: -1, reason: Some(failure.clone()) }
        );
        assert_eq!(setup.stage, ChildStage::Exited);
    }
    let mut setup = advance_to(ChildStage::Joining);
    assert_eq!(
        setup.advance(ChildEvent::Ran(Err(failure.clone()))),
        ChildRequest::Exit { code: 1, reason: Some(failure.clone()) }
    );
}

#[test]
fn failures_of_the_other_requests_end_the_process() {
    let exit = |e: Errcode| ChildRequest::Exit { code: -1, reason: Some(e) };
    let mut setup = advance_to(ChildStage::NetnsProbe);
    assert_eq!(
        setup.advance(ChildEvent::Probed(PathProbe::Failed("EACCES".to_string()))),
        exit(Errcode::NamespacesError("Error stat of /run/netns/: EACCES".to_string()))
    );
    let mut setup = advance_to(ChildStage::Network);
    assert_eq!(
        setup.advance(ChildEvent::Net(NetEvent::Failed("EIO".to_string()))),
        exit(Errcode::NetworkError("EIO".to_string()))
    );
    assert_eq!(setup.net, None);
    let mut setup = advance_to(ChildStage::Firewall);
    assert_eq!(
        setup.advance(ChildEvent::Applied(Err("nft failed".to_string()))),
        exit(Errcode::NetworkError("Can not apply the firewall ruleset: nft failed".to_string()))
    );
    let mut setup = advance_to(ChildStage::CapabilitiesRead);
    assert_eq!(
        setup.advance(ChildEvent::Capabilities(Err("EPERM".to_string()))),
        exit(Errcode::Capabilities(
            "Error while trying to get an handler to thread capabilities: EPERM".to_string()
        ))
    );
    let mut setup = advance_to(ChildStage::CapabilitiesSet);
    assert_eq!(
        setup.advance(ChildEvent::CapabilitiesSet(Err("EPERM".to_string()))),
        exit(Errcode::Capabilities("Error while dropping capabilities: EPERM".to_string()))
    );
    let mut setup = advance_to(ChildStage::Syscalls);
    assert_eq!(
        setup.advance(ChildEvent::Installed(Err(FilterFailure::Load { cause: "EPERM".to_string() }))),
        exit(Errcode::SyscallsError("Error during syscall filter context load: EPERM".to_string()))
    );
    let mut setup = advance_to(ChildStage::Executing);
    assert_eq!(
        setup.advance(ChildEvent::ExecFailed("ENOENT".to_string())),
        exit(Errcode::ContainerError("Error while trying to perform execve: ENOENT".to_string()))
    );
}

#[test]
fn nothing_follows_the_target_command() {
    let unexpected = ChildRequest::Exit {
        code: -1,
        reason: Some(Errcode::ContainerError(
            "Unexpected answer to a request of the contained process".to_string(),
        )),
    };
    let mut setup = advance_to(ChildStage::Executing);
    assert_eq!(setup.advance(ChildEvent::Ran(Ok(()))), unexpected);
    assert_eq!(setup.stage, ChildStage::Exited);
    assert_eq!(setup.advance(ChildEvent::Ran(Ok(()))), unexpected);
    assert_eq!(setup.advance(ChildEvent::Installed(Ok(()))), unexpected);
    assert_eq!(setup.stage, ChildStage::Exited);
}

#[test]
fn answers_that_do_not_fit_end_the_process() {
    let mut setup = advance_to(ChildStage::Hostname);
    assert!(matches!(
        setup.advance(ChildEvent::Applied(Ok(()))),
        ChildRequest::Exit { code: -1, reason: Some(_) }
    ));
    let mut setup = advance_to(ChildStage::Firewall);
    assert!(matches!(
        setup.advance(ChildEvent::Ran(Ok(()))),
        ChildRequest::Exit { code: -1, reason: Some(_) }
    ));
}

#[test]
fn without_a_root_directory_the_root_is_shared() {
    let cfg = ContainerOpts::with_hostname(
        "id".to_string(),
        0,
        1000,
        1000,
        None,
        "test".to_string(),
        vec![],
        "/usr/bin/tor".to_string(),
        "/usr/bin/slirp4netns".to_string(),
        false,
        false,
        "orjail-Ab12".to_string(),
    )
    .unwrap();
    let (mut setup, _) = child(cfg);
    setup.advance(ChildEvent::Ran(Ok(())));
    setup.advance(ChildEvent::Probed(PathProbe::Missing));
    setup.advance(ChildEvent::Ran(Ok(())));
    let mounts = setup.advance(ChildEvent::Ran(Ok(())));
    assert_eq!(mounts, ChildRequest::Run(vec![orjail::mountpoint::remount_root()]));
}

#[test]
fn the_firewall_matches_the_endpoint_of_the_configured_namespace() {
    let cfg = ContainerOpts::with_hostname(
        "id".to_string(),
        0,
        1000,
        1000,
        None,
        "jail".to_string(),
        vec![],
        "/usr/bin/tor".to_string(),
        "/usr/bin/slirp4netns".to_string(),
        false,
        false,
        "orjail-Ab12".to_string(),
    )
    .unwrap();
    let (mut setup, _) = child(cfg);
    let mut created = None;
    let mut applied = None;
    for event in happy_events(false, false) {
        match setup.advance(event) {
            ChildRequest::Net(NetRequest::CreateVeth { name, .. }) => created = Some(name),
            ChildRequest::ApplyRuleset(commands) => applied = Some(commands),
            _ => {}
        }
    }
    assert_eq!(created, Some("jail".to_string()));
    assert_eq!(applied, Some(test_apply_ruleset("jail")));
    assert_ne!(applied, Some(test_apply_ruleset("test")));
}
