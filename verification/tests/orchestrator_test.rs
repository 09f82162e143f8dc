use orjail::child::generate_child_process;
use orjail::cli::Args;
use orjail::container::{start, Container, HostFacts, HostInfo};
use orjail::errors::{exit_with_retcode, Errcode};
use orjail::host::{Command, WaitOutcome};
use orjail::orchestrator::{Event, Phase, Request, Runtime};
use orjail::slirp::SlirpProcess;
use orjail::tor::{DataDirProbe, TorProcess};

fn args() -> Args {
    Args {
        debug: false,
        command: "/bin/sh -c id".to_string(),
        uid: 0,
        real_uid: 0,
        real_gid: 0,
        addpaths: vec!["/srv/data:/data".to_string(), "/srv/x:/x/y".to_string()],
        mount_dir: "/srv/root".to_string(),
        namespace: "test".to_string(),
        tor: "".to_string(),
        slirp4netns: "/opt/slirp4netns".to_string(),
        disable_syscall: false,
        disable_capabilities: false,
    }
}

fn host() -> HostInfo {
    HostInfo {
        release: "6.1.0-18-amd64".to_string(),
        machine: "x86_64".to_string(),
        userns_clone: Ok(b'1'),
    }
}

fn facts() -> HostFacts {
    HostFacts {
        uid: 1000,
        gid: 1000,
        canonical: vec!["/srv/data".to_string(), "/srv/x".to_string()],
        tor: Ok("/usr/bin/tor".to_string()),
        slirp: Ok("".to_string()),
        mount_dir_is_dir: true,
    }
}

fn tor_command() -> Command {
    Command {
        program: "/usr/bin/tor".to_string(),
        args: vec!["-f".to_string(), "/tmp/tor/torrc".to_string()],
    }
}

fn until_waiting() -> Vec<Event> {
    vec![
        Event::Host(host()),
        Event::Facts(facts()),
        Event::Cloned(Ok(4242)),
        Event::Spawned(Ok(4250)),
        Event::TorProbed { probe: DataDirProbe::Missing, torrc_exists: false },
        Event::Ran(Ok(())),
        Event::Spawned(Ok(4260)),
    ]
}

fn advance_to(phase: Phase) -> Runtime {
    let (mut runtime, _) = start(args());
    for event in until_waiting() {
        if runtime.phase == phase {
            break;
        }
        runtime.advance(event);
    }
    assert_eq!(runtime.phase, phase);
    runtime
}

fn drain(runtime: &mut Runtime, first: Request) -> Vec<Request> {
    let mut requests = vec![first];
    loop {
        let event = match requests.last().unwrap() {
            Request::Finish | Request::Abort(_) => break,
            Request::Run(_) => Event::Ran(Ok(())),
            Request::Kill { .. } => Event::Killed,
            other => panic!("unexpected request {:?}", other),
        };
        requests.push(runtime.advance(event));
    }
    requests
}

#[test]
fn a_run_that_goes_well() {
    let (mut runtime, first) = start(args());
    assert_eq!(first, Request::ProbeHost);
    let hostname = runtime.hostname.clone();
    assert!(hostname.starts_with("orjail-"));
    let container = Container::with_hostname(args(), facts(), hostname.clone()).unwrap();
    let tor = TorProcess::new("/tmp/tor", &"/usr/bin/tor".to_string(), DataDirProbe::Missing, false)
        .unwrap();
    let mut events = until_waiting();
    events.push(Event::Exited(WaitOutcome::Exited(0)));
    events.push(Event::Ran(Ok(())));
    events.push(Event::Killed);
    events.push(Event::Killed);
    let expected = vec![
        Request::ProbeFacts {
            binds: vec!["/srv/data".to_string(), "/srv/x".to_string()],
            tor: "".to_string(),
            slirp: "/opt/slirp4netns".to_string(),
            mount_dir: "/srv/root".to_string(),
        },
        Request::Clone(generate_child_process(false)),
        Request::Spawn(SlirpProcess::new(4242, &"/opt/slirp4netns".to_string()).command),
        Request::ProbeTor {
            data_directory: "/tmp/tor".to_string(),
            torrc: "/tmp/tor/torrc".to_string(),
        },
        Request::Run(tor.steps),
        Request::Spawn(tor_command()),
        Request::Wait { pid: 4242 },
        Request::Run(container.clean_exit()),
        Request::Kill { pid: 4250 },
        Request::Kill { pid: 4260 },
        Request::Finish,
    ];
    let mut requests = Vec::new();
    for event in events {
        requests.push(runtime.advance(event));
    }
    assert_eq!(requests, expected);
    assert_eq!(runtime.phase, Phase::Finished);
    assert_eq!(runtime.failure, None);
    assert_eq!(runtime.helper, None);
    assert_eq!(runtime.proxy, None);
    assert_eq!(exit_with_retcode(Ok(())), 0);
}

#[test]
fn the_proxy_is_started_with_its_configuration_in_place() {
    let mut runtime = advance_to(Phase::ProbingProxy);
    let prepare = runtime.advance(Event::TorProbed { probe: DataDirProbe::Missing, torrc_exists: false });
    match prepare {
        Request::Run(steps) => {
            assert_eq!(steps.len(), 2);
            assert_eq!(
                steps[1].call,
                orjail::host::HostCall::WriteFile {
                    path: "/tmp/tor/torrc".to_string(),
                    contents: orjail::tor::TORRC_CONTENTS.to_string(),
                    create: true,
                }
            );
        }
        other => panic!("unexpected request {:?}", other),
    }
    assert_eq!(runtime.advance(Event::Ran(Ok(()))), Request::Spawn(tor_command()));
    assert_eq!(runtime.advance(Event::Spawned(Ok(4260))), Request::Wait { pid: 4242 });
    assert_eq!(runtime.proxy, Some(4260));
}

#[test]
fn a_missing_mount_directory_fails_before_anything_is_created() {
    let (mut runtime, _) = start(args());
    let mut requests = vec![runtime.advance(Event::Host(host()))];
    let mut f = facts();
    f.mount_dir_is_dir = false;
    requests.push(runtime.advance(Event::Facts(f)));
    assert!(matches!(requests[0], Request::ProbeFacts { .. }));
    assert_eq!(requests[1], Request::Abort(Errcode::ArgumentInvalid("mount")));
    assert_eq!(runtime.phase, Phase::Finished);
    assert_eq!(runtime.container, None);
    assert_eq!(exit_with_retcode(Err(Errcode::ArgumentInvalid("mount"))), 1);
}

#[test]
fn an_unfit_host_fails_at_once() {
    let (mut runtime, _) = start(args());
    let mut old = host();
    old.release = "4.4.0".to_string();
    assert_eq!(runtime.advance(Event::Host(old)), Request::Abort(Errcode::NotSupported(0)));
    assert_eq!(runtime.phase, Phase::Finished);

    let (mut runtime, _) = start(args());
    let mut other = host();
    other.machine = "aarch64".to_string();
    assert_eq!(runtime.advance(Event::Host(other)), Request::Abort(Errcode::NotSupported(1)));
}

#[test]
fn binds_that_cannot_be_split_fail_before_the_host_is_asked() {
    let mut a = args();
    a.addpaths = vec!["/srv/data".to_string()];
    let (mut runtime, _) = start(a);
    assert_eq!(
        runtime.advance(Event::Host(host())),
        Request::Abort(Errcode::ArgumentInvalid("add"))
    );
}

#[test]
fn a_crash_of_the_contained_process_fails_the_run_after_cleanup() {
    let mut runtime = advance_to(Phase::Waiting);
    let container = Container::with_hostname(args(), facts(), runtime.hostname.clone()).unwrap();
    let first = runtime.advance(Event::Exited(WaitOutcome::Exited(139)));
    let crash = Errcode::ContainerError("Child exited with status 139".to_string());
    assert_eq!(runtime.failure, Some(crash.clone()));
    let requests = drain(&mut runtime, first);
    assert_eq!(
        requests,
        vec![
            Request::Run(container.clean_exit()),
            Request::Kill { pid: 4250 },
            Request::Kill { pid: 4260 },
            Request::Abort(crash.clone()),
        ]
    );
    assert_eq!(runtime.phase, Phase::Finished);
    assert_eq!((runtime.helper, runtime.proxy), (None, None));
    assert_eq!(exit_with_retcode(Err(crash)), 1);
}

#[test]
fn a_killed_contained_process_fails_the_run() {
    let mut runtime = advance_to(Phase::Waiting);
    let first = runtime.advance(Event::Exited(WaitOutcome::Signaled {
        signal: "SIGKILL".to_string(),
        core_dumped: false,
    }));
    let requests = drain(&mut runtime, first);
    assert_eq!(requests.len(), 4);
    assert_eq!(
        requests.last(),
        Some(&Request::Abort(Errcode::ContainerError("Child killed by signal SIGKILL".to_string())))
    );
}

#[test]
fn a_failed_creation_is_cleaned_up() {
    let mut runtime = advance_to(Phase::Creating);
    let container = Container::with_hostname(args(), facts(), runtime.hostname.clone()).unwrap();
    let first = runtime.advance(Event::Cloned(Err("EPERM".to_string())));
    let requests = drain(&mut runtime, first);
    assert_eq!(
        requests,
        vec![
            Request::Run(container.clean_exit()),
            Request::Abort(Errcode::ChildProcessError(0)),
        ]
    );
}

#[test]
fn a_companion_that_does_not_start_stops_the_container() {
    let mut runtime = advance_to(Phase::StartingHelper);
    let first = runtime.advance(Event::Spawned(Err("ENOENT".to_string())));
    let requests = drain(&mut runtime, first);
    assert_eq!(requests.len(), 3);
    assert_eq!(requests[0], Request::Kill { pid: 4242 });
    assert!(matches!(requests[1], Request::Run(_)));
    assert_eq!(
        requests[2],
        Request::Abort(Errcode::SlirpError("Error while spawning slirp: ENOENT".to_string()))
    );

    let mut runtime = advance_to(Phase::StartingProxy);
    let first = runtime.advance(Event::Spawned(Err("ENOENT".to_string())));
    let requests = drain(&mut runtime, first);
    assert_eq!(requests.len(), 4);
    assert_eq!(requests[0], Request::Kill { pid: 4242 });
    assert!(matches!(requests[1], Request::Run(_)));
    assert_eq!(requests[2], Request::Kill { pid: 4250 });
    assert_eq!(
        requests[3],
        Request::Abort(Errcode::TorError("Error while spawning tor: ENOENT".to_string()))
    );

    let mut runtime = advance_to(Phase::ProbingProxy);
    let first = runtime.advance(Event::TorProbed { probe: DataDirProbe::File, torrc_exists: false });
    let requests = drain(&mut runtime, first);
    assert_eq!(requests[0], Request::Kill { pid: 4242 });
    assert_eq!(
        requests.last(),
        Some(&Request::Abort(Errcode::TorError("Tor data dir /tmp/tor exists as file".to_string())))
    );
}

#[test]
fn a_failed_cleanup_is_reported_only_if_nothing_failed_before() {
    let busy = Errcode::MountsError("Unable to delete tmp dir: EBUSY".to_string());
    let mut runtime = advance_to(Phase::Waiting);
    runtime.advance(Event::Exited(WaitOutcome::Exited(0)));
    assert_eq!(runtime.phase, Phase::Cleaning);
    let after = runtime.advance(Event::Ran(Err(busy.clone())));
    let requests = drain(&mut runtime, after);
    assert_eq!(requests.last(), Some(&Request::Abort(busy.clone())));

    let mut runtime = advance_to(Phase::Waiting);
    runtime.advance(Event::Exited(WaitOutcome::Exited(2)));
    let after = runtime.advance(Event::Ran(Err(busy)));
    let requests = drain(&mut runtime, after);
    assert_eq!(
        requests.last(),
        Some(&Request::Abort(Errcode::ContainerError("Child exited with status 2".to_string())))
    );
}

#[test]
fn every_run_ends_after_a_bounded_number_of_steps() {
    let events = || {
        vec![
            Event::Killed,
            Event::Ran(Ok(())),
            Event::Cloned(Ok(1)),
            Event::Spawned(Ok(2)),
            Event::Exited(WaitOutcome::Exited(0)),
        ]
    };
    for phase in [
        Phase::CheckingHost,
        Phase::Building,
        Phase::Creating,
        Phase::StartingHelper,
        Phase::ProbingProxy,
        Phase::PreparingProxy,
        Phase::StartingProxy,
        Phase::Waiting,
    ] {
        for (i, _) in events().iter().enumerate() {
            let mut runtime = advance_to(phase);
            let created = runtime.container.is_some();
            let mut cleaned = false;
            let mut steps = 0;
            let mut event = events().remove(i);
            loop {
                let request = runtime.advance(event);
                steps += 1;
                assert!(steps <= 13);
                match request {
                    Request::Finish | Request::Abort(_) => break,
                    Request::Run(_) if runtime.phase == Phase::Cleaning => {
                        cleaned = true;
                        event = Event::Ran(Ok(()));
                    }
                    Request::Run(_) => event = Event::Ran(Ok(())),
                    Request::Kill { .. } => event = Event::Killed,
                    Request::Wait { .. } => event = Event::Exited(WaitOutcome::Exited(0)),
                    Request::Spawn(_) => event = Event::Spawned(Ok(77)),
                    Request::ProbeTor { .. } => {
                        event = Event::TorProbed { probe: DataDirProbe::Directory, torrc_exists: true }
                    }
                    Request::Clone(_) => event = Event::Cloned(Ok(5)),
                    Request::ProbeFacts { .. } => event = Event::Facts(facts()),
                    Request::ProbeHost => event = Event::Host(host()),
                }
            }
            assert_eq!(runtime.phase, Phase::Finished);
            assert_eq!((runtime.helper, runtime.proxy), (None, None));
            if created {
                assert!(cleaned);
            }
        }
    }
}
