use orjail::cli::{parse_args, Args};
use orjail::config::ContainerOpts;
use orjail::container::{
    check_binary, check_compatibility, parse_addpath, wait_child, Container, HostFacts, HostInfo,
};
use orjail::errors::Errcode;
use orjail::host::{HostCall, Origin, Step, WaitOutcome};

fn args() -> Args {
    Args {
        debug: false,
        command: "/bin/sh -c id".to_string(),
        uid: 0,
        real_uid: 0,
        real_gid: 0,
        addpaths: vec!["/srv/data:/data".to_string()],
        mount_dir: "/srv/root".to_string(),
        namespace: "test".to_string(),
        tor: "".to_string(),
        slirp4netns: "".to_string(),
        disable_syscall: false,
        disable_capabilities: false,
    }
}

fn facts() -> HostFacts {
    HostFacts {
        uid: 1000,
        gid: 1001,
        canonical: vec!["/mnt/srv/data".to_string()],
        tor: Ok("/usr/bin/tor".to_string()),
        slirp: Ok("/usr/bin/slirp4netns".to_string()),
        mount_dir_is_dir: true,
    }
}

fn host(release: &str, machine: &str, byte: u8) -> HostInfo {
    HostInfo { release: release.to_string(), machine: machine.to_string(), userns_clone: Ok(byte) }
}

#[test]
fn arguments_need_a_command() {
    assert_eq!(parse_args(args()), Ok(args()));
    let mut empty = args();
    empty.command = "".to_string();
    assert_eq!(parse_args(empty), Err(Errcode::ArgumentInvalid("command")));
}

#[test]
fn recent_kernels_on_x86_64_are_compatible() {
    for release in ["4.8", "4.8.0", "4.10.3", "4.19.0-25-amd64", "5.15.0-91-generic", "6.18.44-fc", "10.0.1"] {
        assert_eq!(check_compatibility(&host(release, "x86_64", b'1')), Ok(()));
    }
}

#[test]
fn old_kernels_are_not_supported() {
    for release in ["4.7.9", "4.0.0", "3.19.0", "2.6.32-754", "0.99", "4.07.1"] {
        assert_eq!(
            check_compatibility(&host(release, "x86_64", b'1')),
            Err(Errcode::NotSupported(0))
        );
    }
}

#[test]
fn releases_that_are_no_version_are_refused() {
    for release in ["", "abc", "5", "5.", ".5", "5-15", "v5.15", "5.x"] {
        assert_eq!(
            check_compatibility(&host(release, "x86_64", b'1')),
            Err(Errcode::ContainerError("Can not parse kernel release version".to_string()))
        );
    }
}

#[test]
fn other_architectures_are_not_supported() {
    for machine in ["aarch64", "i686", "", "x86_64 "] {
        assert_eq!(
            check_compatibility(&host("6.1.0", machine, b'1')),
            Err(Errcode::NotSupported(1))
        );
    }
    assert_eq!(check_compatibility(&host("3.0.0", "aarch64", b'0')), Err(Errcode::NotSupported(0)));
}

#[test]
fn unprivileged_namespaces_have_to_be_enabled() {
    for byte in [b'0', b'2', 0, b'\n'] {
        assert_eq!(
            check_compatibility(&host("6.1.0", "x86_64", byte)),
            Err(Errcode::ContainerError("Unprivileged namespaces disabled".to_string()))
        );
    }
    let unreadable = HostInfo {
        release: "6.1.0".to_string(),
        machine: "x86_64".to_string(),
        userns_clone: Err("No such file or directory".to_string()),
    };
    assert_eq!(
        check_compatibility(&unreadable),
        Err(Errcode::ContainerError(
            "Can not read /proc/sys/kernel/unprivileged_userns_clone: No such file or directory"
                .to_string()
        ))
    );
}

#[test]
fn binds_are_split_at_the_colon() {
    assert_eq!(
        parse_addpath("/srv/data:/data"),
        Ok(("/srv/data".to_string(), "data".to_string()))
    );
    assert_eq!(parse_addpath("rel:/a/b"), Ok(("rel".to_string(), "a/b".to_string())));
    assert_eq!(parse_addpath(":/a"), Ok(("".to_string(), "a".to_string())));
    assert_eq!(parse_addpath("/h:/"), Ok(("/h".to_string(), "".to_string())));
    assert_eq!(parse_addpath("/h:/c:ro"), Ok(("/h".to_string(), "c".to_string())));
    for bad in ["", "/srv/data", "/h:", "/h:c", "/h::/c"] {
        assert_eq!(parse_addpath(bad), Err(Errcode::ArgumentInvalid("add")));
    }
}

#[test]
fn binaries_are_looked_up_or_checked() {
    let none = "".to_string();
    let explicit = "/opt/tor".to_string();
    assert_eq!(
        check_binary(&none, "tor", &Ok("/usr/bin/tor".to_string())),
        Ok("/usr/bin/tor".to_string())
    );
    assert_eq!(
        check_binary(&explicit, "tor", &Ok("".to_string())),
        Ok("/opt/tor".to_string())
    );
    assert_eq!(
        check_binary(&none, "tor", &Err("cannot find binary path".to_string())),
        Err(Errcode::ContainerError("Can not find tor in PATH: cannot find binary path".to_string()))
    );
    assert_eq!(
        check_binary(&explicit, "slirp4netns", &Err("ENOENT".to_string())),
        Err(Errcode::ContainerError(
            "Can not find slirp4netns at path /opt/tor: ENOENT".to_string()
        ))
    );
}

#[test]
fn container_is_built_from_arguments_and_facts() {
    let container = Container::with_hostname(args(), facts(), "orjail-Ab12".to_string()).unwrap();
    assert_eq!(container.child, None);
    assert_eq!(
        container.config,
        ContainerOpts {
            path: "/bin/sh".to_string(),
            argv: vec!["/bin/sh".to_string(), "-c".to_string(), "id".to_string()],
            uid: 0,
            real_uid: 1000,
            real_gid: 1001,
            mount_dir: Some("/srv/root".to_string()),
            hostname: "orjail-Ab12".to_string(),
            namespace: "test".to_string(),
            addpaths: vec![("/mnt/srv/data".to_string(), "data".to_string())],
            slirp_path: "/usr/bin/slirp4netns".to_string(),
            slirp_process: None,
            tor_path: "/usr/bin/tor".to_string(),
            tor_process: None,
            disable_syscall: false,
            disable_capabilities: false,
        }
    );
}

#[test]
fn container_gets_a_fresh_hostname() {
    let container = Container::new(args(), facts()).unwrap();
    assert!(container.config.hostname.starts_with("orjail-"));
    assert_eq!(container.config.hostname.len(), 11);
    let same = Container::with_hostname(args(), facts(), container.config.hostname.clone());
    assert_eq!(same, Ok(container));
}

#[test]
fn explicit_ids_and_switches_are_kept() {
    let mut a = args();
    a.uid = 33;
    a.real_uid = 2000;
    a.real_gid = 3000;
    a.mount_dir = "".to_string();
    a.addpaths = vec![];
    a.tor = "/opt/tor".to_string();
    a.disable_syscall = true;
    a.disable_capabilities = true;
    let mut f = facts();
    f.canonical = vec![];
    f.mount_dir_is_dir = false;
    let container = Container::with_hostname(a, f, "h".to_string()).unwrap();
    assert_eq!(container.config.uid, 33);
    assert_eq!(container.config.real_uid, 2000);
    assert_eq!(container.config.real_gid, 3000);
    assert_eq!(container.config.mount_dir, None);
    assert!(container.config.addpaths.is_empty());
    assert_eq!(container.config.tor_path, "/opt/tor");
    assert!(container.config.disable_syscall);
    assert!(container.config.disable_capabilities);
}

#[test]
fn a_mount_directory_that_does_not_exist_is_refused() {
    let mut f = facts();
    f.mount_dir_is_dir = false;
    assert_eq!(
        Container::with_hostname(args(), f, "h".to_string()),
        Err(Errcode::ArgumentInvalid("mount"))
    );
    let mut f = facts();
    f.mount_dir_is_dir = false;
    assert_eq!(Container::new(args(), f), Err(Errcode::ArgumentInvalid("mount")));
}

#[test]
fn invalid_arguments_are_refused_in_order() {
    let build = |a: Args, f: HostFacts| Container::with_hostname(a, f, "h".to_string());
    let mut a = args();
    a.addpaths = vec!["nocolon".to_string()];
    assert_eq!(build(a, facts()), Err(Errcode::ArgumentInvalid("add")));
    let mut f = facts();
    f.canonical = vec![];
    assert_eq!(build(args(), f), Err(Errcode::ArgumentInvalid("add")));
    let mut f = facts();
    f.tor = Err("not found".to_string());
    f.mount_dir_is_dir = false;
    assert_eq!(
        build(args(), f),
        Err(Errcode::ContainerError("Can not find tor in PATH: not found".to_string()))
    );
    let mut f = facts();
    f.slirp = Err("not found".to_string());
    assert_eq!(
        build(args(), f),
        Err(Errcode::ContainerError("Can not find slirp4netns in PATH: not found".to_string()))
    );
    for command in ["", "   ", "a\0b"] {
        let mut a = args();
        a.command = command.to_string();
        assert_eq!(build(a, facts()), Err(Errcode::ArgumentInvalid("command")));
    }
    for namespace in ["", ".", "..", "a/b"] {
        let mut a = args();
        a.namespace = namespace.to_string();
        assert_eq!(build(a, facts()), Err(Errcode::ArgumentInvalid("namespace")));
    }
    for pair in ["/h:/../etc", "/h:/a/../b", "/h://etc"] {
        let mut a = args();
        a.addpaths = vec![pair.to_string()];
        assert_eq!(build(a, facts()), Err(Errcode::ArgumentInvalid("add")));
    }
}

#[test]
fn creation_is_recorded() {
    let mut container = Container::with_hostname(args(), facts(), "h".to_string()).unwrap();
    assert_eq!(container.create(Err("EPERM".to_string())), Err(Errcode::ChildProcessError(0)));
    assert_eq!(container.child, None);
    assert_eq!(container.create(Ok(4242)), Ok(()));
    assert_eq!(container.child, Some(4242));
}

#[test]
fn cleanup_of_a_container() {
    let container = Container::with_hostname(args(), facts(), "orjail-Ab12".to_string()).unwrap();
    let steps = container.clean_exit();
    assert_eq!(
        steps,
        vec![Step {
            call: HostCall::RemoveDirAll { path: "/tmp/orjail-Ab12".to_string() },
            origin: Origin::CleanTmp,
        }]
    );
    for step in &steps {
        assert!(!format!("{:?}", step).contains("/srv/root"));
    }
}

#[test]
fn the_end_of_the_contained_process_is_judged() {
    let err = |text: &str| Err(Errcode::ContainerError(text.to_string()));
    assert_eq!(wait_child(Some(7), &WaitOutcome::Exited(0)), Ok(()));
    assert_eq!(wait_child(Some(7), &WaitOutcome::Exited(1)), err("Child exited with status 1"));
    assert_eq!(wait_child(Some(7), &WaitOutcome::Exited(255)), err("Child exited with status 255"));
    assert_eq!(
        wait_child(Some(7), &WaitOutcome::Signaled { signal: "SIGSEGV".to_string(), core_dumped: true }),
        err("Child killed by signal SIGSEGV")
    );
    assert_eq!(
        wait_child(Some(7), &WaitOutcome::Other("Stopped".to_string())),
        err("Unknown child process status Stopped")
    );
    assert_eq!(
        wait_child(Some(7), &WaitOutcome::Failed("ECHILD".to_string())),
        err("Error while waiting for child to finish: ECHILD")
    );
    assert_eq!(wait_child(None, &WaitOutcome::Exited(1)), Ok(()));
}

#[test]
fn companions_are_recorded_in_the_configuration() {
    let mut container = Container::with_hostname(args(), facts(), "h".to_string()).unwrap();
    container.config.spawn_slirp(99);
    let slirp = container.config.slirp_process.clone().unwrap();
    assert_eq!(slirp, orjail::slirp::SlirpProcess::new(99, &"/usr/bin/slirp4netns".to_string()));
    let r = container.config.spawn_tor(orjail::tor::DataDirProbe::File, false);
    assert_eq!(r, Err(Errcode::TorError("Tor data dir /tmp/tor exists as file".to_string())));
    assert_eq!(container.config.tor_process, None);
    assert_eq!(container.config.spawn_tor(orjail::tor::DataDirProbe::Missing, false), Ok(()));
    assert_eq!(
        container.config.tor_process,
        Some(
            orjail::tor::TorProcess::new(
                "/tmp/tor",
                &"/usr/bin/tor".to_string(),
                orjail::tor::DataDirProbe::Missing,
                false
            )
            .unwrap()
        )
    );
}
