use orjail::errors::Errcode;
use orjail::host::{
    Command, HostCall, MountFlags, NamespaceSet, Origin, PathProbe, Step, WaitOutcome,
};
use orjail::mountpoint::create_directory;
use orjail::namespaces::{
    conf_netns_ifaces, mount_netns, net_conf, net_conf_result, prep_for_fork, run_child,
    run_parent, split_namespace, userns, HelperExit,
};

fn write(path: &str, contents: &str, create: bool, origin: Origin) -> Step {
    Step {
        call: HostCall::WriteFile {
            path: path.to_string(),
            contents: contents.to_string(),
            create,
        },
        origin,
    }
}

fn remount(from: &str, to: &str) -> Step {
    Step {
        call: HostCall::BindTree { from: from.to_string(), to: to.to_string() },
        origin: Origin::RemountNetns,
    }
}

fn ip(args: &[&str]) -> Command {
    Command { program: "ip".to_string(), args: args.iter().map(|a| a.to_string()).collect() }
}

#[test]
fn identity_maps_in_order() {
    let steps = userns(1000, 1001, 0);
    assert_eq!(
        steps,
        vec![
            write("/proc/self/uid_map", "0 1000 1", true, Origin::UidMap),
            write("/proc/self/setgroups", "deny", false, Origin::Setgroups),
            write("/proc/self/gid_map", "0 1001 1", true, Origin::GidMap),
        ]
    );
}

#[test]
fn identity_maps_of_the_largest_ids() {
    let steps = userns(u32::MAX, 0, 65534);
    assert_eq!(steps[0], write("/proc/self/uid_map", "65534 4294967295 1", true, Origin::UidMap));
    assert_eq!(steps[2], write("/proc/self/gid_map", "65534 0 1", true, Origin::GidMap));
}

#[test]
fn identity_map_failures() {
    let steps = userns(1000, 1000, 0);
    let ns = |text: &str| Some(Errcode::NamespacesError(text.to_string()));
    assert_eq!(steps[0].failure(true, "EACCES"), ns("Unable to create UID Map"));
    assert_eq!(steps[0].failure(false, "EPERM"), ns("Unable to open UID Map: EPERM"));
    assert_eq!(steps[1].failure(true, "ENOENT"), None);
    assert_eq!(steps[1].failure(false, "EPERM"), ns("Unable to block setgroups: EPERM"));
    assert_eq!(steps[2].failure(true, "EACCES"), ns("Unable to create GID map"));
    assert_eq!(steps[2].failure(false, "EPERM"), ns("Unable to open GID Map: EPERM"));
}

#[test]
fn netns_area_where_the_host_has_the_directory() {
    let steps = mount_netns(&"orjail-Ab12".to_string(), &PathProbe::Present).unwrap();
    assert_eq!(
        steps,
        vec![
            create_directory("/tmp/orjail-Ab12/netns"),
            remount("/tmp/orjail-Ab12/netns", "/run/netns/"),
            create_directory("/tmp/orjail-Ab12/lib"),
            remount("/tmp/orjail-Ab12/lib", "/var/lib"),
        ]
    );
}

#[test]
fn netns_area_where_the_host_lacks_the_directory() {
    let steps = mount_netns(&"orjail-Ab12".to_string(), &PathProbe::Missing).unwrap();
    assert_eq!(
        steps,
        vec![
            create_directory("/tmp/orjail-Ab12/netns"),
            remount("/tmp/orjail-Ab12/netns", "/run/"),
            create_directory("/tmp/orjail-Ab12/netns"),
            create_directory("/tmp/orjail-Ab12/lib"),
            remount("/tmp/orjail-Ab12/lib", "/var/lib"),
        ]
    );
}

#[test]
fn netns_area_where_the_look_failed() {
    let r = mount_netns(&"h".to_string(), &PathProbe::Failed("EACCES".to_string()));
    assert_eq!(r, Err(Errcode::NamespacesError("Error stat of /run/netns/: EACCES".to_string())));
}

#[test]
fn netns_remount_failure_wraps_the_mount_error() {
    let steps = mount_netns(&"h".to_string(), &PathProbe::Present).unwrap();
    assert_eq!(
        steps[1].failure(true, "ENOENT"),
        Some(Errcode::NamespacesError(
            "Can not remount network namespace inside the container: Error while mounting container fs Cannot open target path /tmp/h/netns: ENOENT"
                .to_string()
        ))
    );
    assert_eq!(
        steps[1].failure(false, "EPERM"),
        Some(Errcode::NamespacesError(
            "Can not remount network namespace inside the container: Error while mounting container fs Can not mount /tmp/h/netns to /run/netns/: EPERM"
                .to_string()
        ))
    );
}

#[test]
fn helper_end_is_judged() {
    let ns = |text: &str| Err(Errcode::NamespacesError(text.to_string()));
    assert_eq!(run_parent(&WaitOutcome::Exited(0)), Ok(()));
    assert_eq!(
        run_parent(&WaitOutcome::Exited(3)),
        ns("Namespace conf error: child exited with 3")
    );
    assert_eq!(
        run_parent(&WaitOutcome::Exited(-1)),
        ns("Namespace conf error: child exited with -1")
    );
    assert_eq!(
        run_parent(&WaitOutcome::Signaled { signal: "SIGABRT".to_string(), core_dumped: true }),
        ns("Child process killed by signal SIGABRT")
    );
    assert_eq!(
        run_parent(&WaitOutcome::Other("Stopped".to_string())),
        ns("Unknown child process status Stopped")
    );
    assert_eq!(
        run_parent(&WaitOutcome::Failed("ECHILD".to_string())),
        ns("Error during wait: ECHILD")
    );
}

#[test]
fn helper_exit_follows_the_configuration() {
    assert_eq!(run_child(&Ok(())), HelperExit::Success);
    assert_eq!(run_child(&Err(Errcode::NetworkError("x".to_string()))), HelperExit::Abort);
    assert_eq!(prep_for_fork(), Ok(()));
}

#[test]
fn namespace_switch_steps() {
    let mounts_only = NamespaceSet {
        mount: true,
        network: false,
        user: false,
        cgroup: false,
        pid: false,
        ipc: false,
        uts: false,
    };
    for read_only in [false, true] {
        let steps = split_namespace(&"test".to_string(), read_only);
        assert_eq!(steps.len(), 4);
        assert_eq!(
            steps[0],
            Step {
                call: HostCall::JoinNetworkNamespace { path: "/run/netns/test".to_string() },
                origin: Origin::JoinNamespace,
            }
        );
        assert_eq!(
            steps[1],
            Step { call: HostCall::Unshare { namespaces: mounts_only }, origin: Origin::UnshareMounts }
        );
        assert_eq!(
            steps[2],
            Step {
                call: HostCall::Mount {
                    source: None,
                    target: "/".to_string(),
                    fstype: None,
                    flags: MountFlags { bind: false, private: true, read_only: false, recursive: true },
                },
                origin: Origin::MountDirectory,
            }
        );
        assert_eq!(
            steps[3],
            Step {
                call: HostCall::Mount {
                    source: Some("test".to_string()),
                    target: "/sys".to_string(),
                    fstype: Some("sysfs".to_string()),
                    flags: MountFlags { bind: false, private: false, read_only, recursive: false },
                },
                origin: Origin::RemountSys,
            }
        );
    }
}

#[test]
fn namespace_switch_failures() {
    let steps = split_namespace(&"test".to_string(), false);
    let ns = |text: &str| Some(Errcode::NamespacesError(text.to_string()));
    assert_eq!(steps[0].failure(true, "ENOENT"), ns("Can not open network namespace: ENOENT"));
    assert_eq!(steps[0].failure(false, "EPERM"), ns("Unable to set target namespace: EPERM"));
    assert_eq!(steps[1].failure(false, "EPERM"), ns("Can not unshare: EPERM"));
    assert_eq!(
        steps[2].failure(false, "EPERM"),
        Some(Errcode::MountsError("Cannot remount /: EPERM".to_string()))
    );
    assert_eq!(steps[3].failure(false, "EBUSY"), ns("Can not remount /sys to namespace: EBUSY"));
}

#[test]
fn interface_configuration_commands() {
    let commands = net_conf(&"test".to_string(), "10.40.50.10", "10.40.50.20", 24);
    assert_eq!(
        commands,
        vec![
            ip(&["link", "set", "lo", "up"]),
            ip(&["link", "set", "test_peer", "up"]),
            ip(&["addr", "add", "10.40.50.20/24", "dev", "test_peer"]),
            ip(&["route", "add", "default", "via", "10.40.50.10", "dev", "test_peer"]),
        ]
    );
    let other = net_conf(&"jail".to_string(), "192.168.0.1", "192.168.0.2", 8);
    assert_eq!(other[2], ip(&["addr", "add", "192.168.0.2/8", "dev", "jail_peer"]));
}

#[test]
fn helper_plan_joins_then_configures() {
    let plan = conf_netns_ifaces(&"test".to_string(), "10.40.50.10", "10.40.50.20", 24, true);
    assert_eq!(plan.steps, split_namespace(&"test".to_string(), true));
    assert_eq!(plan.commands, net_conf(&"test".to_string(), "10.40.50.10", "10.40.50.20", 24));
}

#[test]
fn each_invocation_of_the_interface_configuration_is_judged() {
    let net = |text: &str| Err(Errcode::NetworkError(text.to_string()));
    assert_eq!(net_conf_result(&WaitOutcome::Exited(0)), Ok(()));
    assert_eq!(
        net_conf_result(&WaitOutcome::Exited(2)),
        net("Interface configuration exited with 2")
    );
    assert_eq!(
        net_conf_result(&WaitOutcome::Signaled { signal: "9".to_string(), core_dumped: false }),
        net("Interface configuration killed by signal 9")
    );
    assert_eq!(
        net_conf_result(&WaitOutcome::Other("stopped".to_string())),
        net("Unknown status of the interface configuration stopped")
    );
    assert_eq!(
        net_conf_result(&WaitOutcome::Failed("No such file or directory".to_string())),
        net("No such file or directory")
    );
}

#[test]
fn the_netns_area_lies_in_the_directory_that_cleanup_removes() {
    for probe in [PathProbe::Present, PathProbe::Missing] {
        let steps = mount_netns(&"orjail-Ab12".to_string(), &probe).unwrap();
        let removed = orjail::mountpoint::clean_mounts(&"orjail-Ab12".to_string());
        assert_eq!(removed.len(), 1);
        let dir = match &removed[0].call {
            HostCall::RemoveDirAll { path } => path.clone(),
            other => panic!("unexpected step {:?}", other),
        };
        for step in steps {
            match step.call {
                HostCall::CreateDirAll { path } => assert!(path.starts_with(&format!("{}/", dir))),
                HostCall::BindTree { from, .. } => assert!(from.starts_with(&format!("{}/", dir))),
                other => panic!("unexpected step {:?}", other),
            }
        }
    }
}
