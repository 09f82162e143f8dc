use orjail::errors::Errcode;
use orjail::host::{HostCall, MountFlag, MountFlags, Origin, Step};
use orjail::mountpoint::{
    bind_mount_namespace, clean_mounts, create_directory, delete_dir, mount_directory, mount_plan,
    rebase_root, remount_root, set_container_mountpoint, unmount_path,
};

fn flags(bind: bool, private: bool, read_only: bool, recursive: bool) -> MountFlags {
    MountFlags { bind, private, read_only, recursive }
}

fn mount(source: Option<&str>, target: &str, f: MountFlags) -> Step {
    Step {
        call: HostCall::Mount {
            source: source.map(String::from),
            target: target.to_string(),
            fstype: None,
            flags: f,
        },
        origin: Origin::MountDirectory,
    }
}

fn mkdir(path: &str) -> Step {
    Step { call: HostCall::CreateDirAll { path: path.to_string() }, origin: Origin::CreateDirectory }
}

#[test]
fn mount_flags_are_united() {
    let step = mount_directory(
        Some("/a"),
        "/b",
        vec![MountFlag::Bind, MountFlag::Private, MountFlag::Bind],
    );
    assert_eq!(step, mount(Some("/a"), "/b", flags(true, true, false, false)));
    let none = mount_directory(None, "/", vec![]);
    assert_eq!(none, mount(None, "/", flags(false, false, false, false)));
    let all = mount_directory(
        None,
        "/",
        vec![MountFlag::ReadOnly, MountFlag::Recursive, MountFlag::Private, MountFlag::Bind],
    );
    assert_eq!(all, mount(None, "/", flags(true, true, true, true)));
}

#[test]
fn remount_root_is_private_and_recursive() {
    assert_eq!(remount_root(), mount(Some("none"), "/", flags(false, true, false, true)));
}

#[test]
fn single_steps() {
    assert_eq!(create_directory("/x"), mkdir("/x"));
    assert_eq!(
        unmount_path("/x"),
        Step { call: HostCall::Detach { path: "/x".to_string() }, origin: Origin::UnmountPath }
    );
    assert_eq!(
        delete_dir("/x"),
        Step { call: HostCall::RemoveDir { path: "/x".to_string() }, origin: Origin::DeleteDir }
    );
    assert_eq!(
        bind_mount_namespace("/a", "/b"),
        Step {
            call: HostCall::BindTree { from: "/a".to_string(), to: "/b".to_string() },
            origin: Origin::BindMountNamespace,
        }
    );
}

#[test]
fn rebase_plan_in_full() {
    let addpaths = vec![
        ("/srv/data".to_string(), "data".to_string()),
        ("/etc/resolv.conf".to_string(), "etc/resolv.conf".to_string()),
    ];
    let plan = rebase_root("/srv/root", &addpaths, "AAAAAAAAAA", "BBBBBB");
    let staging = "/tmp/orjail.AAAAAAAAAA";
    let expected = vec![
        mount(None, "/", flags(false, true, false, true)),
        mkdir(staging),
        mount(Some("/srv/root"), staging, flags(true, true, false, false)),
        mkdir("/tmp/orjail.AAAAAAAAAA/data"),
        mount(Some("/srv/data"), "/tmp/orjail.AAAAAAAAAA/data", flags(true, true, false, false)),
        mkdir("/tmp/orjail.AAAAAAAAAA/etc/resolv.conf"),
        mount(
            Some("/etc/resolv.conf"),
            "/tmp/orjail.AAAAAAAAAA/etc/resolv.conf",
            flags(true, true, false, false),
        ),
        mkdir("/tmp/orjail.AAAAAAAAAA/oldroot.BBBBBB"),
        Step {
            call: HostCall::PivotRoot {
                new_root: staging.to_string(),
                put_old: "/tmp/orjail.AAAAAAAAAA/oldroot.BBBBBB".to_string(),
            },
            origin: Origin::PivotRoot,
        },
        Step { call: HostCall::Chdir { path: "/".to_string() }, origin: Origin::ChdirRoot },
        Step {
            call: HostCall::Detach { path: "/oldroot.BBBBBB".to_string() },
            origin: Origin::UnmountPath,
        },
        Step {
            call: HostCall::RemoveDir { path: "/oldroot.BBBBBB".to_string() },
            origin: Origin::DeleteDir,
        },
    ];
    assert_eq!(plan.steps, expected);
    assert_eq!(plan.new_root, Some(staging.to_string()));
    assert_eq!(plan.old_root, Some("/tmp/orjail.AAAAAAAAAA/oldroot.BBBBBB".to_string()));
}

#[test]
fn rebase_plan_keeps_to_the_new_root() {
    let addpaths = vec![
        ("/a".to_string(), "x".to_string()),
        ("/b".to_string(), "y/z".to_string()),
        ("/c".to_string(), "w".to_string()),
    ];
    let plan = rebase_root("/srv/root", &addpaths, "0123456789", "abcdef");
    let staging = "/tmp/orjail.0123456789";
    assert_eq!(plan.steps.len(), 8 + 2 * addpaths.len());
    for (i, step) in plan.steps.iter().enumerate() {
        match &step.call {
            HostCall::Mount { source, target, .. } => {
                if i == 0 {
                    assert_eq!(target, "/");
                    assert_eq!(*source, None);
                } else {
                    assert!(target == staging || target.starts_with("/tmp/orjail.0123456789/"));
                    let source = source.clone().unwrap();
                    assert!(source == "/srv/root" || addpaths.iter().any(|(h, _)| *h == source));
                }
            }
            HostCall::CreateDirAll { path } => {
                assert!(path == staging || path.starts_with("/tmp/orjail.0123456789/"));
            }
            HostCall::PivotRoot { new_root, .. } => {
                assert_eq!(new_root, staging);
                assert_eq!(i, plan.steps.len() - 4);
            }
            _ => assert!(i >= plan.steps.len() - 3),
        }
    }
}

#[test]
fn without_a_root_only_the_private_remount_is_planned() {
    let addpaths = vec![("/a".to_string(), "x".to_string())];
    let plan = set_container_mountpoint(&None, &addpaths);
    assert_eq!(plan.steps, vec![remount_root()]);
    assert_eq!(plan.new_root, None);
    assert_eq!(plan.old_root, None);
    assert_eq!(mount_plan(&None, &addpaths, "x", "y"), plan);
}

#[test]
fn with_a_root_the_staging_names_are_fresh() {
    let plan = set_container_mountpoint(&Some("/srv/root".to_string()), &vec![]);
    let staging = plan.new_root.clone().unwrap();
    assert!(staging.starts_with("/tmp/orjail."));
    let suffix = &staging["/tmp/orjail.".len()..];
    assert_eq!(suffix.len(), 10);
    assert!(suffix.chars().all(|c| c.is_ascii_alphanumeric()));
    let old_root = plan.old_root.clone().unwrap();
    let prefix = format!("{}/oldroot.", staging);
    assert!(old_root.starts_with(&prefix));
    let old_suffix = &old_root[prefix.len()..];
    assert_eq!(old_suffix.len(), 6);
    assert!(old_suffix.chars().all(|c| c.is_ascii_alphanumeric()));
    assert_eq!(plan, rebase_root("/srv/root", &vec![], suffix, old_suffix));
    assert_eq!(plan, mount_plan(&Some("/srv/root".to_string()), &vec![], suffix, old_suffix));
}

#[test]
fn cleanup_removes_the_run_directory_and_nothing_else() {
    let hostname = "orjail-Ab12".to_string();
    let remove = Step {
        call: HostCall::RemoveDirAll { path: "/tmp/orjail-Ab12".to_string() },
        origin: Origin::CleanTmp,
    };
    assert_eq!(clean_mounts(&hostname), vec![remove]);
    assert_eq!(
        clean_mounts(&"h".to_string()),
        vec![Step {
            call: HostCall::RemoveDirAll { path: "/tmp/h".to_string() },
            origin: Origin::CleanTmp,
        }]
    );
}

#[test]
fn failures_of_mount_steps_are_mount_errors() {
    let cases = vec![
        (
            mount_directory(Some("/a"), "/b", vec![MountFlag::Bind]),
            false,
            "Cannot mount /a to /b: EPERM",
        ),
        (mount_directory(None, "/", vec![]), false, "Cannot remount /: EPERM"),
        (create_directory("/x"), false, "Cannot create directory /x : EPERM"),
        (unmount_path("/x"), false, "Unable to detach directory /x: EPERM"),
        (delete_dir("/x"), false, "Unable to delete directory /x : EPERM"),
        (bind_mount_namespace("/a", "/b"), true, "Cannot open target path /a: EPERM"),
        (bind_mount_namespace("/a", "/b"), false, "Can not mount /a to /b: EPERM"),
    ];
    for (step, early, text) in cases {
        assert_eq!(step.failure(early, "EPERM"), Some(Errcode::MountsError(text.to_string())));
    }
    let plan = rebase_root("/srv/root", &vec![], "AAAAAAAAAA", "BBBBBB");
    let n = plan.steps.len();
    assert_eq!(
        plan.steps[n - 4].failure(false, "EINVAL"),
        Some(Errcode::MountsError(
            "Can not change root mount point from /tmp/orjail.AAAAAAAAAA/oldroot.BBBBBB to /tmp/orjail.AAAAAAAAAA : EINVAL"
                .to_string()
        ))
    );
    assert_eq!(
        plan.steps[n - 3].failure(false, "ENOENT"),
        Some(Errcode::MountsError("Cannot change cwd to root: ENOENT".to_string()))
    );
    let clean = clean_mounts(&"h".to_string());
    assert_eq!(
        clean[0].failure(false, "ENOENT"),
        Some(Errcode::MountsError("Unable to delete tmp dir: ENOENT".to_string()))
    );
}
