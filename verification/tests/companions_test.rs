use orjail::errors::Errcode;
use orjail::host::{Command, HostCall, Origin, Step};
use orjail::ipc::{
    recv_boolean, recv_failed, recv_u32, send_boolean, send_failed, send_u32, socketpair_failed,
};
use orjail::resources::{
    clean_cgroups, clean_failed, restrict_failed, restrict_resources, LimitStage, ResourceLimits,
};
use orjail::slirp::SlirpProcess;
use orjail::tor::{DataDirProbe, TorProcess, TORRC_CONTENTS};

fn tor_command() -> Command {
    Command {
        program: "/usr/bin/tor".to_string(),
        args: vec!["-f".to_string(), "/tmp/tor/torrc".to_string()],
    }
}

fn write_torrc() -> Step {
    Step {
        call: HostCall::WriteFile {
            path: "/tmp/tor/torrc".to_string(),
            contents: TORRC_CONTENTS.to_string(),
            create: true,
        },
        origin: Origin::TorConfig,
    }
}

fn create_data_dir() -> Step {
    Step { call: HostCall::CreateDirAll { path: "/tmp/tor".to_string() }, origin: Origin::TorDataDir }
}

#[test]
fn slirp_is_told_the_contained_process() {
    let process = SlirpProcess::new(4242, &"/usr/bin/slirp4netns".to_string());
    assert_eq!(process.pid, 4242);
    assert_eq!(
        process.command,
        Command {
            program: "/usr/bin/slirp4netns".to_string(),
            args: vec![
                "--configure".to_string(),
                "--mtu=65520".to_string(),
                "--disable-host-loopback".to_string(),
                "4242".to_string(),
                "tap0".to_string(),
            ],
        }
    );
    assert_eq!(
        SlirpProcess::spawn_failed("ENOENT"),
        Errcode::SlirpError("Error while spawning slirp: ENOENT".to_string())
    );
}

#[test]
fn tor_on_first_use_creates_directory_and_configuration() {
    let tor = "/usr/bin/tor".to_string();
    let process = TorProcess::new("/tmp/tor", &tor, DataDirProbe::Missing, false).unwrap();
    assert_eq!(process.steps, vec![create_data_dir(), write_torrc()]);
    assert_eq!(process.command, tor_command());
    assert_eq!(process.torrc, "/tmp/tor/torrc");
}

#[test]
fn tor_never_overwrites_a_configuration() {
    let tor = "/usr/bin/tor".to_string();
    let process = TorProcess::new("/tmp/tor", &tor, DataDirProbe::Directory, true).unwrap();
    assert!(process.steps.is_empty());
    assert_eq!(process.command, tor_command());
    let process = TorProcess::new("/tmp/tor", &tor, DataDirProbe::Directory, false).unwrap();
    assert_eq!(process.steps, vec![write_torrc()]);
    let process = TorProcess::new("/tmp/tor", &tor, DataDirProbe::Missing, true).unwrap();
    assert_eq!(process.steps, vec![create_data_dir()]);
}

#[test]
fn tor_refuses_bad_data_directories() {
    let tor = "/usr/bin/tor".to_string();
    assert_eq!(
        TorProcess::new("tmp/tor", &tor, DataDirProbe::Missing, false),
        Err(Errcode::TorError("Data directory not absolute: tmp/tor".to_string()))
    );
    assert_eq!(
        TorProcess::new("", &tor, DataDirProbe::Missing, false),
        Err(Errcode::TorError("Data directory not absolute: ".to_string()))
    );
    assert_eq!(
        TorProcess::new("/tmp/tor", &tor, DataDirProbe::File, false),
        Err(Errcode::TorError("Tor data dir /tmp/tor exists as file".to_string()))
    );
    assert_eq!(
        TorProcess::new("tmp/tor", &tor, DataDirProbe::File, false),
        Err(Errcode::TorError("Data directory not absolute: tmp/tor".to_string()))
    );
}

#[test]
fn tor_configuration_fixes_addresses_and_ports() {
    assert!(TORRC_CONTENTS.starts_with("VirtualAddrNetwork 10.40.0.0/16\n"));
    for line in [
        "AutomapHostsOnResolve 1\n",
        "TransPort 10.40.50.10:9050\n",
        "DNSPort 10.40.50.10:5353\n",
        "SocksPort 9040\n",
        "RunAsDaemon 1\n",
        "DataDirectory /var/lib/tor\n",
    ] {
        assert!(TORRC_CONTENTS.contains(line));
    }
    assert_eq!(TORRC_CONTENTS.lines().count(), 13);
}

#[test]
fn tor_failures() {
    assert_eq!(create_data_dir().failure(false, "EACCES"), None);
    assert_eq!(
        write_torrc().failure(true, "EACCES"),
        Some(Errcode::TorError(
            "Can not write default configuration /tmp/tor/torrc: EACCES".to_string()
        ))
    );
    assert_eq!(
        TorProcess::spawn_failed("ENOENT"),
        Errcode::TorError("Error while spawning tor: ENOENT".to_string())
    );
}

#[test]
fn booleans_travel_in_one_byte() {
    assert_eq!(send_boolean(true), [1]);
    assert_eq!(send_boolean(false), [0]);
    assert!(recv_boolean(&[1]));
    assert!(!recv_boolean(&[0]));
    assert!(!recv_boolean(&[2]));
    for b in [true, false] {
        assert_eq!(recv_boolean(&send_boolean(b)), b);
    }
}

#[test]
fn numbers_travel_most_significant_byte_first() {
    assert_eq!(send_u32(0x0102_0304), [1, 2, 3, 4]);
    assert_eq!(send_u32(0), [0, 0, 0, 0]);
    assert_eq!(send_u32(u32::MAX), [255, 255, 255, 255]);
    assert_eq!(recv_u32(&[1, 2, 3, 4]), 0x0102_0304);
    assert_eq!(recv_u32(&[255, 255, 255, 255]), u32::MAX);
    for value in [0u32, 1, 255, 256, 65535, 65536, 0xdead_beef, u32::MAX] {
        assert_eq!(send_u32(value), value.to_be_bytes());
        assert_eq!(recv_u32(&send_u32(value)), value);
    }
}

#[test]
fn socket_failures() {
    assert_eq!(
        socketpair_failed("EMFILE"),
        Errcode::SocketError("Can not generate socket pair: EMFILE".to_string())
    );
    assert_eq!(
        send_failed("true", "4", "EPIPE"),
        Errcode::SocketError("Can not send true to fd 4: EPIPE".to_string())
    );
    assert_eq!(
        recv_failed("4", "EBADF"),
        Errcode::SocketError("Can not read value from fd 4: EBADF".to_string())
    );
}

#[test]
fn limits_of_a_container() {
    let limits = restrict_resources(&"orjail-Ab12".to_string(), 4242).unwrap();
    assert_eq!(
        limits,
        ResourceLimits {
            cgroup: "orjail-Ab12".to_string(),
            task: 4242,
            cpu_shares: 256,
            kernel_memory_limit: 1024 * 1024 * 1024,
            memory_hard_limit: 1024 * 1024 * 1024,
            maximum_number_of_processes: 256,
            blkio_weight: 50,
            nofile: 256,
        }
    );
    assert_eq!(
        restrict_resources(&"h".to_string(), -1),
        Err(Errcode::ResourcesError(
            "Error during cgroups conf for PID -1: not a process".to_string()
        ))
    );
}

#[test]
fn limit_failures() {
    assert_eq!(
        restrict_failed(LimitStage::Cgroup, 7, "EACCES"),
        Errcode::ResourcesError("Error during cgroups conf for PID 7: EACCES".to_string())
    );
    assert_eq!(
        restrict_failed(LimitStage::Rlimit, 7, "EPERM"),
        Errcode::ResourcesError("Cgroups: setrlimit returned error EPERM".to_string())
    );
    assert_eq!(clean_cgroups(&"orjail-Ab12".to_string()), "/sys/fs/cgroup/orjail-Ab12/");
    assert_eq!(
        clean_failed(Some("/sys/fs/cgroup/x"), "EBUSY"),
        Errcode::ResourcesError("Error while trying to delete dir /sys/fs/cgroup/x: EBUSY".to_string())
    );
    assert_eq!(
        clean_failed(None, "ENOENT"),
        Errcode::ResourcesError("Error while canonicalize path: ENOENT".to_string())
    );
}
