//! The namespace plumber: identity maps of the user namespace, the
//! network-namespace area of the container, and the helper process that
//! finishes the interface configuration from inside the network namespace.

use vstd::prelude::*;
use crate::errors::{result_view, Errcode, ErrcodeView};
use crate::host::{
    Command, CommandView, HostCall, HostCallView, MountFlag, MountFlags, NamespaceSet, Origin,
    PathProbe, PathProbeView, Step, StepView, WaitOutcome, WaitOutcomeView,
};
use crate::mountpoint::{
    clean_steps, create_directory, create_directory_step, mount_directory, mount_step,
    private_flags,
};
use crate::text::{
    concat2, concat3, decimal, format_i32, is_confined, is_under, join, lemma_join_under,
    push_decimal, push_word, signed_decimal,
};

verus! {

/// How many ids the user map covers.
pub const UID_COUNT: u64 = 1;

/// How many ids the group map covers.
pub const GID_COUNT: u64 = 1;

/// One range of an identity map: `count` ids starting at `inside` in the
/// namespace stand for the ids starting at `outside` on the host.
pub struct IdRange {
    pub inside: u32,
    pub outside: u32,
    pub count: u64,
}

impl IdRange {
    /// The line that installs this range in a map file of the kernel.
    pub open spec fn line(self) -> Seq<char> {
        decimal(self.inside as nat) + " "@ + decimal(self.outside as nat) + " "@ + decimal(
            self.count as nat,
        )
    }

    /// The id that a process in the namespace sees for the host id
    /// `host_id`, if the range covers it.
    pub open spec fn seen_inside(self, host_id: int) -> Option<int> {
        if self.outside <= host_id < self.outside + self.count {
            Some(self.inside + (host_id - self.outside))
        } else {
            None
        }
    }
}

/// The step that writes one identity map.
pub open spec fn map_step(path: Seq<char>, range: IdRange, origin: Origin) -> StepView {
    StepView {
        call: HostCallView::WriteFile { path, contents: range.line(), create: true },
        origin,
    }
}

/// The step that forbids later changes of the group list. It has to come
/// before the group map is written.
pub open spec fn setgroups_step() -> StepView {
    StepView {
        call: HostCallView::WriteFile {
            path: "/proc/self/setgroups"@,
            contents: "deny"@,
            create: false,
        },
        origin: Origin::Setgroups,
    }
}

/// The steps that map the container's identity: the user map, the
/// group-list lock, the group map, in this order. Inside the namespace the
/// host user `real_uid` and the host group `real_gid` both appear as
/// `target_uid`.
pub open spec fn userns_steps(real_uid: u32, real_gid: u32, target_uid: u32) -> Seq<StepView> {
    seq![
        map_step(
            "/proc/self/uid_map"@,
            IdRange { inside: target_uid, outside: real_uid, count: UID_COUNT },
            Origin::UidMap,
        ),
        setgroups_step(),
        map_step(
            "/proc/self/gid_map"@,
            IdRange { inside: target_uid, outside: real_gid, count: GID_COUNT },
            Origin::GidMap,
        ),
    ]
}

fn map_line(inside: u32, outside: u32, count: u64) -> (line: String)
    ensures
        line@ == (IdRange { inside, outside, count }).line(),
{
    let mut line = String::new();
    push_decimal(&mut line, inside as u64);
    line.append(" ");
    push_decimal(&mut line, outside as u64);
    line.append(" ");
    push_decimal(&mut line, count);
    assert(line@ =~= (IdRange { inside, outside, count }).line());
    line
}

/// Plans the identity mapping of the new user namespace.
pub fn userns(real_uid: u32, real_gid: u32, target_uid: u32) -> (steps: Vec<Step>)
    ensures
        steps.deep_view() == userns_steps(real_uid, real_gid, target_uid),
{
    let mut steps: Vec<Step> = Vec::new();
    steps.push(
        Step {
            call: HostCall::WriteFile {
                path: String::from_str("/proc/self/uid_map"),
                contents: map_line(target_uid, real_uid, UID_COUNT),
                create: true,
            },
            origin: Origin::UidMap,
        },
    );
    steps.push(
        Step {
            call: HostCall::WriteFile {
                path: String::from_str("/proc/self/setgroups"),
                contents: String::from_str("deny"),
                create: false,
            },
            origin: Origin::Setgroups,
        },
    );
    steps.push(
        Step {
            call: HostCall::WriteFile {
                path: String::from_str("/proc/self/gid_map"),
                contents: map_line(target_uid, real_gid, GID_COUNT),
                create: true,
            },
            origin: Origin::GidMap,
        },
    );
    assert(steps.deep_view() =~= userns_steps(real_uid, real_gid, target_uid));
    steps
}

/// Identity mapping. The maps that `userns` plans show the host user and
/// the host group inside the namespace as the target id and as nothing
/// else, and they show no other host id at all.
pub proof fn lemma_identity_mapping(real_uid: u32, real_gid: u32, target_uid: u32)
    ensures
        ({
            let steps = userns_steps(real_uid, real_gid, target_uid);
            let users = IdRange { inside: target_uid, outside: real_uid, count: UID_COUNT };
            let groups = IdRange { inside: target_uid, outside: real_gid, count: GID_COUNT };
            &&& steps[0] == map_step("/proc/self/uid_map"@, users, Origin::UidMap)
            &&& steps[2] == map_step("/proc/self/gid_map"@, groups, Origin::GidMap)
            &&& users.seen_inside(real_uid as int) == Some(target_uid as int)
            &&& groups.seen_inside(real_gid as int) == Some(target_uid as int)
            &&& forall|id: int| id != real_uid ==> users.seen_inside(id) is None
            &&& forall|id: int| id != real_gid ==> groups.seen_inside(id) is None
        }),
{
}

/// Where the kernel-visible network namespaces live.
pub open spec fn netns_dir() -> Seq<char> {
    "/run/netns/"@
}

/// The file of the network namespace `ns_name`.
pub open spec fn namespace_path(ns_name: Seq<char>) -> Seq<char> {
    netns_dir() + ns_name
}

/// The per-run temporary directory of the container named `hostname`.
pub open spec fn run_dir(hostname: Seq<char>) -> Seq<char> {
    "/tmp/"@ + hostname
}

/// A bind of one tree over another on behalf of the network-namespace
/// area.
pub open spec fn remount_step(from: Seq<char>, to: Seq<char>) -> StepView {
    StepView { call: HostCallView::BindTree { from, to }, origin: Origin::RemountNetns }
}

/// What `mount_netns` plans, given what a look at the host's
/// network-namespace directory found.
pub open spec fn mount_netns_spec(hostname: Seq<char>, probe: PathProbeView) -> Result<
    Seq<StepView>,
    ErrcodeView,
> {
    let netns_mount = run_dir(hostname) + "/netns"@;
    let lib_mount = run_dir(hostname) + "/lib"@;
    let tail = seq![create_directory_step(lib_mount), remount_step(lib_mount, "/var/lib"@)];
    match probe {
        PathProbeView::Present => Ok(
            seq![create_directory_step(netns_mount), remount_step(netns_mount, netns_dir())] + tail,
        ),
        PathProbeView::Missing => Ok(
            seq![
                create_directory_step(netns_mount),
                remount_step(netns_mount, "/run/"@),
                create_directory_step(netns_mount),
            ] + tail,
        ),
        PathProbeView::Failed(cause) => Err(
            ErrcodeView::NamespacesError("Error stat of "@ + netns_dir() + ": "@ + cause),
        ),
    }
}

fn remount(from: &str, to: &str) -> (step: Step)
    ensures
        step.deep_view() == remount_step(from@, to@),
{
    Step {
        call: HostCall::BindTree { from: String::from_str(from), to: String::from_str(to) },
        origin: Origin::RemountNetns,
    }
}

/// Plans the network-namespace area of the container: a private directory
/// of the run is bound over the host's network-namespace directory (over
/// `/run/` where the host has none yet), and another over `/var/lib`, so
/// that later lookups of a network namespace resolve inside the
/// container's mount namespace. `netns_probe` is what a look at
/// `/run/netns/` found; the look is made before anything is created, and
/// nothing is planned where it failed.
pub fn mount_netns(hostname: &String, netns_probe: &PathProbe) -> (r: Result<Vec<Step>, Errcode>)
    ensures
        result_view(r) == mount_netns_spec(hostname@, netns_probe.deep_view()),
{
    let mount_dir_name = concat2("/tmp/", hostname.as_str());
    let netns_mount = concat2(mount_dir_name.as_str(), "/netns");
    let lib_mount = concat2(mount_dir_name.as_str(), "/lib");
    let mut steps: Vec<Step> = Vec::new();
    steps.push(create_directory(netns_mount.as_str()));
    match netns_probe {
        PathProbe::Present => {
            steps.push(remount(netns_mount.as_str(), "/run/netns/"));
        },
        PathProbe::Missing => {
            steps.push(remount(netns_mount.as_str(), "/run/"));
            steps.push(create_directory(netns_mount.as_str()));
        },
        PathProbe::Failed(cause) => {
            let e = Errcode::NamespacesError(
                concat3("Error stat of /run/netns/", ": ", cause.as_str()),
            );
            proof {
                assert("Error stat of /run/netns/"@ =~= "Error stat of "@ + netns_dir()) by {
                    reveal_strlit("Error stat of /run/netns/");
                    reveal_strlit("Error stat of ");
                    reveal_strlit("/run/netns/");
                }
            }
            return Err(e);
        },
    }
    steps.push(create_directory(lib_mount.as_str()));
    steps.push(remount(lib_mount.as_str(), "/var/lib"));
    proof {
        let spec_steps = mount_netns_spec(hostname@, netns_probe.deep_view())->Ok_0;
        assert(steps.deep_view() =~= spec_steps);
    }
    Ok(steps)
}

/// The cleanup covers the network-namespace area. Every directory that
/// `mount_netns` creates, and the source of every bind it makes, lies
/// below the per-run directory, which is what the cleanup of the run
/// removes, and all it removes. The binds themselves are made in the
/// container's own mount namespace; the cleanup does not unmount
/// anything.
pub proof fn lemma_cleanup_covers_the_netns_area(hostname: Seq<char>, probe: PathProbeView)
    ensures
        clean_steps(hostname) == seq![
            StepView {
                call: HostCallView::RemoveDirAll { path: run_dir(hostname) },
                origin: Origin::CleanTmp,
            },
        ],
        mount_netns_spec(hostname, probe) matches Ok(steps) ==> forall|i: int|
            0 <= i < steps.len() ==> match (#[trigger] steps[i]).call {
                HostCallView::CreateDirAll { path } => is_under(path, run_dir(hostname)),
                HostCallView::BindTree { from, .. } => is_under(from, run_dir(hostname)),
                _ => false,
            },
{
    reveal_strlit("/netns");
    reveal_strlit("netns");
    reveal_strlit("/lib");
    reveal_strlit("lib");
    let dir = run_dir(hostname);
    assert(is_confined("netns"@));
    assert(is_confined("lib"@));
    assert(dir + "/netns"@ =~= join(dir, "netns"@));
    assert(dir + "/lib"@ =~= join(dir, "lib"@));
    lemma_join_under(dir, "netns"@);
    lemma_join_under(dir, "lib"@);
}

/// How setting up the namespace helper ended, as its parent sees it.
pub open spec fn run_parent_spec(status: WaitOutcomeView) -> Result<(), ErrcodeView> {
    match status {
        WaitOutcomeView::Exited(res) => if res == 0 {
            Ok(())
        } else {
            Err(
                ErrcodeView::NamespacesError(
                    "Namespace conf error: child exited with "@ + signed_decimal(res as int),
                ),
            )
        },
        WaitOutcomeView::Signaled { signal, .. } => Err(
            ErrcodeView::NamespacesError("Child process killed by signal "@ + signal),
        ),
        WaitOutcomeView::Other(text) => Err(
            ErrcodeView::NamespacesError("Unknown child process status "@ + text),
        ),
        WaitOutcomeView::Failed(cause) => Err(
            ErrcodeView::NamespacesError("Error during wait: "@ + cause),
        ),
    }
}

/// Judges the end of the helper process: only a normal exit with status 0
/// counts as success; any other exit, a death by signal, any other wait
/// status and a failed wait are fatal namespace-configuration errors.
pub fn run_parent(status: &WaitOutcome) -> (r: Result<(), Errcode>)
    ensures
        result_view(r) == run_parent_spec(status.deep_view()),
{
    match status {
        WaitOutcome::Exited(res) => {
            if *res == 0 {
                Ok(())
            } else {
                let mut text = String::from_str("Namespace conf error: child exited with ");
                let number = format_i32(*res);
                text.append(number.as_str());
                Err(Errcode::NamespacesError(text))
            }
        },
        WaitOutcome::Signaled { signal, .. } => Err(
            Errcode::NamespacesError(concat2("Child process killed by signal ", signal.as_str())),
        ),
        WaitOutcome::Other(text) => Err(
            Errcode::NamespacesError(concat2("Unknown child process status ", text.as_str())),
        ),
        WaitOutcome::Failed(cause) => Err(
            Errcode::NamespacesError(concat2("Error during wait: ", cause.as_str())),
        ),
    }
}

/// How the helper process ends.
#[derive(Clone, Copy, Debug, PartialEq, Eq, Structural)]
pub enum HelperExit {
    /// Exit with status 0.
    Success,
    /// Abort, so that the parent sees a death by signal.
    Abort,
}

/// Decides how the helper process ends, given how the configuration went.
pub fn run_child(res: &Result<(), Errcode>) -> (exit: HelperExit)
    ensures
        exit == (if res is Ok { HelperExit::Success } else { HelperExit::Abort }),
{
    match res {
        Ok(_) => HelperExit::Success,
        Err(_) => HelperExit::Abort,
    }
}

/// Nothing has to be prepared before the helper is forked.
pub fn prep_for_fork() -> (r: Result<(), Errcode>)
    ensures
        r is Ok,
{
    Ok(())
}

/// The mount-namespace set that holds the mount namespace only.
pub open spec fn mounts_only() -> NamespaceSet {
    NamespaceSet {
        mount: true,
        network: false,
        user: false,
        cgroup: false,
        pid: false,
        ipc: false,
        uts: false,
    }
}

/// The steps that move the calling process into the network namespace
/// `ns_name`: join it, leave the inherited mount namespace, make the new
/// mount tree private, and mount a `/sys` that describes the network
/// namespace, read-only if the old `/sys` was.
pub open spec fn split_namespace_steps(ns_name: Seq<char>, sys_read_only: bool) -> Seq<StepView> {
    seq![
        StepView {
            call: HostCallView::JoinNetworkNamespace { path: namespace_path(ns_name) },
            origin: Origin::JoinNamespace,
        },
        StepView {
            call: HostCallView::Unshare { namespaces: mounts_only() },
            origin: Origin::UnshareMounts,
        },
        mount_step(None, "/"@, private_flags()),
        StepView {
            call: HostCallView::Mount {
                source: Some(ns_name),
                target: "/sys"@,
                fstype: Some("sysfs"@),
                flags: MountFlags {
                    bind: false,
                    private: false,
                    read_only: sys_read_only,
                    recursive: false,
                },
            },
            origin: Origin::RemountSys,
        },
    ]
}

/// Plans the switch of the calling process into the network namespace
/// `ns_name`. `sys_read_only` says whether `/sys` is mounted read-only
/// now.
pub fn split_namespace(ns_name: &String, sys_read_only: bool) -> (steps: Vec<Step>)
    ensures
        steps.deep_view() == split_namespace_steps(ns_name@, sys_read_only),
{
    let ns_path = concat2("/run/netns/", ns_name.as_str());
    let mut namespaces = NamespaceSet::empty();
    namespaces.insert(crate::host::Namespace::Mount);
    proof {
        assert(namespaces.has(crate::host::Namespace::Mount));
        assert(!namespaces.has(crate::host::Namespace::Network));
        assert(!namespaces.has(crate::host::Namespace::User));
        assert(!namespaces.has(crate::host::Namespace::Cgroup));
        assert(!namespaces.has(crate::host::Namespace::Pid));
        assert(!namespaces.has(crate::host::Namespace::Ipc));
        assert(!namespaces.has(crate::host::Namespace::Uts));
        assert(namespaces == mounts_only());
    }
    let mut root_flags: Vec<MountFlag> = Vec::new();
    root_flags.push(MountFlag::Recursive);
    root_flags.push(MountFlag::Private);
    proof {
        assert(root_flags@[0] == MountFlag::Recursive);
        assert(root_flags@[1] == MountFlag::Private);
        assert(MountFlags::of(root_flags@) == private_flags());
    }
    let mut mount_flags = MountFlags::empty();
    if sys_read_only {
        mount_flags.insert(MountFlag::ReadOnly);
        proof {
            assert(mount_flags.has(MountFlag::ReadOnly));
            assert(!mount_flags.has(MountFlag::Bind));
            assert(!mount_flags.has(MountFlag::Private));
            assert(!mount_flags.has(MountFlag::Recursive));
        }
    }
    let mut steps: Vec<Step> = Vec::new();
    steps.push(
        Step { call: HostCall::JoinNetworkNamespace { path: ns_path }, origin: Origin::JoinNamespace },
    );
    steps.push(Step { call: HostCall::Unshare { namespaces }, origin: Origin::UnshareMounts });
    steps.push(mount_directory(None, "/", root_flags));
    steps.push(
        Step {
            call: HostCall::Mount {
                source: Some(ns_name.clone()),
                target: String::from_str("/sys"),
                fstype: Some(String::from_str("sysfs")),
                flags: mount_flags,
            },
            origin: Origin::RemountSys,
        },
    );
    assert(steps.deep_view() =~= split_namespace_steps(ns_name@, sys_read_only));
    steps
}

/// The name of the endpoint of the virtual-ethernet pair that moves into
/// the network namespace.
pub open spec fn peer_name(ns_name: Seq<char>) -> Seq<char> {
    ns_name + "_peer"@
}

/// One invocation of `ip` with the given arguments.
pub open spec fn ip_command(args: Seq<Seq<char>>) -> CommandView {
    CommandView { program: "ip"@, args }
}

/// The invocations that finish the interfaces from inside the network
/// namespace: loopback up; the migrated endpoint, found by its name, up;
/// its address with the prefix length; the default route through the
/// endpoint that stayed outside.
pub open spec fn net_conf_commands(
    ns_name: Seq<char>,
    veth_ip: Seq<char>,
    veth_2_ip: Seq<char>,
    prefix_len: u8,
) -> Seq<CommandView> {
    let peer = peer_name(ns_name);
    seq![
        ip_command(seq!["link"@, "set"@, "lo"@, "up"@]),
        ip_command(seq!["link"@, "set"@, peer, "up"@]),
        ip_command(
            seq![
                "addr"@,
                "add"@,
                veth_2_ip + "/"@ + decimal(prefix_len as nat),
                "dev"@,
                peer,
            ],
        ),
        ip_command(seq!["route"@, "add"@, "default"@, "via"@, veth_ip, "dev"@, peer]),
    ]
}

fn ip(args: Vec<String>) -> (command: Command)
    ensures
        command.deep_view() == ip_command(args.deep_view()),
{
    Command { program: String::from_str("ip"), args }
}

/// Plans the interface configuration that the helper runs once it is
/// inside the network namespace.
pub fn net_conf(ns_name: &String, veth_ip: &str, veth_2_ip: &str, prefix_len: u8) -> (commands: Vec<
    Command,
>)
    ensures
        commands.deep_view() == net_conf_commands(ns_name@, veth_ip@, veth_2_ip@, prefix_len),
{
    let veth_2 = concat2(ns_name.as_str(), "_peer");
    let mut addr_subnet = concat2(veth_2_ip, "/");
    push_decimal(&mut addr_subnet, prefix_len as u64);

    let mut lo_up: Vec<String> = Vec::new();
    push_word(&mut lo_up, "link");
    push_word(&mut lo_up, "set");
    push_word(&mut lo_up, "lo");
    push_word(&mut lo_up, "up");
    assert(lo_up.deep_view() =~= seq!["link"@, "set"@, "lo"@, "up"@]);

    let mut peer_up: Vec<String> = Vec::new();
    push_word(&mut peer_up, "link");
    push_word(&mut peer_up, "set");
    push_word(&mut peer_up, veth_2.as_str());
    push_word(&mut peer_up, "up");
    assert(peer_up.deep_view() =~= seq!["link"@, "set"@, veth_2@, "up"@]);

    let mut addr: Vec<String> = Vec::new();
    push_word(&mut addr, "addr");
    push_word(&mut addr, "add");
    push_word(&mut addr, addr_subnet.as_str());
    push_word(&mut addr, "dev");
    push_word(&mut addr, veth_2.as_str());
    assert(addr.deep_view() =~= seq!["addr"@, "add"@, addr_subnet@, "dev"@, veth_2@]);

    let mut route: Vec<String> = Vec::new();
    push_word(&mut route, "route");
    push_word(&mut route, "add");
    push_word(&mut route, "default");
    push_word(&mut route, "via");
    push_word(&mut route, veth_ip);
    push_word(&mut route, "dev");
    push_word(&mut route, veth_2.as_str());
    assert(route.deep_view() =~= seq![
        "route"@,
        "add"@,
        "default"@,
        "via"@,
        veth_ip@,
        "dev"@,
        veth_2@,
    ]);

    let mut commands: Vec<Command> = Vec::new();
    commands.push(ip(lo_up));
    commands.push(ip(peer_up));
    commands.push(ip(addr));
    commands.push(ip(route));
    assert(commands.deep_view() =~= net_conf_commands(ns_name@, veth_ip@, veth_2_ip@, prefix_len));
    commands
}

/// How one invocation of the interface configuration ended, as the helper
/// sees it.
pub open spec fn net_conf_result_spec(status: WaitOutcomeView) -> Result<(), ErrcodeView> {
    match status {
        WaitOutcomeView::Exited(res) => if res == 0 {
            Ok(())
        } else {
            Err(
                ErrcodeView::NetworkError(
                    "Interface configuration exited with "@ + signed_decimal(res as int),
                ),
            )
        },
        WaitOutcomeView::Signaled { signal, .. } => Err(
            ErrcodeView::NetworkError("Interface configuration killed by signal "@ + signal),
        ),
        WaitOutcomeView::Other(text) => Err(
            ErrcodeView::NetworkError("Unknown status of the interface configuration "@ + text),
        ),
        WaitOutcomeView::Failed(cause) => Err(ErrcodeView::NetworkError(cause)),
    }
}

/// Judges the end of one invocation of the interface configuration. Each
/// invocation is waited for before the next is started, and only a normal
/// exit with status 0 lets the helper go on: the helper must not report
/// success before the inner endpoint is configured. An invocation that
/// could not be started or waited for fails with the host's reason.
pub fn net_conf_result(status: &WaitOutcome) -> (r: Result<(), Errcode>)
    ensures
        result_view(r) == net_conf_result_spec(status.deep_view()),
{
    match status {
        WaitOutcome::Exited(res) => {
            if *res == 0 {
                Ok(())
            } else {
                let number = format_i32(*res);
                Err(
                    Errcode::NetworkError(
                        concat2("Interface configuration exited with ", number.as_str()),
                    ),
                )
            }
        },
        WaitOutcome::Signaled { signal, .. } => Err(
            Errcode::NetworkError(
                concat2("Interface configuration killed by signal ", signal.as_str()),
            ),
        ),
        WaitOutcome::Other(text) => Err(
            Errcode::NetworkError(
                concat2("Unknown status of the interface configuration ", text.as_str()),
            ),
        ),
        WaitOutcome::Failed(cause) => Err(Errcode::NetworkError(cause.clone())),
    }
}

/// What the helper process does: the steps that take it into the network
/// namespace, then the invocations that configure the interfaces there,
/// each waited for and judged by `net_conf_result` before the next.
#[derive(Clone, Debug, PartialEq, Eq)]
pub struct HelperPlan {
    pub steps: Vec<Step>,
    pub commands: Vec<Command>,
}

/// Plans the whole work of the helper process.
pub fn conf_netns_ifaces(
    ns_name: &String,
    veth_ip: &str,
    veth_2_ip: &str,
    prefix_len: u8,
    sys_read_only: bool,
) -> (plan: HelperPlan)
    ensures
        plan.steps.deep_view() == split_namespace_steps(ns_name@, sys_read_only),
        plan.commands.deep_view() == net_conf_commands(ns_name@, veth_ip@, veth_2_ip@, prefix_len),
{
    HelperPlan {
        steps: split_namespace(ns_name, sys_read_only),
        commands: net_conf(ns_name, veth_ip, veth_2_ip, prefix_len),
    }
}

} // verus!
