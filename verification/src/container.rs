//! The container: what is checked of the host before anything is created,
//! how a container is built from the arguments and from what the host
//! says, and what is kept of it while it runs.

use vstd::prelude::*;
use crate::cli::{Args, ArgsView};
use crate::config::{opts_spec, ContainerOpts, ContainerOptsView};
use crate::errors::{result_view, Errcode, ErrcodeView};
use crate::host::{Step, WaitOutcome, WaitOutcomeView};
use crate::hostname::{generate_hostname, is_generated_hostname};
use crate::mountpoint::{clean_mounts, clean_steps};
use crate::orchestrator::{Request, RequestView, Runtime, RuntimeView};
use crate::text::{
    concat2, concat4, concat6, digit_count, digits_value, find_char, format_i32, index_of,
    scan_number, signed_decimal,
};

verus! {

/// The file in which the kernel says whether unprivileged processes may
/// create user namespaces.
pub const PROCFS_UNPRIVILEGED_NS: &'static str = "/proc/sys/kernel/unprivileged_userns_clone";

/// The oldest kernel that the runtime works on is 4.8.
pub const MINIMAL_KERNEL_MAJOR: u32 = 4;

/// The minor number of the oldest kernel that the runtime works on.
pub const MINIMAL_KERNEL_MINOR: u32 = 8;

/// What the host says of itself.
#[derive(Debug, PartialEq, Eq)]
pub struct HostInfo {
    /// The kernel release, such as `6.1.0-18-amd64`.
    pub release: String,
    /// The machine's architecture, such as `x86_64`.
    pub machine: String,
    /// The first byte of `PROCFS_UNPRIVILEGED_NS`, or why the file could
    /// not be read.
    pub userns_clone: Result<u8, String>,
}

/// The mathematical value of a [`HostInfo`].
pub struct HostInfoView {
    pub release: Seq<char>,
    pub machine: Seq<char>,
    pub userns_clone: Result<u8, Seq<char>>,
}

impl DeepView for HostInfo {
    type V = HostInfoView;

    open spec fn deep_view(&self) -> HostInfoView {
        HostInfoView {
            release: self.release@,
            machine: self.machine@,
            userns_clone: match self.userns_clone {
                Ok(byte) => Ok(byte),
                Err(cause) => Err(cause@),
            },
        }
    }
}

/// The major and minor number of a kernel release: the release starts
/// with the major number, a dot and the minor number; what follows is
/// not looked at.
pub open spec fn release_version(release: Seq<char>) -> Option<(nat, nat)> {
    let major_len = digit_count(release);
    if major_len == 0 || major_len >= release.len() || release[major_len as int] != '.' {
        None
    } else {
        let rest = release.skip(major_len as int + 1);
        let minor_len = digit_count(rest);
        if minor_len == 0 {
            None
        } else {
            Some(
                (
                    digits_value(release.take(major_len as int)),
                    digits_value(rest.take(minor_len as int)),
                ),
            )
        }
    }
}

/// Whether a kernel of this version is recent enough.
pub open spec fn version_supported(major: nat, minor: nat) -> bool {
    major > MINIMAL_KERNEL_MAJOR || (major == MINIMAL_KERNEL_MAJOR && minor
        >= MINIMAL_KERNEL_MINOR)
}

/// Whether the runtime can work on the host, and if not, why: the kernel
/// must be recent enough, the architecture must be x86_64, and the kernel
/// must let unprivileged processes create user namespaces. A host that
/// does not say whether it lets them is not fit either.
pub open spec fn compatibility(host: HostInfoView) -> Result<(), ErrcodeView> {
    match release_version(host.release) {
        None => Err(ErrcodeView::ContainerError("Can not parse kernel release version"@)),
        Some((major, minor)) => {
            if !version_supported(major, minor) {
                Err(ErrcodeView::NotSupported(0))
            } else if host.machine != "x86_64"@ {
                Err(ErrcodeView::NotSupported(1))
            } else {
                match host.userns_clone {
                    Err(cause) => Err(
                        ErrcodeView::ContainerError(
                            "Can not read "@ + PROCFS_UNPRIVILEGED_NS@ + ": "@ + cause,
                        ),
                    ),
                    Ok(byte) => if byte == 49 {
                        Ok(())
                    } else {
                        Err(ErrcodeView::ContainerError("Unprivileged namespaces disabled"@))
                    },
                }
            }
        },
    }
}

/// Checks that the runtime can work on the host. Any failure here comes
/// before any kernel object is created, so there is nothing to roll back.
pub fn check_compatibility(host: &HostInfo) -> (r: Result<(), Errcode>)
    ensures
        result_view(r) == compatibility(host.deep_view()),
{
    let release = host.release.as_str();
    let n = release.unicode_len();
    proof {
        assert(release@.skip(0) =~= release@);
        assert(release@.subrange(0, n as int) =~= release@.take(n as int));
    }
    let (major_end, major) = scan_number(release, 0);
    proof {
        assert(release@.subrange(0, major_end as int) =~= release@.take(major_end as int));
    }
    if major_end == 0 || major_end >= n || release.get_char(major_end) != '.' {
        return Err(Errcode::ContainerError(String::from_str("Can not parse kernel release version")));
    }
    let (minor_end, minor) = scan_number(release, major_end + 1);
    proof {
        let rest = release@.skip(major_end as int + 1);
        assert(release@.subrange(major_end as int + 1, minor_end as int) =~= rest.take(
            minor_end - major_end - 1,
        ));
    }
    if minor_end == major_end + 1 {
        return Err(Errcode::ContainerError(String::from_str("Can not parse kernel release version")));
    }
    if major < MINIMAL_KERNEL_MAJOR || (major == MINIMAL_KERNEL_MAJOR && minor
        < MINIMAL_KERNEL_MINOR) {
        return Err(Errcode::NotSupported(0));
    }
    let expected = String::from_str("x86_64");
    if host.machine != expected {
        return Err(Errcode::NotSupported(1));
    }
    // Check that unprivileged namespaces are enabled.
    match &host.userns_clone {
        Err(cause) => Err(
            Errcode::ContainerError(
                concat4("Can not read ", PROCFS_UNPRIVILEGED_NS, ": ", cause.as_str()),
            ),
        ),
        Ok(byte) => {
            if *byte == 49 {
                Ok(())
            } else {
                Err(Errcode::ContainerError(String::from_str("Unprivileged namespaces disabled")))
            }
        },
    }
}

/// The two halves of an extra bind written `host_path:container_path`:
/// the host path, and the container path made relative to the container's
/// root. The container path has to be absolute; what follows a second
/// colon is ignored.
pub open spec fn addpath_spec(pair: Seq<char>) -> Option<(Seq<char>, Seq<char>)> {
    let colon = index_of(pair, ':');
    if colon >= pair.len() {
        None
    } else {
        let rest = pair.skip(colon as int + 1);
        let target = rest.take(index_of(rest, ':') as int);
        if target.len() == 0 || target[0] != '/' {
            None
        } else {
            Some((pair.take(colon as int), target.skip(1)))
        }
    }
}

/// Splits an extra bind into its host path and its path in the container.
pub fn parse_addpath(pair: &str) -> (r: Result<(String, String), Errcode>)
    ensures
        match addpath_spec(pair@) {
            Some((host_path, container_path)) => r matches Ok((h, c)) && h@ == host_path && c@
                == container_path,
            None => r matches Err(e) && e.deep_view() == ErrcodeView::ArgumentInvalid("add"@),
        },
{
    let n = pair.unicode_len();
    proof {
        assert(pair@.skip(0) =~= pair@);
    }
    let colon = find_char(pair, ':', 0);
    if colon >= n {
        return Err(Errcode::ArgumentInvalid("add"));
    }
    let end = find_char(pair, ':', colon + 1);
    proof {
        let rest = pair@.skip(colon as int + 1);
        assert(pair@.subrange(colon as int + 1, end as int) =~= rest.take(end - colon - 1));
        assert(pair@.subrange(0, colon as int) =~= pair@.take(colon as int));
    }
    if end == colon + 1 || pair.get_char(colon + 1) != '/' {
        return Err(Errcode::ArgumentInvalid("add"));
    }
    proof {
        let rest = pair@.skip(colon as int + 1);
        let target = rest.take(end - colon - 1);
        assert(pair@.subrange(colon as int + 2, end as int) =~= target.skip(1));
    }
    let host_path = String::from_str(pair.substring_char(0, colon));
    let container_path = String::from_str(pair.substring_char(colon + 2, end));
    Ok((host_path, container_path))
}

/// Where a companion's binary is, or why there is none. Without an
/// explicit path (`arg` is empty) the binary is looked up by `name`, and
/// `found` is the outcome of the lookup; with one, `found` says whether
/// something exists at that path.
pub open spec fn binary_spec(
    arg: Seq<char>,
    name: Seq<char>,
    found: Result<Seq<char>, Seq<char>>,
) -> Result<Seq<char>, ErrcodeView> {
    match found {
        Ok(path) => Ok(if arg.len() == 0 { path } else { arg }),
        Err(cause) => Err(
            ErrcodeView::ContainerError(
                if arg.len() == 0 {
                    "Can not find "@ + name + " in PATH: "@ + cause
                } else {
                    "Can not find "@ + name + " at path "@ + arg + ": "@ + cause
                },
            ),
        ),
    }
}

/// The view of the outcome of a lookup.
pub open spec fn lookup_view(r: Result<String, String>) -> Result<Seq<char>, Seq<char>> {
    match r {
        Ok(text) => Ok(text@),
        Err(cause) => Err(cause@),
    }
}

/// Settles where the binary of the companion `name` is.
pub fn check_binary(arg: &String, name: &str, found: &Result<String, String>) -> (r: Result<
    String,
    Errcode,
>)
    ensures
        result_view(r) == binary_spec(arg@, name@, lookup_view(*found)),
{
    let explicit = arg.as_str().unicode_len() != 0;
    match found {
        Ok(path) => {
            if explicit {
                Ok(arg.clone())
            } else {
                Ok(path.clone())
            }
        },
        Err(cause) => {
            if explicit {
                Err(
                    Errcode::ContainerError(
                        concat6(
                            "Can not find ",
                            name,
                            " at path ",
                            arg.as_str(),
                            ": ",
                            cause.as_str(),
                        ),
                    ),
                )
            } else {
                Err(
                    Errcode::ContainerError(
                        concat4("Can not find ", name, " in PATH: ", cause.as_str()),
                    ),
                )
            }
        },
    }
}

/// What the host says of the things the arguments name.
#[derive(Debug, PartialEq, Eq)]
pub struct HostFacts {
    /// The user the runtime runs as.
    pub uid: u32,
    /// The group the runtime runs as.
    pub gid: u32,
    /// The canonical form of the host path of each extra bind, in the
    /// order of the binds.
    pub canonical: Vec<String>,
    /// The outcome of looking for the proxy daemon's binary.
    pub tor: Result<String, String>,
    /// The outcome of looking for the network helper's binary.
    pub slirp: Result<String, String>,
    /// Whether the root directory named by the arguments is an existing
    /// directory.
    pub mount_dir_is_dir: bool,
}

/// The mathematical value of [`HostFacts`].
pub struct HostFactsView {
    pub uid: u32,
    pub gid: u32,
    pub canonical: Seq<Seq<char>>,
    pub tor: Result<Seq<char>, Seq<char>>,
    pub slirp: Result<Seq<char>, Seq<char>>,
    pub mount_dir_is_dir: bool,
}

impl DeepView for HostFacts {
    type V = HostFactsView;

    open spec fn deep_view(&self) -> HostFactsView {
        HostFactsView {
            uid: self.uid,
            gid: self.gid,
            canonical: self.canonical.deep_view(),
            tor: lookup_view(self.tor),
            slirp: lookup_view(self.slirp),
            mount_dir_is_dir: self.mount_dir_is_dir,
        }
    }
}

/// Whether every extra bind of `addpaths` can be split, and there is a
/// canonical host path for each.
pub open spec fn binds_parse(addpaths: Seq<Seq<char>>, canonical: Seq<Seq<char>>) -> bool {
    &&& canonical.len() == addpaths.len()
    &&& forall|i: int| 0 <= i < addpaths.len() ==> addpath_spec(#[trigger] addpaths[i]) is Some
}

/// The extra binds of a container: the canonical host path of each, with
/// the relative container path it was written with.
pub open spec fn binds_spec(addpaths: Seq<Seq<char>>, canonical: Seq<Seq<char>>) -> Seq<
    (Seq<char>, Seq<char>),
> {
    Seq::new(addpaths.len(), |i: int| (canonical[i], addpath_spec(addpaths[i]).unwrap().1))
}

/// What `Container::new` builds, but for the host name, which is drawn at
/// random. An id of 0 for the real user or group stands for the user or
/// group that the runtime runs as. An empty root directory means none. In
/// this order, these are refused: a bind that cannot be split, a
/// companion binary that is not there, a root directory that is no
/// existing directory, and what `opts_spec` refuses.
pub open spec fn container_spec(args: ArgsView, host: HostFactsView, hostname: Seq<char>) -> Result<
    ContainerOptsView,
    ErrcodeView,
> {
    if !binds_parse(args.addpaths, host.canonical) {
        Err(ErrcodeView::ArgumentInvalid("add"@))
    } else {
        match binary_spec(args.tor, "tor"@, host.tor) {
            Err(e) => Err(e),
            Ok(tor_path) => match binary_spec(args.slirp4netns, "slirp4netns"@, host.slirp) {
                Err(e) => Err(e),
                Ok(slirp_path) => {
                    if args.mount_dir.len() != 0 && !host.mount_dir_is_dir {
                        Err(ErrcodeView::ArgumentInvalid("mount"@))
                    } else {
                        opts_spec(
                            args.command,
                            args.uid,
                            if args.real_uid == 0 {
                                host.uid
                            } else {
                                args.real_uid
                            },
                            if args.real_gid == 0 {
                                host.gid
                            } else {
                                args.real_gid
                            },
                            if args.mount_dir.len() == 0 {
                                None
                            } else {
                                Some(args.mount_dir)
                            },
                            args.namespace,
                            binds_spec(args.addpaths, host.canonical),
                            tor_path,
                            slirp_path,
                            args.disable_syscall,
                            args.disable_capabilities,
                            hostname,
                        )
                    }
                },
            },
        }
    }
}

/// A root directory that is not there is refused. Where the arguments
/// name a root directory and the host has no directory of that name, no
/// container is built, whatever else the arguments and the host say.
pub proof fn lemma_missing_root_is_refused(args: ArgsView, host: HostFactsView, hostname: Seq<char>)
    requires
        args.mount_dir.len() != 0,
        !host.mount_dir_is_dir,
    ensures
        container_spec(args, host, hostname) is Err,
        (binds_parse(args.addpaths, host.canonical) && host.tor is Ok && host.slirp is Ok)
            ==> container_spec(args, host, hostname) == Err::<ContainerOptsView, ErrcodeView>(
            ErrcodeView::ArgumentInvalid("mount"@),
        ),
{
}

/// One container: its configuration, and the contained process once
/// there is one.
#[derive(Debug, PartialEq, Eq)]
pub struct Container {
    pub config: ContainerOpts,
    /// The contained process. It is known only after the namespaces were
    /// created.
    pub child: Option<i32>,
}

/// The mathematical value of a [`Container`].
pub struct ContainerView {
    pub config: ContainerOptsView,
    pub child: Option<i32>,
}

impl DeepView for Container {
    type V = ContainerView;

    open spec fn deep_view(&self) -> ContainerView {
        ContainerView { config: self.config.deep_view(), child: self.child }
    }
}

/// The error for a contained process that could not be created.
pub open spec fn creation_failure() -> ErrcodeView {
    ErrcodeView::ChildProcessError(0)
}

/// How the run of the contained process is judged. A normal exit with
/// status 0 is success. Any other end is an error, so that a contained
/// process that crashed makes the whole run fail.
pub open spec fn wait_child_spec(status: WaitOutcomeView) -> Result<(), ErrcodeView> {
    match status {
        WaitOutcomeView::Exited(code) => if code == 0 {
            Ok(())
        } else {
            Err(
                ErrcodeView::ContainerError(
                    "Child exited with status "@ + signed_decimal(code as int),
                ),
            )
        },
        WaitOutcomeView::Signaled { signal, .. } => Err(
            ErrcodeView::ContainerError("Child killed by signal "@ + signal),
        ),
        WaitOutcomeView::Other(text) => Err(
            ErrcodeView::ContainerError("Unknown child process status "@ + text),
        ),
        WaitOutcomeView::Failed(cause) => Err(
            ErrcodeView::ContainerError("Error while waiting for child to finish: "@ + cause),
        ),
    }
}

/// Judges the end of the wait for the contained process. Without a
/// contained process there was nothing to wait for.
pub fn wait_child(pid: Option<i32>, status: &WaitOutcome) -> (r: Result<(), Errcode>)
    ensures
        result_view(r) == (if pid is Some {
            wait_child_spec(status.deep_view())
        } else {
            Ok(())
        }),
{
    if pid.is_none() {
        return Ok(());
    }
    match status {
        WaitOutcome::Exited(code) => {
            if *code == 0 {
                Ok(())
            } else {
                let n = format_i32(*code);
                Err(Errcode::ContainerError(concat2("Child exited with status ", n.as_str())))
            }
        },
        WaitOutcome::Signaled { signal, .. } => Err(
            Errcode::ContainerError(concat2("Child killed by signal ", signal.as_str())),
        ),
        WaitOutcome::Other(text) => Err(
            Errcode::ContainerError(concat2("Unknown child process status ", text.as_str())),
        ),
        WaitOutcome::Failed(cause) => Err(
            Errcode::ContainerError(
                concat2("Error while waiting for child to finish: ", cause.as_str()),
            ),
        ),
    }
}

fn parse_binds(addpaths: &Vec<String>, canonical: &Vec<String>) -> (r: Option<Vec<(String, String)>>)
    ensures
        match r {
            Some(binds) => binds_parse(addpaths.deep_view(), canonical.deep_view())
                && binds.deep_view() == binds_spec(addpaths.deep_view(), canonical.deep_view()),
            None => !binds_parse(addpaths.deep_view(), canonical.deep_view()),
        },
{
    if canonical.len() != addpaths.len() {
        return None;
    }
    let mut binds: Vec<(String, String)> = Vec::new();
    let mut i: usize = 0;
    while i < addpaths.len()
        invariant
            i <= addpaths.len(),
            canonical.len() == addpaths.len(),
            binds.len() == i,
            forall|j: int|
                0 <= j < i ==> addpath_spec(#[trigger] addpaths.deep_view()[j]) is Some,
            forall|j: int|
                0 <= j < i ==> (#[trigger] binds.deep_view()[j]) == (
                    canonical.deep_view()[j],
                    addpath_spec(addpaths.deep_view()[j]).unwrap().1,
                ),
        decreases addpaths.len() - i,
    {
        let ghost before = binds.deep_view();
        match parse_addpath(addpaths[i].as_str()) {
            Ok((_, container_path)) => {
                binds.push((canonical[i].clone(), container_path));
                proof {
                    assert(addpaths.deep_view()[i as int] == addpaths[i as int]@);
                    assert(canonical.deep_view()[i as int] == canonical[i as int]@);
                    assert forall|j: int| 0 <= j < i + 1 implies (#[trigger] binds.deep_view()[j])
                        == (
                        canonical.deep_view()[j],
                        addpath_spec(addpaths.deep_view()[j]).unwrap().1,
                    ) by {
                        if j < i {
                            assert(binds.deep_view()[j] == before[j]);
                        }
                    }
                }
            },
            Err(_) => {
                assert(addpaths.deep_view()[i as int] == addpaths[i as int]@);
                return None;
            },
        }
        i += 1;
    }
    assert(binds.deep_view() =~= binds_spec(addpaths.deep_view(), canonical.deep_view()));
    Some(binds)
}

impl Container {
    /// Builds a container from the arguments and from what the host says
    /// of the things they name, with a fresh host name. Nothing is created
    /// on the host before this has succeeded.
    pub fn new(args: Args, host: HostFacts) -> (r: Result<Container, Errcode>)
        ensures
            match r {
                Ok(container) => {
                    &&& container.child is None
                    &&& is_generated_hostname(container.config.hostname@)
                    &&& container.config.deep_view().wf()
                    &&& Ok::<ContainerOptsView, ErrcodeView>(container.config.deep_view())
                        == container_spec(
                        args.deep_view(),
                        host.deep_view(),
                        container.config.hostname@,
                    )
                },
                Err(e) => Err::<ContainerOptsView, ErrcodeView>(e.deep_view()) == container_spec(
                    args.deep_view(),
                    host.deep_view(),
                    Seq::empty(),
                ),
            },
    {
        let hostname = match generate_hostname() {
            Ok(name) => name,
            Err(e) => {
                // A host name can always be generated.
                return Err(e);
            },
        };
        Container::with_hostname(args, host, hostname)
    }

    /// Builds a container with a given host name.
    pub fn with_hostname(args: Args, host: HostFacts, hostname: String) -> (r: Result<
        Container,
        Errcode,
    >)
        ensures
            match r {
                Ok(container) => {
                    &&& container.child is None
                    &&& container.config.deep_view().wf()
                    &&& Ok::<ContainerOptsView, ErrcodeView>(container.config.deep_view())
                        == container_spec(args.deep_view(), host.deep_view(), hostname@)
                },
                Err(e) => Err::<ContainerOptsView, ErrcodeView>(e.deep_view()) == container_spec(
                    args.deep_view(),
                    host.deep_view(),
                    hostname@,
                ),
            },
    {
        let addpaths = match parse_binds(&args.addpaths, &host.canonical) {
            Some(binds) => binds,
            None => {
                return Err(Errcode::ArgumentInvalid("add"));
            },
        };
        // An id of 0 stands for the id that the runtime itself runs as.
        let real_uid = if args.real_uid == 0 {
            host.uid
        } else {
            args.real_uid
        };
        let real_gid = if args.real_gid == 0 {
            host.gid
        } else {
            args.real_gid
        };
        let tor_path = match check_binary(&args.tor, "tor", &host.tor) {
            Ok(path) => path,
            Err(e) => {
                return Err(e);
            },
        };
        let slirp_path = match check_binary(&args.slirp4netns, "slirp4netns", &host.slirp) {
            Ok(path) => path,
            Err(e) => {
                return Err(e);
            },
        };
        let mount_dir = if args.mount_dir.as_str().unicode_len() == 0 {
            None
        } else {
            if !host.mount_dir_is_dir {
                return Err(Errcode::ArgumentInvalid("mount"));
            }
            Some(args.mount_dir)
        };
        match ContainerOpts::with_hostname(
            args.command,
            args.uid,
            real_uid,
            real_gid,
            mount_dir,
            args.namespace,
            addpaths,
            tor_path,
            slirp_path,
            args.disable_syscall,
            args.disable_capabilities,
            hostname,
        ) {
            Ok(config) => Ok(Container { config, child: None }),
            Err(e) => Err(e),
        }
    }

    /// Records how the creation of the contained process went: its
    /// identifier where it succeeded, and the error where it did not.
    pub fn create(&mut self, cloned: Result<i32, String>) -> (r: Result<(), Errcode>)
        ensures
            final(self).config == old(self).config,
            match cloned {
                Ok(pid) => r is Ok && final(self).child == Some(pid),
                Err(_) => {
                    &&& r matches Err(e)
                    &&& e.deep_view() == creation_failure()
                    &&& final(self).child == old(self).child
                },
            },
    {
        match cloned {
            Ok(pid) => {
                self.child = Some(pid);
                Ok(())
            },
            Err(_) => Err(Errcode::ChildProcessError(0)),
        }
    }

    /// Plans the cleanup of what the container left on the host.
    pub fn clean_exit(&self) -> (steps: Vec<Step>)
        ensures
            steps.deep_view() == clean_steps(self.config.hostname@),
    {
        clean_mounts(&self.config.hostname)
    }
}

/// Starts a run with the given arguments: the state it begins in, and its
/// first request, the check of the host.
pub fn start(args: Args) -> (r: (Runtime, Request))
    ensures
        is_generated_hostname(r.0.hostname@),
        r.0.deep_view() == RuntimeView::start(args.deep_view(), r.0.hostname@),
        r.0.deep_view().wf(),
        r.1.deep_view() == RequestView::ProbeHost,
{
    Runtime::start(args)
}

} // verus!
