//! The vocabulary in which the planners describe work on the host: one
//! [`HostCall`] per operation, wrapped in a [`Step`] that also says what a
//! failure of the operation means.

use vstd::prelude::*;
use crate::errors::{Errcode, ErrcodeView};
use crate::text::{concat2, concat4, concat6};

verus! {

/// One mount option.
#[derive(Clone, Copy, Debug, PartialEq, Eq, Structural)]
pub enum MountFlag {
    /// Make the target a bind mount of the source.
    Bind,
    /// Stop mount events from propagating in or out.
    Private,
    /// Mount read-only.
    ReadOnly,
    /// Apply to the whole subtree.
    Recursive,
}

/// A set of mount options.
#[derive(Clone, Copy, Debug, PartialEq, Eq, Structural)]
pub struct MountFlags {
    pub bind: bool,
    pub private: bool,
    pub read_only: bool,
    pub recursive: bool,
}

impl MountFlags {
    /// Whether `flag` is in the set.
    pub open spec fn has(self, flag: MountFlag) -> bool {
        match flag {
            MountFlag::Bind => self.bind,
            MountFlag::Private => self.private,
            MountFlag::ReadOnly => self.read_only,
            MountFlag::Recursive => self.recursive,
        }
    }

    /// The set that holds exactly the flags occurring in `flags`.
    pub open spec fn of(flags: Seq<MountFlag>) -> MountFlags {
        MountFlags {
            bind: flags.contains(MountFlag::Bind),
            private: flags.contains(MountFlag::Private),
            read_only: flags.contains(MountFlag::ReadOnly),
            recursive: flags.contains(MountFlag::Recursive),
        }
    }

    /// The empty set.
    pub fn empty() -> (r: MountFlags)
        ensures
            r == (MountFlags { bind: false, private: false, read_only: false, recursive: false }),
    {
        MountFlags { bind: false, private: false, read_only: false, recursive: false }
    }

    /// Adds `flag` to the set.
    pub fn insert(&mut self, flag: MountFlag)
        ensures
            forall|f: MountFlag| final(self).has(f) == (old(self).has(f) || f == flag),
    {
        match flag {
            MountFlag::Bind => {
                self.bind = true;
            },
            MountFlag::Private => {
                self.private = true;
            },
            MountFlag::ReadOnly => {
                self.read_only = true;
            },
            MountFlag::Recursive => {
                self.recursive = true;
            },
        }
    }
}

/// One kind of kernel namespace.
#[derive(Clone, Copy, Debug, PartialEq, Eq, Structural)]
pub enum Namespace {
    Mount,
    Network,
    User,
    Cgroup,
    Pid,
    Ipc,
    Uts,
}

/// A set of namespace kinds.
#[derive(Clone, Copy, Debug, PartialEq, Eq, Structural)]
pub struct NamespaceSet {
    pub mount: bool,
    pub network: bool,
    pub user: bool,
    pub cgroup: bool,
    pub pid: bool,
    pub ipc: bool,
    pub uts: bool,
}

impl NamespaceSet {
    /// Whether `ns` is in the set.
    pub open spec fn has(self, ns: Namespace) -> bool {
        match ns {
            Namespace::Mount => self.mount,
            Namespace::Network => self.network,
            Namespace::User => self.user,
            Namespace::Cgroup => self.cgroup,
            Namespace::Pid => self.pid,
            Namespace::Ipc => self.ipc,
            Namespace::Uts => self.uts,
        }
    }

    /// The empty set.
    pub fn empty() -> (r: NamespaceSet)
        ensures
            forall|ns: Namespace| !r.has(ns),
    {
        NamespaceSet {
            mount: false,
            network: false,
            user: false,
            cgroup: false,
            pid: false,
            ipc: false,
            uts: false,
        }
    }

    /// Adds `ns` to the set.
    pub fn insert(&mut self, ns: Namespace)
        ensures
            forall|n: Namespace| final(self).has(n) == (old(self).has(n) || n == ns),
    {
        match ns {
            Namespace::Mount => {
                self.mount = true;
            },
            Namespace::Network => {
                self.network = true;
            },
            Namespace::User => {
                self.user = true;
            },
            Namespace::Cgroup => {
                self.cgroup = true;
            },
            Namespace::Pid => {
                self.pid = true;
            },
            Namespace::Ipc => {
                self.ipc = true;
            },
            Namespace::Uts => {
                self.uts = true;
            },
        }
    }
}

/// One operation on the host. Operations that consist of two system calls
/// (open then write, open then join) report which of the two failed.
#[derive(Clone, Debug, PartialEq, Eq)]
pub enum HostCall {
    /// Create a directory and its missing parents.
    CreateDirAll { path: String },
    /// Mount `source` on `target`; without a source, change how `target`
    /// is mounted.
    Mount { source: Option<String>, target: String, fstype: Option<String>, flags: MountFlags },
    /// Clone the mount tree at `from` (first call) and attach the clone at
    /// `to` (second call).
    BindTree { from: String, to: String },
    /// Make `new_root` the root mount and move the old root to `put_old`.
    PivotRoot { new_root: String, put_old: String },
    /// Change the working directory.
    Chdir { path: String },
    /// Lazily unmount what is mounted at `path`.
    Detach { path: String },
    /// Remove an empty directory.
    RemoveDir { path: String },
    /// Remove a directory and everything below it.
    RemoveDirAll { path: String },
    /// Set the host name of the current UTS namespace.
    SetHostname { name: String },
    /// Open `path` for writing (first call), creating or truncating it if
    /// `create` is set, and write `contents` (second call).
    WriteFile { path: String, contents: String, create: bool },
    /// Open the namespace file at `path` read-only and close-on-exec (first
    /// call) and move the calling process into that network namespace
    /// (second call).
    JoinNetworkNamespace { path: String },
    /// Leave the namespaces in `namespaces` for fresh ones.
    Unshare { namespaces: NamespaceSet },
}

/// The mathematical value of a [`HostCall`].
pub enum HostCallView {
    CreateDirAll { path: Seq<char> },
    Mount {
        source: Option<Seq<char>>,
        target: Seq<char>,
        fstype: Option<Seq<char>>,
        flags: MountFlags,
    },
    BindTree { from: Seq<char>, to: Seq<char> },
    PivotRoot { new_root: Seq<char>, put_old: Seq<char> },
    Chdir { path: Seq<char> },
    Detach { path: Seq<char> },
    RemoveDir { path: Seq<char> },
    RemoveDirAll { path: Seq<char> },
    SetHostname { name: Seq<char> },
    WriteFile { path: Seq<char>, contents: Seq<char>, create: bool },
    JoinNetworkNamespace { path: Seq<char> },
    Unshare { namespaces: NamespaceSet },
}

impl DeepView for HostCall {
    type V = HostCallView;

    open spec fn deep_view(&self) -> HostCallView {
        match self {
            HostCall::CreateDirAll { path } => HostCallView::CreateDirAll { path: path@ },
            HostCall::Mount { source, target, fstype, flags } => HostCallView::Mount {
                source: source.deep_view(),
                target: target@,
                fstype: fstype.deep_view(),
                flags: *flags,
            },
            HostCall::BindTree { from, to } => HostCallView::BindTree { from: from@, to: to@ },
            HostCall::PivotRoot { new_root, put_old } => HostCallView::PivotRoot {
                new_root: new_root@,
                put_old: put_old@,
            },
            HostCall::Chdir { path } => HostCallView::Chdir { path: path@ },
            HostCall::Detach { path } => HostCallView::Detach { path: path@ },
            HostCall::RemoveDir { path } => HostCallView::RemoveDir { path: path@ },
            HostCall::RemoveDirAll { path } => HostCallView::RemoveDirAll { path: path@ },
            HostCall::SetHostname { name } => HostCallView::SetHostname { name: name@ },
            HostCall::WriteFile { path, contents, create } => HostCallView::WriteFile {
                path: path@,
                contents: contents@,
                create: *create,
            },
            HostCall::JoinNetworkNamespace { path } => HostCallView::JoinNetworkNamespace {
                path: path@,
            },
            HostCall::Unshare { namespaces } => HostCallView::Unshare { namespaces: *namespaces },
        }
    }
}

/// An external program to start, with its arguments. The program's
/// standard output is discarded.
#[derive(Clone, Debug, PartialEq, Eq)]
pub struct Command {
    pub program: String,
    pub args: Vec<String>,
}

/// The mathematical value of a [`Command`].
pub struct CommandView {
    pub program: Seq<char>,
    pub args: Seq<Seq<char>>,
}

impl DeepView for Command {
    type V = CommandView;

    open spec fn deep_view(&self) -> CommandView {
        CommandView { program: self.program@, args: self.args.deep_view() }
    }
}

impl Command {
    /// A copy of the command.
    pub fn duplicate(&self) -> (copy: Command)
        ensures
            copy.deep_view() == self.deep_view(),
    {
        Command { program: self.program.clone(), args: self.args.clone() }
    }
}

/// How a wait for a child process ended.
#[derive(Clone, Debug, PartialEq, Eq)]
pub enum WaitOutcome {
    /// The child exited with this status.
    Exited(i32),
    /// The child was killed by the named signal.
    Signaled { signal: String, core_dumped: bool },
    /// The wait returned some other status, described by the text.
    Other(String),
    /// The wait itself failed, for the given reason.
    Failed(String),
}

/// The mathematical value of a [`WaitOutcome`].
pub enum WaitOutcomeView {
    Exited(i32),
    Signaled { signal: Seq<char>, core_dumped: bool },
    Other(Seq<char>),
    Failed(Seq<char>),
}

impl DeepView for WaitOutcome {
    type V = WaitOutcomeView;

    open spec fn deep_view(&self) -> WaitOutcomeView {
        match self {
            WaitOutcome::Exited(status) => WaitOutcomeView::Exited(*status),
            WaitOutcome::Signaled { signal, core_dumped } => WaitOutcomeView::Signaled {
                signal: signal@,
                core_dumped: *core_dumped,
            },
            WaitOutcome::Other(text) => WaitOutcomeView::Other(text@),
            WaitOutcome::Failed(cause) => WaitOutcomeView::Failed(cause@),
        }
    }
}

/// What a look at a path on the host found.
#[derive(Clone, Debug, PartialEq, Eq)]
pub enum PathProbe {
    /// Something exists at the path.
    Present,
    /// Nothing exists at the path.
    Missing,
    /// The look itself failed, for the given reason.
    Failed(String),
}

/// The mathematical value of a [`PathProbe`].
pub enum PathProbeView {
    Present,
    Missing,
    Failed(Seq<char>),
}

impl DeepView for PathProbe {
    type V = PathProbeView;

    open spec fn deep_view(&self) -> PathProbeView {
        match self {
            PathProbe::Present => PathProbeView::Present,
            PathProbe::Missing => PathProbeView::Missing,
            PathProbe::Failed(cause) => PathProbeView::Failed(cause@),
        }
    }
}

/// What an operation is for. It decides how a failure is reported.
#[derive(Clone, Copy, Debug, PartialEq, Eq, Structural)]
pub enum Origin {
    /// Mounting or remounting a directory of the container.
    MountDirectory,
    /// Creating a directory of the container.
    CreateDirectory,
    /// Detaching a mount.
    UnmountPath,
    /// Deleting a directory.
    DeleteDir,
    /// Removing the per-run temporary directory.
    CleanTmp,
    /// Switching the root mount.
    PivotRoot,
    /// Moving to the new root directory.
    ChdirRoot,
    /// Bind-mounting one tree over another.
    BindMountNamespace,
    /// Bind-mounting the network-namespace area into the container.
    RemountNetns,
    /// Writing the user-id map.
    UidMap,
    /// Disabling changes to the group list.
    Setgroups,
    /// Writing the group-id map.
    GidMap,
    /// Entering the named network namespace.
    JoinNamespace,
    /// Leaving the inherited mount namespace.
    UnshareMounts,
    /// Mounting a view of `/sys` that matches the network namespace.
    RemountSys,
    /// Setting the container's host name.
    SetHostname,
    /// Creating the proxy daemon's data directory.
    TorDataDir,
    /// Writing the proxy daemon's default configuration.
    TorConfig,
}

/// One step of a plan: the operation, and what it is for.
#[derive(Clone, Debug, PartialEq, Eq)]
pub struct Step {
    pub call: HostCall,
    pub origin: Origin,
}

/// The mathematical value of a [`Step`].
pub struct StepView {
    pub call: HostCallView,
    pub origin: Origin,
}

impl DeepView for Step {
    type V = StepView;

    open spec fn deep_view(&self) -> StepView {
        StepView { call: self.call.deep_view(), origin: self.origin }
    }
}

impl HostCall {
    /// The first path the operation names.
    pub fn subject(&self) -> (r: &str)
        ensures
            r@ == self.deep_view().subject(),
    {
        match self {
            HostCall::CreateDirAll { path } => path.as_str(),
            HostCall::Mount { source, target, .. } => match source {
                Some(s) => s.as_str(),
                None => target.as_str(),
            },
            HostCall::BindTree { from, .. } => from.as_str(),
            HostCall::PivotRoot { new_root, .. } => new_root.as_str(),
            HostCall::Chdir { path } => path.as_str(),
            HostCall::Detach { path } => path.as_str(),
            HostCall::RemoveDir { path } => path.as_str(),
            HostCall::RemoveDirAll { path } => path.as_str(),
            HostCall::SetHostname { name } => name.as_str(),
            HostCall::WriteFile { path, .. } => path.as_str(),
            HostCall::JoinNetworkNamespace { path } => path.as_str(),
            HostCall::Unshare { .. } => {
                proof {
                    reveal_strlit("");
                }
                assert(""@ =~= Seq::<char>::empty());
                ""
            },
        }
    }

    /// The path the operation acts on.
    pub fn target(&self) -> (r: &str)
        ensures
            r@ == self.deep_view().target(),
    {
        match self {
            HostCall::Mount { target, .. } => target.as_str(),
            HostCall::BindTree { to, .. } => to.as_str(),
            HostCall::PivotRoot { put_old, .. } => put_old.as_str(),
            _ => self.subject(),
        }
    }
}

impl Step {
    fn bind_failure_text(&self, early: bool, cause: &str) -> (s: String)
        ensures
            s@ == self.deep_view().bind_failure_text(early, cause@),
    {
        if early {
            concat4("Cannot open target path ", self.call.subject(), ": ", cause)
        } else {
            concat6("Can not mount ", self.call.subject(), " to ", self.call.target(), ": ", cause)
        }
    }

    /// The error that a failure of this step amounts to, or `None` where
    /// the failure is tolerated and the plan goes on.
    pub fn failure(&self, early: bool, cause: &str) -> (r: Option<Errcode>)
        ensures
            r.deep_view() == self.deep_view().failure(early, cause@),
    {
        let subject = self.call.subject();
        let target = self.call.target();
        match self.origin {
            Origin::MountDirectory => {
                let text = match &self.call {
                    HostCall::Mount { source: Some(s), .. } => concat6(
                        "Cannot mount ",
                        s.as_str(),
                        " to ",
                        target,
                        ": ",
                        cause,
                    ),
                    _ => concat4("Cannot remount ", target, ": ", cause),
                };
                Some(Errcode::MountsError(text))
            },
            Origin::CreateDirectory => Some(
                Errcode::MountsError(concat4("Cannot create directory ", subject, " : ", cause)),
            ),
            Origin::UnmountPath => Some(
                Errcode::MountsError(concat4("Unable to detach directory ", subject, ": ", cause)),
            ),
            Origin::DeleteDir => Some(
                Errcode::MountsError(concat4("Unable to delete directory ", subject, " : ", cause)),
            ),
            Origin::CleanTmp => Some(
                Errcode::MountsError(concat2("Unable to delete tmp dir: ", cause)),
            ),
            Origin::PivotRoot => Some(
                Errcode::MountsError(
                    concat6(
                        "Can not change root mount point from ",
                        target,
                        " to ",
                        subject,
                        " : ",
                        cause,
                    ),
                ),
            ),
            Origin::ChdirRoot => Some(
                Errcode::MountsError(concat2("Cannot change cwd to root: ", cause)),
            ),
            Origin::BindMountNamespace => Some(
                Errcode::MountsError(self.bind_failure_text(early, cause)),
            ),
            Origin::RemountNetns => {
                let inner = Errcode::MountsError(self.bind_failure_text(early, cause));
                let text = inner.to_string();
                Some(
                    Errcode::NamespacesError(
                        concat2(
                            "Can not remount network namespace inside the container: ",
                            text.as_str(),
                        ),
                    ),
                )
            },
            Origin::UidMap => Some(
                Errcode::NamespacesError(
                    if early {
                        String::from_str("Unable to create UID Map")
                    } else {
                        concat2("Unable to open UID Map: ", cause)
                    },
                ),
            ),
            Origin::Setgroups => if early {
                None
            } else {
                Some(Errcode::NamespacesError(concat2("Unable to block setgroups: ", cause)))
            },
            Origin::GidMap => Some(
                Errcode::NamespacesError(
                    if early {
                        String::from_str("Unable to create GID map")
                    } else {
                        concat2("Unable to open GID Map: ", cause)
                    },
                ),
            ),
            Origin::JoinNamespace => Some(
                Errcode::NamespacesError(
                    if early {
                        concat2("Can not open network namespace: ", cause)
                    } else {
                        concat2("Unable to set target namespace: ", cause)
                    },
                ),
            ),
            Origin::UnshareMounts => Some(
                Errcode::NamespacesError(concat2("Can not unshare: ", cause)),
            ),
            Origin::RemountSys => Some(
                Errcode::NamespacesError(concat2("Can not remount /sys to namespace: ", cause)),
            ),
            Origin::SetHostname => Some(Errcode::HostnameError(0)),
            Origin::TorDataDir => None,
            Origin::TorConfig => Some(
                Errcode::TorError(
                    concat4("Can not write default configuration ", subject, ": ", cause),
                ),
            ),
        }
    }
}

impl HostCallView {
    /// The first path the operation names: what it creates, mounts from or
    /// opens. Empty where it names none.
    pub open spec fn subject(self) -> Seq<char> {
        match self {
            HostCallView::CreateDirAll { path } => path,
            HostCallView::Mount { source, target, .. } => match source {
                Some(s) => s,
                None => target,
            },
            HostCallView::BindTree { from, .. } => from,
            HostCallView::PivotRoot { new_root, .. } => new_root,
            HostCallView::Chdir { path } => path,
            HostCallView::Detach { path } => path,
            HostCallView::RemoveDir { path } => path,
            HostCallView::RemoveDirAll { path } => path,
            HostCallView::SetHostname { name } => name,
            HostCallView::WriteFile { path, .. } => path,
            HostCallView::JoinNetworkNamespace { path } => path,
            HostCallView::Unshare { .. } => Seq::empty(),
        }
    }

    /// The path the operation acts on: the mount point, the destination.
    /// The same as [`Self::subject`] where the operation names one path.
    pub open spec fn target(self) -> Seq<char> {
        match self {
            HostCallView::Mount { target, .. } => target,
            HostCallView::BindTree { to, .. } => to,
            HostCallView::PivotRoot { put_old, .. } => put_old,
            _ => self.subject(),
        }
    }
}

impl StepView {
    /// The text of the mount error for a failed bind of one tree over
    /// another.
    pub open spec fn bind_failure_text(self, early: bool, cause: Seq<char>) -> Seq<char> {
        if early {
            "Cannot open target path "@ + self.call.subject() + ": "@ + cause
        } else {
            "Can not mount "@ + self.call.subject() + " to "@ + self.call.target() + ": "@ + cause
        }
    }

    /// The error that a failure of this step amounts to, or `None` where the
    /// failure is tolerated and the plan goes on. `early` says that the
    /// first of the operation's two system calls failed; `cause` is the
    /// host's description of the failure.
    pub open spec fn failure(self, early: bool, cause: Seq<char>) -> Option<ErrcodeView> {
        let subject = self.call.subject();
        let target = self.call.target();
        match self.origin {
            Origin::MountDirectory => Some(
                ErrcodeView::MountsError(
                    match self.call {
                        HostCallView::Mount { source: Some(s), .. } => "Cannot mount "@ + s
                            + " to "@ + target + ": "@ + cause,
                        _ => "Cannot remount "@ + target + ": "@ + cause,
                    },
                ),
            ),
            Origin::CreateDirectory => Some(
                ErrcodeView::MountsError("Cannot create directory "@ + subject + " : "@ + cause),
            ),
            Origin::UnmountPath => Some(
                ErrcodeView::MountsError("Unable to detach directory "@ + subject + ": "@ + cause),
            ),
            Origin::DeleteDir => Some(
                ErrcodeView::MountsError(
                    "Unable to delete directory "@ + subject + " : "@ + cause,
                ),
            ),
            Origin::CleanTmp => Some(
                ErrcodeView::MountsError("Unable to delete tmp dir: "@ + cause),
            ),
            Origin::PivotRoot => Some(
                ErrcodeView::MountsError(
                    "Can not change root mount point from "@ + target + " to "@ + subject
                        + " : "@ + cause,
                ),
            ),
            Origin::ChdirRoot => Some(
                ErrcodeView::MountsError("Cannot change cwd to root: "@ + cause),
            ),
            Origin::BindMountNamespace => Some(
                ErrcodeView::MountsError(self.bind_failure_text(early, cause)),
            ),
            Origin::RemountNetns => Some(
                ErrcodeView::NamespacesError(
                    "Can not remount network namespace inside the container: "@
                        + ErrcodeView::MountsError(
                        self.bind_failure_text(early, cause),
                    ).message(),
                ),
            ),
            Origin::UidMap => Some(
                ErrcodeView::NamespacesError(
                    if early {
                        "Unable to create UID Map"@
                    } else {
                        "Unable to open UID Map: "@ + cause
                    },
                ),
            ),
            Origin::Setgroups => if early {
                None
            } else {
                Some(ErrcodeView::NamespacesError("Unable to block setgroups: "@ + cause))
            },
            Origin::GidMap => Some(
                ErrcodeView::NamespacesError(
                    if early {
                        "Unable to create GID map"@
                    } else {
                        "Unable to open GID Map: "@ + cause
                    },
                ),
            ),
            Origin::JoinNamespace => Some(
                ErrcodeView::NamespacesError(
                    if early {
                        "Can not open network namespace: "@ + cause
                    } else {
                        "Unable to set target namespace: "@ + cause
                    },
                ),
            ),
            Origin::UnshareMounts => Some(
                ErrcodeView::NamespacesError("Can not unshare: "@ + cause),
            ),
            Origin::RemountSys => Some(
                ErrcodeView::NamespacesError("Can not remount /sys to namespace: "@ + cause),
            ),
            Origin::SetHostname => Some(ErrcodeView::HostnameError(0)),
            Origin::TorDataDir => None,
            Origin::TorConfig => Some(
                ErrcodeView::TorError(
                    "Can not write default configuration "@ + subject + ": "@ + cause,
                ),
            ),
        }
    }
}

} // verus!
