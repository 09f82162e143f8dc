//! The contained process: the namespaces it is created in, and the fixed
//! sequence it runs through before it turns into the target command.
//!
//! The sequence is strictly ordered, because every step narrows what the
//! later ones may do: host name, network-namespace area, identity maps,
//! mounts, network, firewall, the move into the network namespace, and
//! only then the loss of capabilities and the syscall filter. The last step
//! replaces the process image and cannot be undone. [`ChildSetup`] holds the decisions; the process performs each
//! [`ChildRequest`] and reports the outcome as a [`ChildEvent`].

use vstd::prelude::*;
use capctl::caps::CapSet;
use crate::capabilities::{capset_caps, dropped, setcapabilities};
use crate::config::{ContainerOpts, ContainerOptsView};
use crate::errors::{Errcode, ErrcodeView};
use crate::host::{Namespace, NamespaceSet, PathProbe, PathProbeView, Step, StepView};
use crate::hostname::{hostname_step, set_container_hostname};
use crate::mountpoint::{
    keeps_to_new_root, lemma_rebase_isolates, mount_plan, mount_plan_spec, rebase_plan,
    staging_dir,
};
use crate::namespaces::{
    mount_netns, mount_netns_spec, netns_dir, split_namespace, split_namespace_steps, userns,
    userns_steps,
};
use crate::net::{
    prepare_net, NetEvent, NetEventView, NetRequest, NetRequestView, NetSetup, NetSetupView,
    NetworkPlanView,
};
use crate::nftables::{
    lemma_rules_match_interface, matches_interface, nat_table, redirect_rules, ruleset_spec,
    test_apply_ruleset, transaction, NfCmd, NfCmdView,
};
use crate::syscalls::{filter_error, refuse_syscall, setsyscalls, syscall_rules, FilterFailure, SyscallRule};
use crate::text::{all_alphanumeric, concat2};
use crate::utils::generate_random_str;

verus! {

/// The size of the stack that the contained process starts on.
pub const STACK_SIZE: usize = 1024 * 1024;

/// The address of the endpoint that stays outside the container.
pub const VETH_IP: &'static str = "10.40.50.10";

/// The address of the endpoint that moves into the container.
pub const VETH_2_IP: &'static str = "10.40.50.20";

/// The prefix length of the subnet of both.
pub const SUBNET: u8 = 24;

/// How the contained process is created: in one step, in fresh namespaces
/// of all the kinds named, so that no half-isolated process can ever be
/// observed.
#[derive(Clone, Copy, Debug, PartialEq, Eq, Structural)]
pub struct CloneRequest {
    pub namespaces: NamespaceSet,
    pub stack_size: usize,
    /// Whether the parent is signalled when the process ends.
    pub notify_parent: bool,
}

/// The namespaces of a contained process: mount, network, user, cgroup,
/// IPC and UTS always; PID only on request, since a companion outside must
/// be able to see the contained process by its identifier.
pub open spec fn container_namespaces(isolate_pids: bool) -> NamespaceSet {
    NamespaceSet {
        mount: true,
        network: true,
        user: true,
        cgroup: true,
        pid: isolate_pids,
        ipc: true,
        uts: true,
    }
}

/// Plans the creation of the contained process.
pub fn generate_child_process(isolate_pids: bool) -> (request: CloneRequest)
    ensures
        request == (CloneRequest {
            namespaces: container_namespaces(isolate_pids),
            stack_size: STACK_SIZE,
            notify_parent: true,
        }),
{
    let mut flags = NamespaceSet::empty();
    flags.insert(Namespace::Mount);
    flags.insert(Namespace::Network);
    flags.insert(Namespace::User);
    flags.insert(Namespace::Cgroup);
    if isolate_pids {
        flags.insert(Namespace::Pid);
    }
    flags.insert(Namespace::Ipc);
    flags.insert(Namespace::Uts);
    proof {
        assert(flags.has(Namespace::Mount));
        assert(flags.has(Namespace::Network));
        assert(flags.has(Namespace::User));
        assert(flags.has(Namespace::Cgroup));
        assert(flags.has(Namespace::Pid) == isolate_pids);
        assert(flags.has(Namespace::Ipc));
        assert(flags.has(Namespace::Uts));
    }
    CloneRequest { namespaces: flags, stack_size: STACK_SIZE, notify_parent: true }
}

/// What the contained process is asked to do next.
#[derive(Debug, PartialEq, Eq)]
pub enum ChildRequest {
    /// Perform the steps in order and stop at the first that fails for
    /// good.
    Run(Vec<Step>),
    /// Look whether the host's network-namespace directory exists.
    ProbeNetns { path: String },
    /// Perform a request of the network set-up.
    Net(NetRequest),
    /// Apply the firewall transaction as a whole.
    ApplyRuleset(Vec<NfCmd>),
    /// Read the bounding and the inheritable capability set of the
    /// calling thread.
    ReadCapabilities,
    /// Reduce the bounding and the inheritable capability set of the
    /// calling thread to these.
    SetCapabilities { bounding: CapSet, inheritable: CapSet },
    /// Install a default-allow syscall filter that refuses what the rules
    /// name.
    InstallFilter(Vec<SyscallRule>),
    /// Look whether `/sys` is mounted read-only.
    ProbeSys { path: String },
    /// Replace the process image with the target command.
    Exec { path: String, argv: Vec<String>, env: Vec<String> },
    /// Exit with the status, for the reason given if the set-up failed.
    Exit { code: i32, reason: Option<Errcode> },
}

/// The mathematical value of a [`ChildRequest`].
pub enum ChildRequestView {
    Run(Seq<StepView>),
    ProbeNetns { path: Seq<char> },
    Net(NetRequestView),
    ApplyRuleset(Seq<NfCmdView>),
    ReadCapabilities,
    SetCapabilities { bounding: Set<u8>, inheritable: Set<u8> },
    InstallFilter(Seq<SyscallRule>),
    ProbeSys { path: Seq<char> },
    Exec { path: Seq<char>, argv: Seq<Seq<char>>, env: Seq<Seq<char>> },
    Exit { code: i32, reason: Option<ErrcodeView> },
}

impl DeepView for ChildRequest {
    type V = ChildRequestView;

    open spec fn deep_view(&self) -> ChildRequestView {
        match self {
            ChildRequest::Run(steps) => ChildRequestView::Run(steps.deep_view()),
            ChildRequest::ProbeNetns { path } => ChildRequestView::ProbeNetns { path: path@ },
            ChildRequest::Net(request) => ChildRequestView::Net(request.deep_view()),
            ChildRequest::ApplyRuleset(commands) => ChildRequestView::ApplyRuleset(
                commands.deep_view(),
            ),
            ChildRequest::ReadCapabilities => ChildRequestView::ReadCapabilities,
            ChildRequest::SetCapabilities {
                bounding,
                inheritable,
            } => ChildRequestView::SetCapabilities {
                bounding: capset_caps(*bounding),
                inheritable: capset_caps(*inheritable),
            },
            ChildRequest::InstallFilter(rules) => ChildRequestView::InstallFilter(rules@),
            ChildRequest::ProbeSys { path } => ChildRequestView::ProbeSys { path: path@ },
            ChildRequest::Exec { path, argv, env } => ChildRequestView::Exec {
                path: path@,
                argv: argv.deep_view(),
                env: env.deep_view(),
            },
            ChildRequest::Exit { code, reason } => ChildRequestView::Exit {
                code: *code,
                reason: reason.deep_view(),
            },
        }
    }
}

/// What the contained process reports back.
#[derive(Debug, PartialEq, Eq)]
pub enum ChildEvent {
    /// The steps were performed, or one of them failed with this error.
    Ran(Result<(), Errcode>),
    /// What the look at a path found.
    Probed(PathProbe),
    /// The outcome of a request of the network set-up.
    Net(NetEvent),
    /// The firewall transaction was applied, or failed for this reason.
    Applied(Result<(), String>),
    /// The capability sets that were read, or why they could not be.
    Capabilities(Result<(CapSet, CapSet), String>),
    /// The capability sets were reduced, or could not be for this reason.
    CapabilitiesSet(Result<(), String>),
    /// The syscall filter was installed, or it failed in this way.
    Installed(Result<(), FilterFailure>),
    /// Whether `/sys` is mounted read-only.
    SysReadOnly(bool),
    /// The process image could not be replaced, for this reason.
    ExecFailed(String),
}

/// The mathematical value of a [`ChildEvent`].
pub enum ChildEventView {
    Ran(Result<(), ErrcodeView>),
    Probed(PathProbeView),
    Net(NetEventView),
    Applied(Result<(), Seq<char>>),
    Capabilities(Result<(Set<u8>, Set<u8>), Seq<char>>),
    CapabilitiesSet(Result<(), Seq<char>>),
    Installed(Result<(), ErrcodeView>),
    SysReadOnly(bool),
    ExecFailed(Seq<char>),
}

impl DeepView for ChildEvent {
    type V = ChildEventView;

    open spec fn deep_view(&self) -> ChildEventView {
        match self {
            ChildEvent::Ran(r) => ChildEventView::Ran(
                match r {
                    Ok(_) => Ok(()),
                    Err(e) => Err(e.deep_view()),
                },
            ),
            ChildEvent::Probed(probe) => ChildEventView::Probed(probe.deep_view()),
            ChildEvent::Net(event) => ChildEventView::Net(event.deep_view()),
            ChildEvent::Applied(r) => ChildEventView::Applied(
                match r {
                    Ok(_) => Ok(()),
                    Err(cause) => Err(cause@),
                },
            ),
            ChildEvent::Capabilities(r) => ChildEventView::Capabilities(
                match r {
                    Ok((bounding, inheritable)) => Ok(
                        (capset_caps(*bounding), capset_caps(*inheritable)),
                    ),
                    Err(cause) => Err(cause@),
                },
            ),
            ChildEvent::CapabilitiesSet(r) => ChildEventView::CapabilitiesSet(
                match r {
                    Ok(_) => Ok(()),
                    Err(cause) => Err(cause@),
                },
            ),
            ChildEvent::Installed(r) => ChildEventView::Installed(
                match r {
                    Ok(_) => Ok(()),
                    Err(failure) => Err(filter_error(*failure)),
                },
            ),
            ChildEvent::SysReadOnly(read_only) => ChildEventView::SysReadOnly(*read_only),
            ChildEvent::ExecFailed(cause) => ChildEventView::ExecFailed(cause@),
        }
    }
}

/// How far the contained process has come: the request that is under way.
#[derive(Clone, Copy, Debug, PartialEq, Eq, Structural)]
pub enum ChildStage {
    Hostname,
    NetnsProbe,
    NetnsArea,
    Identity,
    Mounts,
    Network,
    Firewall,
    JoinProbe,
    Joining,
    CapabilitiesRead,
    CapabilitiesSet,
    Syscalls,
    Executing,
    Exited,
}

/// The contained process between two requests.
#[derive(Debug, PartialEq, Eq)]
pub struct ChildSetup {
    pub config: ContainerOpts,
    pub stage: ChildStage,
    /// The network set-up, while it is under way.
    pub net: Option<NetSetup>,
    /// The random part of the name of the staging directory.
    pub staging_suffix: String,
    /// The random part of the name of the directory for the old root.
    pub old_root_suffix: String,
    /// The rules of the syscall filter.
    pub filter: Vec<SyscallRule>,
}

/// The mathematical value of a [`ChildSetup`].
pub struct ChildSetupView {
    pub config: ContainerOptsView,
    pub stage: ChildStage,
    pub net: Option<NetSetupView>,
    pub staging_suffix: Seq<char>,
    pub old_root_suffix: Seq<char>,
    pub filter: Seq<SyscallRule>,
}

impl DeepView for ChildSetup {
    type V = ChildSetupView;

    open spec fn deep_view(&self) -> ChildSetupView {
        ChildSetupView {
            config: self.config.deep_view(),
            stage: self.stage,
            net: self.net.deep_view(),
            staging_suffix: self.staging_suffix@,
            old_root_suffix: self.old_root_suffix@,
            filter: self.filter@,
        }
    }
}

/// The status with which the contained process exits when its set-up
/// fails or its image cannot be replaced.
pub const SETUP_FAILED: i32 = -1;

/// The status with which it exits when it cannot move into its network
/// namespace.
pub const JOIN_FAILED: i32 = 1;

impl ChildSetupView {
    /// The same state at another stage.
    pub open spec fn at(self, stage: ChildStage) -> ChildSetupView {
        ChildSetupView { stage, ..self }
    }

    /// The state and the request that end the process with an error.
    pub open spec fn abort(self, code: i32, e: ErrcodeView) -> (ChildSetupView, ChildRequestView) {
        (
            ChildSetupView { stage: ChildStage::Exited, net: None, ..self },
            ChildRequestView::Exit { code, reason: Some(e) },
        )
    }

    /// The first request: give the container its host name.
    pub open spec fn first(self) -> ChildRequestView {
        ChildRequestView::Run(seq![hostname_step(self.config.hostname)])
    }

    /// The network plan of the container.
    pub open spec fn network(self) -> NetworkPlanView {
        NetworkPlanView {
            namespace: self.config.namespace,
            veth_ip: VETH_IP@,
            veth_2_ip: VETH_2_IP@,
            subnet: SUBNET,
        }
    }

    /// What follows the move into the network namespace: the capabilities
    /// unless they are to be kept, else what follows them.
    pub open spec fn reduce_privileges(self) -> (ChildSetupView, ChildRequestView) {
        if self.config.disable_capabilities {
            self.filter_syscalls()
        } else {
            (self.at(ChildStage::CapabilitiesRead), ChildRequestView::ReadCapabilities)
        }
    }

    /// What follows the capabilities: the syscall filter unless there is
    /// to be none, else the target command.
    pub open spec fn filter_syscalls(self) -> (ChildSetupView, ChildRequestView) {
        if self.config.disable_syscall {
            self.exec()
        } else {
            (self.at(ChildStage::Syscalls), ChildRequestView::InstallFilter(self.filter))
        }
    }

    /// The last step: the process image is replaced with the target
    /// command, which gets the configured arguments and an empty
    /// environment.
    pub open spec fn exec(self) -> (ChildSetupView, ChildRequestView) {
        (
            self.at(ChildStage::Executing),
            ChildRequestView::Exec {
                path: self.config.path,
                argv: self.config.argv,
                env: Seq::empty(),
            },
        )
    }

    /// What follows from an event: the next state and the next request.
    /// The first failure ends the process with a status that is not zero;
    /// an answer that does not fit the request under way counts as a
    /// failure.
    pub open spec fn next(self, event: ChildEventView) -> (ChildSetupView, ChildRequestView) {
        match (self.stage, event) {
            (ChildStage::Hostname, ChildEventView::Ran(Ok(_))) => (
                self.at(ChildStage::NetnsProbe),
                ChildRequestView::ProbeNetns { path: netns_dir() },
            ),
            (ChildStage::NetnsProbe, ChildEventView::Probed(probe)) => match mount_netns_spec(
                self.config.hostname,
                probe,
            ) {
                Ok(steps) => (self.at(ChildStage::NetnsArea), ChildRequestView::Run(steps)),
                Err(e) => self.abort(SETUP_FAILED, e),
            },
            (ChildStage::NetnsArea, ChildEventView::Ran(Ok(_))) => (
                self.at(ChildStage::Identity),
                ChildRequestView::Run(
                    userns_steps(self.config.real_uid, self.config.real_gid, self.config.uid),
                ),
            ),
            (ChildStage::Identity, ChildEventView::Ran(Ok(_))) => (
                self.at(ChildStage::Mounts),
                ChildRequestView::Run(
                    mount_plan_spec(
                        self.config.mount_dir,
                        self.config.addpaths,
                        self.staging_suffix,
                        self.old_root_suffix,
                    ).steps,
                ),
            ),
            (ChildStage::Mounts, ChildEventView::Ran(Ok(_))) => (
                ChildSetupView {
                    stage: ChildStage::Network,
                    net: Some(NetSetupView::start(self.network())),
                    ..self
                },
                ChildRequestView::Net(NetRequestView::Connect),
            ),
            (ChildStage::Network, ChildEventView::Net(event)) => match self.net {
                Some(net) => {
                    let (after, request) = net.next(event);
                    match request {
                        NetRequestView::Finish { .. } => (
                            ChildSetupView { stage: ChildStage::Firewall, net: None, ..self },
                            ChildRequestView::ApplyRuleset(
                                transaction(nat_table(), ruleset_spec(self.network().veth())),
                            ),
                        ),
                        NetRequestView::Abort(e) => self.abort(SETUP_FAILED, e),
                        _ => (
                            ChildSetupView { net: Some(after), ..self },
                            ChildRequestView::Net(request),
                        ),
                    }
                },
                None => self.abort(SETUP_FAILED, unexpected()),
            },
            (ChildStage::Firewall, ChildEventView::Applied(Ok(_))) => (
                self.at(ChildStage::JoinProbe),
                ChildRequestView::ProbeSys { path: "/sys"@ },
            ),
            (ChildStage::Firewall, ChildEventView::Applied(Err(cause))) => self.abort(
                SETUP_FAILED,
                ErrcodeView::NetworkError("Can not apply the firewall ruleset: "@ + cause),
            ),
            (ChildStage::CapabilitiesRead, ChildEventView::Capabilities(Ok((b, i)))) => (
                self.at(ChildStage::CapabilitiesSet),
                ChildRequestView::SetCapabilities {
                    bounding: b.difference(dropped()),
                    inheritable: i.difference(dropped()),
                },
            ),
            (ChildStage::CapabilitiesRead, ChildEventView::Capabilities(Err(cause))) => self.abort(
                SETUP_FAILED,
                ErrcodeView::Capabilities(
                    "Error while trying to get an handler to thread capabilities: "@ + cause,
                ),
            ),
            (
                ChildStage::CapabilitiesSet,
                ChildEventView::CapabilitiesSet(Ok(_)),
            ) => self.filter_syscalls(),
            (ChildStage::CapabilitiesSet, ChildEventView::CapabilitiesSet(Err(cause))) => self.abort(
                SETUP_FAILED,
                ErrcodeView::Capabilities("Error while dropping capabilities: "@ + cause),
            ),
            (ChildStage::Syscalls, ChildEventView::Installed(Ok(_))) => self.exec(),
            (ChildStage::Syscalls, ChildEventView::Installed(Err(e))) => self.abort(
                SETUP_FAILED,
                e,
            ),
            (ChildStage::JoinProbe, ChildEventView::SysReadOnly(read_only)) => (
                self.at(ChildStage::Joining),
                ChildRequestView::Run(split_namespace_steps(self.config.namespace, read_only)),
            ),
            (ChildStage::Joining, ChildEventView::Ran(Ok(_))) => self.reduce_privileges(),
            (ChildStage::Joining, ChildEventView::Ran(Err(e))) => self.abort(JOIN_FAILED, e),
            (ChildStage::Executing, ChildEventView::ExecFailed(cause)) => self.abort(
                SETUP_FAILED,
                ErrcodeView::ContainerError("Error while trying to perform execve: "@ + cause),
            ),
            (ChildStage::Executing, _) => self.abort(SETUP_FAILED, unexpected()),
            (ChildStage::Exited, _) => self.abort(SETUP_FAILED, unexpected()),
            (_, ChildEventView::Ran(Err(e))) => self.abort(SETUP_FAILED, e),
            _ => self.abort(SETUP_FAILED, unexpected()),
        }
    }
}

/// The error for an answer that does not fit the request under way.
pub open spec fn unexpected() -> ErrcodeView {
    ErrcodeView::ContainerError("Unexpected answer to a request of the contained process"@)
}

impl ChildStage {
    /// The place of a stage in the sequence.
    pub open spec fn rank(self) -> nat {
        match self {
            ChildStage::Hostname => 0,
            ChildStage::NetnsProbe => 1,
            ChildStage::NetnsArea => 2,
            ChildStage::Identity => 3,
            ChildStage::Mounts => 4,
            ChildStage::Network => 5,
            ChildStage::Firewall => 6,
            ChildStage::JoinProbe => 7,
            ChildStage::Joining => 8,
            ChildStage::CapabilitiesRead => 9,
            ChildStage::CapabilitiesSet => 10,
            ChildStage::Syscalls => 11,
            ChildStage::Executing => 12,
            ChildStage::Exited => 13,
        }
    }
}

impl ChildSetupView {
    /// Whether the state is one that a contained process can be in: the
    /// configuration keeps its invariant; the random parts of the staging
    /// names are letters and digits; a network set-up is under way exactly
    /// in the network stage; and a stage of a reduction that is switched
    /// off is never entered.
    pub open spec fn wf(self) -> bool {
        &&& self.config.wf()
        &&& all_alphanumeric(self.staging_suffix)
        &&& all_alphanumeric(self.old_root_suffix)
        &&& self.net is Some <==> self.stage == ChildStage::Network
        &&& self.net matches Some(net) ==> net.wf() && net.plan == self.network()
        &&& (self.stage == ChildStage::CapabilitiesRead || self.stage
            == ChildStage::CapabilitiesSet) ==> !self.config.disable_capabilities
        &&& self.stage == ChildStage::Syscalls ==> !self.config.disable_syscall
    }
}

impl ChildEventView {
    /// Whether the event reports a failure.
    pub open spec fn is_failure(self) -> bool {
        match self {
            ChildEventView::Ran(r) => r is Err,
            ChildEventView::Probed(probe) => probe is Failed,
            ChildEventView::Net(event) => event is Failed,
            ChildEventView::Applied(r) => r is Err,
            ChildEventView::Capabilities(r) => r is Err,
            ChildEventView::CapabilitiesSet(r) => r is Err,
            ChildEventView::Installed(r) => r is Err,
            ChildEventView::SysReadOnly(_) => false,
            ChildEventView::ExecFailed(_) => true,
        }
    }
}

impl ChildRequestView {
    /// Whether the request takes privileges away from the process.
    pub open spec fn reduces_privileges(self) -> bool {
        self is SetCapabilities || self is InstallFilter
    }

    /// Whether the request needs none of the privileges that the set-up
    /// takes away: all that is left to do once they begin to go.
    pub open spec fn needs_no_privilege(self) -> bool {
        self is ReadCapabilities || self is SetCapabilities || self is InstallFilter || self is Exec
            || self is Exit
    }
}

/// The order of the set-up. Every step moves the contained process
/// forward in the sequence; only the network set-up takes several
/// requests, and an ended process stays ended. Privileges are taken away
/// only after the host name, the network-namespace area, the identity
/// maps, the mounts, the network, the firewall and the move into the
/// network namespace are done, and from then on nothing is asked that
/// needs them.
pub proof fn lemma_privileges_go_last(state: ChildSetupView, event: ChildEventView)
    ensures
        ({
            let (after, request) = state.next(event);
            &&& after.stage.rank() >= state.stage.rank()
            &&& after.stage.rank() == state.stage.rank() ==> (state.stage == ChildStage::Network
                || state.stage == ChildStage::Exited)
            &&& after.config == state.config
            &&& request.reduces_privileges() ==> state.stage.rank() >= ChildStage::Joining.rank()
            &&& state.stage.rank() >= ChildStage::CapabilitiesRead.rank()
                ==> request.needs_no_privilege()
            &&& after.stage.rank() >= ChildStage::CapabilitiesRead.rank()
                ==> request.needs_no_privilege()
        }),
{
}

/// Replacing the process image is the end. The target command is started
/// only from the last step of the privilege reduction that is not
/// switched off, with the configured path and arguments and an empty
/// environment, so that it inherits nothing of the host's environment.
/// After that no step follows: whatever is reported then, and whatever
/// failure is reported at any time, the process exits with a status that
/// is not zero, and an exited process asks for nothing but to exit.
pub proof fn lemma_exec_is_terminal(state: ChildSetupView, event: ChildEventView)
    ensures
        ({
            let (after, request) = state.next(event);
            &&& request is Exec ==> {
                &&& request == (ChildRequestView::Exec {
                    path: state.config.path,
                    argv: state.config.argv,
                    env: Seq::empty(),
                })
                &&& after.stage == ChildStage::Executing
                &&& (state.stage == ChildStage::Syscalls || (state.stage
                    == ChildStage::CapabilitiesSet && state.config.disable_syscall) || (state.stage
                    == ChildStage::Joining && state.config.disable_syscall
                    && state.config.disable_capabilities))
            }
            &&& (state.stage == ChildStage::Executing || state.stage == ChildStage::Exited
                || event.is_failure()) ==> {
                &&& request is Exit
                &&& request->code != 0
                &&& request->reason is Some
                &&& after.stage == ChildStage::Exited
            }
            &&& request is Exit ==> after.stage == ChildStage::Exited && request->code != 0
            &&& after.stage == ChildStage::Exited ==> request is Exit
        }),
{
}

/// The container's mounts are isolated. A contained process with a root
/// directory of its own asks, once its identity is mapped, for exactly the
/// plan that re-roots it there under its staging names; and since the
/// binds of a configuration cannot climb out, every step of that plan but
/// the first, which cuts the mount tree off from the host's, keeps to the
/// new root.
pub proof fn lemma_mounts_are_isolated(state: ChildSetupView)
    requires
        state.wf(),
        state.stage == ChildStage::Identity,
        state.config.mount_dir is Some,
    ensures
        ({
            let (after, request) = state.next(ChildEventView::Ran(Ok(())));
            let plan = rebase_plan(
                state.config.mount_dir->0,
                state.config.addpaths,
                state.staging_suffix,
                state.old_root_suffix,
            );
            &&& after.stage == ChildStage::Mounts
            &&& request == ChildRequestView::Run(plan.steps)
            &&& forall|i: int|
                1 <= i < plan.steps.len() ==> keeps_to_new_root(
                    #[trigger] plan.steps[i],
                    staging_dir(state.staging_suffix),
                    state.config.mount_dir->0,
                    state.config.addpaths,
                )
        }),
{
    lemma_rebase_isolates(
        state.config.mount_dir->0,
        state.config.addpaths,
        state.staging_suffix,
        state.old_root_suffix,
    );
}

/// The firewall guards the endpoint that the set-up made. The firewall
/// is programmed once, when the network set-up has ended well, and for
/// the interface that carries the name of the configured namespace: the
/// name under which the set-up created the endpoint that stays outside
/// the inner namespace, on which the container's traffic arrives. Both
/// rules that redirect to the proxy match on that name.
pub proof fn lemma_firewall_guards_the_endpoint(state: ChildSetupView, event: ChildEventView)
    requires
        state.wf(),
    ensures
        ({
            let (after, request) = state.next(event);
            let ifname = state.config.namespace;
            request is ApplyRuleset ==> {
                &&& state.stage == ChildStage::Network
                &&& after.stage == ChildStage::Firewall
                &&& state.net->0.plan.veth() == ifname
                &&& request == ChildRequestView::ApplyRuleset(
                    transaction(nat_table(), ruleset_spec(ifname)),
                )
                &&& matches_interface(redirect_rules(ifname)[2], ifname)
                &&& matches_interface(redirect_rules(ifname)[3], ifname)
            }
        }),
{
    lemma_rules_match_interface(state.config.namespace);
}

/// What the switches switch. Capabilities are read and reduced only where
/// their reduction is not switched off, and then the sets that the process
/// is left with hold none of the capabilities of `capabilities_drop`; a
/// syscall filter is installed only where filtering is not switched off,
/// and then it is the filter that the process was started with. Where a
/// reduction is not switched off the target command is not started
/// before it is done.
pub proof fn lemma_privileges_are_reduced(state: ChildSetupView, event: ChildEventView)
    requires
        state.wf(),
    ensures
        ({
            let (after, request) = state.next(event);
            &&& after.wf()
            &&& (request is ReadCapabilities || request is SetCapabilities)
                ==> !state.config.disable_capabilities
            &&& request matches ChildRequestView::SetCapabilities { bounding, inheritable }
                ==> forall|cap: u8| #[trigger]
                dropped().contains(cap) ==> !bounding.contains(cap) && !inheritable.contains(cap)
            &&& request is InstallFilter ==> !state.config.disable_syscall && request
                == ChildRequestView::InstallFilter(state.filter)
            &&& (request is Exec && !state.config.disable_syscall) ==> state.stage
                == ChildStage::Syscalls
            &&& (request is Exec && !state.config.disable_capabilities) ==> (state.stage
                == ChildStage::Syscalls || state.stage == ChildStage::CapabilitiesSet)
            &&& (after.stage == ChildStage::Syscalls && !state.config.disable_capabilities)
                ==> state.stage == ChildStage::CapabilitiesSet
        }),
{
    if let Some(net) = state.net {
        if let ChildEventView::Net(e) = event {
            crate::net::lemma_migrated_index_is_dropped(net, e);
        }
    }
    crate::net::lemma_migrated_index_is_dropped(
        NetSetupView::start(state.network()),
        NetEventView::Done,
    );
}

/// Starts the contained process on its way: the state it begins in, and
/// its first request. The names of its staging directories are drawn at
/// random, and the syscall filter takes the host's request code for
/// pushing input into a terminal.
pub fn child(config: ContainerOpts) -> (r: (ChildSetup, ChildRequest))
    ensures
        r.0.stage == ChildStage::Hostname,
        r.0.net is None,
        r.0.config == config,
        r.0.staging_suffix@.len() == 10 && all_alphanumeric(r.0.staging_suffix@),
        r.0.old_root_suffix@.len() == 6 && all_alphanumeric(r.0.old_root_suffix@),
        exists|tiocsti: u64| r.0.filter@ == #[trigger] syscall_rules(tiocsti),
        config.deep_view().wf() ==> r.0.deep_view().wf(),
        r.1.deep_view() == r.0.deep_view().first(),
{
    let mut steps: Vec<Step> = Vec::new();
    steps.push(set_container_hostname(&config.hostname));
    assert(steps.deep_view() =~= seq![hostname_step(config.hostname@)]);
    let setup = ChildSetup {
        config,
        stage: ChildStage::Hostname,
        net: None,
        staging_suffix: generate_random_str(10),
        old_root_suffix: generate_random_str(6),
        filter: setsyscalls(),
    };
    (setup, ChildRequest::Run(steps))
}

impl ChildSetup {
    fn abort(&mut self, code: i32, e: Errcode) -> (request: ChildRequest)
        ensures
            (final(self).deep_view(), request.deep_view()) == old(self).deep_view().abort(
                code,
                e.deep_view(),
            ),
    {
        self.stage = ChildStage::Exited;
        self.net = None;
        ChildRequest::Exit { code, reason: Some(e) }
    }

    fn unexpected(&mut self) -> (request: ChildRequest)
        ensures
            (final(self).deep_view(), request.deep_view()) == old(self).deep_view().abort(
                SETUP_FAILED,
                unexpected(),
            ),
    {
        let e = Errcode::ContainerError(
            String::from_str("Unexpected answer to a request of the contained process"),
        );
        self.abort(SETUP_FAILED, e)
    }

    fn exec(&mut self) -> (request: ChildRequest)
        ensures
            (final(self).deep_view(), request.deep_view()) == old(self).deep_view().exec(),
    {
        self.stage = ChildStage::Executing;
        let env: Vec<String> = Vec::new();
        assert(env.deep_view() =~= Seq::<Seq<char>>::empty());
        ChildRequest::Exec { path: self.config.path.clone(), argv: self.config.argv.clone(), env }
    }

    fn filter_syscalls(&mut self) -> (request: ChildRequest)
        ensures
            (final(self).deep_view(), request.deep_view())
                == old(self).deep_view().filter_syscalls(),
    {
        if self.config.disable_syscall {
            self.exec()
        } else {
            self.stage = ChildStage::Syscalls;
            ChildRequest::InstallFilter(self.filter.clone())
        }
    }

    fn reduce_privileges(&mut self) -> (request: ChildRequest)
        ensures
            (final(self).deep_view(), request.deep_view())
                == old(self).deep_view().reduce_privileges(),
    {
        if self.config.disable_capabilities {
            self.filter_syscalls()
        } else {
            self.stage = ChildStage::CapabilitiesRead;
            ChildRequest::ReadCapabilities
        }
    }

    /// Takes the outcome of the request under way and says what to do
    /// next.
    pub fn advance(&mut self, event: ChildEvent) -> (request: ChildRequest)
        ensures
            (final(self).deep_view(), request.deep_view()) == old(self).deep_view().next(
                event.deep_view(),
            ),
    {
        match (self.stage, event) {
            (ChildStage::Hostname, ChildEvent::Ran(Ok(_))) => {
                self.stage = ChildStage::NetnsProbe;
                ChildRequest::ProbeNetns { path: String::from_str("/run/netns/") }
            },
            (ChildStage::NetnsProbe, ChildEvent::Probed(probe)) => {
                match mount_netns(&self.config.hostname, &probe) {
                    Ok(steps) => {
                        self.stage = ChildStage::NetnsArea;
                        ChildRequest::Run(steps)
                    },
                    Err(e) => self.abort(SETUP_FAILED, e),
                }
            },
            (ChildStage::NetnsArea, ChildEvent::Ran(Ok(_))) => {
                self.stage = ChildStage::Identity;
                ChildRequest::Run(
                    userns(self.config.real_uid, self.config.real_gid, self.config.uid),
                )
            },
            (ChildStage::Identity, ChildEvent::Ran(Ok(_))) => {
                self.stage = ChildStage::Mounts;
                let plan = mount_plan(
                    &self.config.mount_dir,
                    &self.config.addpaths,
                    self.staging_suffix.as_str(),
                    self.old_root_suffix.as_str(),
                );
                ChildRequest::Run(plan.steps)
            },
            (ChildStage::Mounts, ChildEvent::Ran(Ok(_))) => {
                let (net, request) = prepare_net(&self.config.namespace, VETH_IP, VETH_2_IP, SUBNET);
                self.stage = ChildStage::Network;
                self.net = Some(net);
                ChildRequest::Net(request)
            },
            (ChildStage::Network, ChildEvent::Net(event)) => {
                match self.net.take() {
                    Some(mut net) => {
                        let request = net.advance(event);
                        match request {
                            NetRequest::Finish { .. } => {
                                self.stage = ChildStage::Firewall;
                                ChildRequest::ApplyRuleset(
                                    test_apply_ruleset(self.config.namespace.as_str()),
                                )
                            },
                            NetRequest::Abort(e) => self.abort(SETUP_FAILED, e),
                            other => {
                                self.net = Some(net);
                                ChildRequest::Net(other)
                            },
                        }
                    },
                    None => self.unexpected(),
                }
            },
            (ChildStage::Firewall, ChildEvent::Applied(Ok(_))) => {
                self.stage = ChildStage::JoinProbe;
                ChildRequest::ProbeSys { path: String::from_str("/sys") }
            },
            (ChildStage::Firewall, ChildEvent::Applied(Err(cause))) => {
                let e = Errcode::NetworkError(
                    concat2("Can not apply the firewall ruleset: ", cause.as_str()),
                );
                self.abort(SETUP_FAILED, e)
            },
            (ChildStage::CapabilitiesRead, ChildEvent::Capabilities(current)) => {
                match setcapabilities(current) {
                    Ok((bounding, inheritable)) => {
                        self.stage = ChildStage::CapabilitiesSet;
                        ChildRequest::SetCapabilities { bounding, inheritable }
                    },
                    Err(e) => self.abort(SETUP_FAILED, e),
                }
            },
            (ChildStage::CapabilitiesSet, ChildEvent::CapabilitiesSet(Ok(_))) => {
                self.filter_syscalls()
            },
            (ChildStage::CapabilitiesSet, ChildEvent::CapabilitiesSet(Err(cause))) => {
                let e = Errcode::Capabilities(
                    concat2("Error while dropping capabilities: ", cause.as_str()),
                );
                self.abort(SETUP_FAILED, e)
            },
            (ChildStage::Syscalls, ChildEvent::Installed(Ok(_))) => self.exec(),
            (ChildStage::Syscalls, ChildEvent::Installed(Err(failure))) => {
                let e = refuse_syscall(&failure);
                self.abort(SETUP_FAILED, e)
            },
            (ChildStage::JoinProbe, ChildEvent::SysReadOnly(read_only)) => {
                self.stage = ChildStage::Joining;
                ChildRequest::Run(split_namespace(&self.config.namespace, read_only))
            },
            (ChildStage::Joining, ChildEvent::Ran(Ok(_))) => self.reduce_privileges(),
            (ChildStage::Joining, ChildEvent::Ran(Err(e))) => self.abort(JOIN_FAILED, e),
            (ChildStage::Executing, ChildEvent::ExecFailed(cause)) => {
                let e = Errcode::ContainerError(
                    concat2("Error while trying to perform execve: ", cause.as_str()),
                );
                self.abort(SETUP_FAILED, e)
            },
            (ChildStage::Executing, _) => self.unexpected(),
            (ChildStage::Exited, _) => self.unexpected(),
            (_, ChildEvent::Ran(Err(e))) => self.abort(SETUP_FAILED, e),
            _ => self.unexpected(),
        }
    }
}

} // verus!
