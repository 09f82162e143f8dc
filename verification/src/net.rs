//! The network plan of a container and the course of its set-up: a named
//! network namespace, a virtual-ethernet pair with one endpoint outside and
//! one inside, and the helper that finishes the inner endpoint from within
//! the namespace.
//!
//! The set-up alternates requests to the kernel's network configuration
//! with decisions on what came back. [`NetSetup`] holds the decisions: the
//! caller performs each [`NetRequest`] and reports the outcome as a
//! [`NetEvent`].

use vstd::prelude::*;
use crate::errors::{Errcode, ErrcodeView};
use crate::host::{WaitOutcome, WaitOutcomeView};
use crate::namespaces::{namespace_path, peer_name, run_parent, run_parent_spec};
use crate::text::{concat2, concat4, concat6, decimal, format_i32, format_u64, signed_decimal};

verus! {

/// The network of one container.
#[derive(Clone, Debug, PartialEq, Eq)]
pub struct NetworkPlan {
    /// The name of the network namespace, and of the endpoint that stays
    /// outside it.
    pub namespace: String,
    /// The address of the endpoint that stays outside.
    pub veth_ip: String,
    /// The address of the endpoint that moves inside.
    pub veth_2_ip: String,
    /// The prefix length of the subnet of both.
    pub subnet: u8,
}

/// The mathematical value of a [`NetworkPlan`].
pub struct NetworkPlanView {
    pub namespace: Seq<char>,
    pub veth_ip: Seq<char>,
    pub veth_2_ip: Seq<char>,
    pub subnet: u8,
}

impl DeepView for NetworkPlan {
    type V = NetworkPlanView;

    open spec fn deep_view(&self) -> NetworkPlanView {
        NetworkPlanView {
            namespace: self.namespace@,
            veth_ip: self.veth_ip@,
            veth_2_ip: self.veth_2_ip@,
            subnet: self.subnet,
        }
    }
}

impl NetworkPlanView {
    /// The name of the endpoint that stays outside.
    pub open spec fn veth(self) -> Seq<char> {
        self.namespace
    }

    /// The name of the endpoint that moves inside.
    pub open spec fn peer(self) -> Seq<char> {
        peer_name(self.namespace)
    }
}

/// What the set-up asks of its caller.
#[derive(Clone, Debug, PartialEq, Eq)]
pub enum NetRequest {
    /// Open a channel to the kernel's network configuration.
    Connect,
    /// Look whether the file of the network namespace exists.
    ProbeNamespace { path: String },
    /// Create the named network namespace.
    CreateNamespace { name: String },
    /// Open the file of the network namespace. The answer is the handle
    /// of the open file.
    OpenNamespace { name: String, path: String },
    /// Create a virtual-ethernet pair with the two names.
    CreateVeth { name: String, peer: String },
    /// Look up the index of the interface with this name.
    LinkIndex { name: String },
    /// Bring the interface with this index up.
    LinkUp { index: u32 },
    /// Assign the address with the prefix length to the interface.
    AddAddress { index: u32, address: String, prefix_len: u8 },
    /// Move the interface into the network namespace behind the handle.
    MoveToNamespace { index: u32, handle: i32 },
    /// Move the interface into the network namespace of the process.
    MoveToProcess { index: u32, pid: u32 },
    /// Fork the helper that configures the inner endpoint from within the
    /// namespace, and wait for it. The answer is how the helper ended, or
    /// why it could not be forked.
    RunHelper,
    /// The set-up is done; the endpoint that stayed outside has this
    /// index.
    Finish { veth_index: u32 },
    /// The set-up is over, stopped by this error.
    Abort(Errcode),
}

/// The mathematical value of a [`NetRequest`].
pub enum NetRequestView {
    Connect,
    ProbeNamespace { path: Seq<char> },
    CreateNamespace { name: Seq<char> },
    OpenNamespace { name: Seq<char>, path: Seq<char> },
    CreateVeth { name: Seq<char>, peer: Seq<char> },
    LinkIndex { name: Seq<char> },
    LinkUp { index: u32 },
    AddAddress { index: u32, address: Seq<char>, prefix_len: u8 },
    MoveToNamespace { index: u32, handle: i32 },
    MoveToProcess { index: u32, pid: u32 },
    RunHelper,
    Finish { veth_index: u32 },
    Abort(ErrcodeView),
}

impl DeepView for NetRequest {
    type V = NetRequestView;

    open spec fn deep_view(&self) -> NetRequestView {
        match self {
            NetRequest::Connect => NetRequestView::Connect,
            NetRequest::ProbeNamespace { path } => NetRequestView::ProbeNamespace { path: path@ },
            NetRequest::CreateNamespace { name } => NetRequestView::CreateNamespace { name: name@ },
            NetRequest::OpenNamespace { name, path } => NetRequestView::OpenNamespace {
                name: name@,
                path: path@,
            },
            NetRequest::CreateVeth { name, peer } => NetRequestView::CreateVeth {
                name: name@,
                peer: peer@,
            },
            NetRequest::LinkIndex { name } => NetRequestView::LinkIndex { name: name@ },
            NetRequest::LinkUp { index } => NetRequestView::LinkUp { index: *index },
            NetRequest::AddAddress { index, address, prefix_len } => NetRequestView::AddAddress {
                index: *index,
                address: address@,
                prefix_len: *prefix_len,
            },
            NetRequest::MoveToNamespace { index, handle } => NetRequestView::MoveToNamespace {
                index: *index,
                handle: *handle,
            },
            NetRequest::MoveToProcess { index, pid } => NetRequestView::MoveToProcess {
                index: *index,
                pid: *pid,
            },
            NetRequest::RunHelper => NetRequestView::RunHelper,
            NetRequest::Finish { veth_index } => NetRequestView::Finish {
                veth_index: *veth_index,
            },
            NetRequest::Abort(e) => NetRequestView::Abort(e.deep_view()),
        }
    }
}

/// What the caller reports back.
#[derive(Clone, Debug, PartialEq, Eq)]
pub enum NetEvent {
    /// The request was carried out.
    Done,
    /// The request failed, for the given reason.
    Failed(String),
    /// Whether what was looked for exists.
    Present(bool),
    /// The namespace file is open behind this handle.
    Handle(i32),
    /// The interface has this index, or there is no interface of that
    /// name.
    Index(Option<u32>),
    /// The helper ended in this way.
    Helper(WaitOutcome),
}

/// The mathematical value of a [`NetEvent`].
pub enum NetEventView {
    Done,
    Failed(Seq<char>),
    Present(bool),
    Handle(i32),
    Index(Option<u32>),
    Helper(WaitOutcomeView),
}

impl DeepView for NetEvent {
    type V = NetEventView;

    open spec fn deep_view(&self) -> NetEventView {
        match self {
            NetEvent::Done => NetEventView::Done,
            NetEvent::Failed(cause) => NetEventView::Failed(cause@),
            NetEvent::Present(present) => NetEventView::Present(*present),
            NetEvent::Handle(handle) => NetEventView::Handle(*handle),
            NetEvent::Index(index) => NetEventView::Index(*index),
            NetEvent::Helper(status) => NetEventView::Helper(status.deep_view()),
        }
    }
}

/// How far the set-up has come: the request that is under way.
#[derive(Clone, Copy, Debug, PartialEq, Eq, Structural)]
pub enum NetStage {
    Connecting,
    ProbingNamespace,
    CreatingNamespace,
    OpeningNamespace,
    CreatingVeth,
    ResolvingVeth,
    ResolvingPeer,
    RaisingVeth,
    AddressingVeth,
    Migrating,
    AwaitingHelper,
    Finished,
}

/// The set-up of one container's network, between two requests.
#[derive(Clone, Debug, PartialEq, Eq)]
pub struct NetSetup {
    pub plan: NetworkPlan,
    pub stage: NetStage,
    /// The handle of the namespace file, once it is open.
    pub handle: Option<i32>,
    /// The index of the endpoint that stays outside, once it is known.
    pub veth_index: Option<u32>,
    /// The index of the endpoint that moves inside, while it is still
    /// outside. It is forgotten at the migration: from then on the
    /// endpoint is found by its name, inside the namespace.
    pub peer_index: Option<u32>,
}

/// The mathematical value of a [`NetSetup`].
pub struct NetSetupView {
    pub plan: NetworkPlanView,
    pub stage: NetStage,
    pub handle: Option<i32>,
    pub veth_index: Option<u32>,
    pub peer_index: Option<u32>,
}

impl DeepView for NetSetup {
    type V = NetSetupView;

    open spec fn deep_view(&self) -> NetSetupView {
        NetSetupView {
            plan: self.plan.deep_view(),
            stage: self.stage,
            handle: self.handle,
            veth_index: self.veth_index,
            peer_index: self.peer_index,
        }
    }
}

/// The error for an answer that does not fit the request under way.
pub open spec fn unexpected() -> ErrcodeView {
    ErrcodeView::NetworkError("Unexpected answer to a network request"@)
}

impl NetSetupView {
    /// The state at the start, when the channel is being opened.
    pub open spec fn start(plan: NetworkPlanView) -> NetSetupView {
        NetSetupView {
            plan,
            stage: NetStage::Connecting,
            handle: None,
            veth_index: None,
            peer_index: None,
        }
    }

    /// The same state at another stage.
    pub open spec fn at(self, stage: NetStage) -> NetSetupView {
        NetSetupView { stage, ..self }
    }

    /// The state and the request that end the set-up with an error.
    pub open spec fn fail(self, e: ErrcodeView) -> (NetSetupView, NetRequestView) {
        (
            NetSetupView { stage: NetStage::Finished, peer_index: None, ..self },
            NetRequestView::Abort(e),
        )
    }

    /// The error for a failure of the request under way; `cause` is the
    /// host's description of the failure.
    pub open spec fn failure(self, cause: Seq<char>) -> ErrcodeView {
        match self.stage {
            NetStage::ProbingNamespace
            | NetStage::CreatingNamespace
            | NetStage::OpeningNamespace => ErrcodeView::NamespacesError(
                "Can not create network namespace "@ + self.plan.namespace + ": "@ + cause,
            ),
            NetStage::CreatingVeth => ErrcodeView::NetworkError(
                "Can not create veth interfaces: "@ + cause,
            ),
            NetStage::RaisingVeth => ErrcodeView::NetworkError(
                "Setting veth "@ + self.plan.veth() + " up failed: "@ + cause,
            ),
            NetStage::AddressingVeth => ErrcodeView::NetworkError(
                "Setting addr "@ + self.plan.veth_ip + " to veth "@ + self.plan.veth()
                    + " failed: "@ + cause,
            ),
            NetStage::Migrating => ErrcodeView::NetworkError(
                "Set veth "@ + decimal(self.peer_index.unwrap_or(0) as nat) + " to fd "@
                    + signed_decimal(self.handle.unwrap_or(0) as int) + " failed: "@ + cause,
            ),
            NetStage::AwaitingHelper => ErrcodeView::NamespacesError("Error fork(): "@ + cause),
            _ => ErrcodeView::NetworkError(cause),
        }
    }

    /// What follows from an event: the next state and the next request.
    /// A failure of any request ends the set-up with its error; nothing
    /// is retried.
    pub open spec fn next(self, event: NetEventView) -> (NetSetupView, NetRequestView) {
        match (self.stage, event) {
            (NetStage::Finished, _) => self.fail(unexpected()),
            (NetStage::AwaitingHelper, NetEventView::Helper(status)) => match run_parent_spec(
                status,
            ) {
                Ok(_) => match self.veth_index {
                    Some(index) => (
                        self.at(NetStage::Finished),
                        NetRequestView::Finish { veth_index: index },
                    ),
                    None => self.fail(unexpected()),
                },
                Err(e) => self.fail(e),
            },
            (_, NetEventView::Failed(cause)) => self.fail(self.failure(cause)),
            (NetStage::Connecting, NetEventView::Done) => (
                self.at(NetStage::ProbingNamespace),
                NetRequestView::ProbeNamespace { path: namespace_path(self.plan.namespace) },
            ),
            (NetStage::ProbingNamespace, NetEventView::Present(false)) => (
                self.at(NetStage::CreatingNamespace),
                NetRequestView::CreateNamespace { name: self.plan.namespace },
            ),
            (NetStage::ProbingNamespace, NetEventView::Present(true))
            | (NetStage::CreatingNamespace, NetEventView::Done) => (
                self.at(NetStage::OpeningNamespace),
                NetRequestView::OpenNamespace {
                    name: self.plan.namespace,
                    path: namespace_path(self.plan.namespace),
                },
            ),
            (NetStage::OpeningNamespace, NetEventView::Handle(handle)) => (
                NetSetupView { stage: NetStage::CreatingVeth, handle: Some(handle), ..self },
                NetRequestView::CreateVeth { name: self.plan.veth(), peer: self.plan.peer() },
            ),
            (NetStage::CreatingVeth, NetEventView::Done) => (
                self.at(NetStage::ResolvingVeth),
                NetRequestView::LinkIndex { name: self.plan.veth() },
            ),
            (NetStage::ResolvingVeth, NetEventView::Index(Some(index))) => (
                NetSetupView { stage: NetStage::ResolvingPeer, veth_index: Some(index), ..self },
                NetRequestView::LinkIndex { name: self.plan.peer() },
            ),
            (NetStage::ResolvingVeth, NetEventView::Index(None)) => self.fail(
                ErrcodeView::NetworkError("Failed to get index for "@ + self.plan.veth()),
            ),
            (NetStage::ResolvingPeer, NetEventView::Index(Some(index))) => match self.veth_index {
                Some(veth_index) => (
                    NetSetupView {
                        stage: NetStage::RaisingVeth,
                        peer_index: Some(index),
                        ..self
                    },
                    NetRequestView::LinkUp { index: veth_index },
                ),
                None => self.fail(unexpected()),
            },
            (NetStage::ResolvingPeer, NetEventView::Index(None)) => self.fail(
                ErrcodeView::NetworkError("Failed to get index for "@ + self.plan.peer()),
            ),
            (NetStage::RaisingVeth, NetEventView::Done) => match self.veth_index {
                Some(veth_index) => (
                    self.at(NetStage::AddressingVeth),
                    NetRequestView::AddAddress {
                        index: veth_index,
                        address: self.plan.veth_ip,
                        prefix_len: self.plan.subnet,
                    },
                ),
                None => self.fail(unexpected()),
            },
            (NetStage::AddressingVeth, NetEventView::Done) => match (
                self.peer_index,
                self.handle,
            ) {
                (Some(index), Some(handle)) => (
                    self.at(NetStage::Migrating),
                    NetRequestView::MoveToNamespace { index, handle },
                ),
                _ => self.fail(unexpected()),
            },
            (NetStage::Migrating, NetEventView::Done) => (
                NetSetupView { stage: NetStage::AwaitingHelper, peer_index: None, ..self },
                NetRequestView::RunHelper,
            ),
            _ => self.fail(unexpected()),
        }
    }
}

impl NetSetupView {
    /// Whether the state is one that a set-up can be in: the handle and
    /// the indices are known from the stage on at which they are learnt,
    /// and the index of the inner endpoint is held only as long as that
    /// endpoint is outside the namespace.
    pub open spec fn wf(self) -> bool {
        match self.stage {
            NetStage::Connecting
            | NetStage::ProbingNamespace
            | NetStage::CreatingNamespace
            | NetStage::OpeningNamespace => {
                self.handle is None && self.veth_index is None && self.peer_index is None
            },
            NetStage::CreatingVeth | NetStage::ResolvingVeth => {
                self.handle is Some && self.veth_index is None && self.peer_index is None
            },
            NetStage::ResolvingPeer => {
                self.handle is Some && self.veth_index is Some && self.peer_index is None
            },
            NetStage::RaisingVeth | NetStage::AddressingVeth | NetStage::Migrating => {
                self.handle is Some && self.veth_index is Some && self.peer_index is Some
            },
            NetStage::AwaitingHelper => {
                self.handle is Some && self.veth_index is Some && self.peer_index is None
            },
            NetStage::Finished => self.peer_index is None,
        }
    }

    /// Whether the inner endpoint has left for the namespace.
    pub open spec fn migrated(self) -> bool {
        self.stage == NetStage::AwaitingHelper || self.stage == NetStage::Finished
    }
}

impl NetRequestView {
    /// The interface index that the request names, if it names one.
    pub open spec fn index(self) -> Option<u32> {
        match self {
            NetRequestView::LinkUp { index } => Some(index),
            NetRequestView::AddAddress { index, .. } => Some(index),
            NetRequestView::MoveToNamespace { index, .. } => Some(index),
            NetRequestView::MoveToProcess { index, .. } => Some(index),
            _ => None,
        }
    }
}

/// The life of the migrating endpoint's index. A set-up starts in a
/// well-formed state and stays in one. The only request that names the
/// index of the inner endpoint is the migration itself; once the
/// migration is reported done the set-up holds that index no longer, and
/// from the migration on no request names any index: what is still to be
/// configured inside the namespace is found there by its name. The
/// set-up ends well only with the index of the endpoint that stayed
/// outside.
pub proof fn lemma_migrated_index_is_dropped(state: NetSetupView, event: NetEventView)
    requires
        state.wf(),
    ensures
        NetSetupView::start(state.plan).wf(),
        ({
            let (after, request) = state.next(event);
            &&& after.wf()
            &&& after.plan == state.plan
            &&& after.migrated() ==> after.peer_index is None
            &&& request is MoveToNamespace ==> state.stage == NetStage::AddressingVeth
                && request.index() == state.peer_index && Some(request->MoveToNamespace_handle)
                == state.handle
            &&& (request.index() is Some && !(request is MoveToNamespace)) ==> request.index()
                == state.veth_index
            &&& (state.stage == NetStage::Migrating || state.migrated()) ==> request.index() is None
            &&& request is Finish ==> Some(request->veth_index) == state.veth_index
            &&& state.migrated() ==> after.migrated()
        }),
{
}

/// The namespace is opened, and created only if it is missing. The file
/// of the network namespace is opened only after a look found it or after
/// the namespace was created, and the namespace is created only where the
/// look found no file.
pub proof fn lemma_namespace_created_if_missing(state: NetSetupView, event: NetEventView)
    ensures
        ({
            let (after, request) = state.next(event);
            &&& request is CreateNamespace ==> state.stage == NetStage::ProbingNamespace && event
                == NetEventView::Present(false) && request == (NetRequestView::CreateNamespace {
                name: state.plan.namespace,
            })
            &&& request is OpenNamespace ==> {
                &&& (state.stage == NetStage::ProbingNamespace && event == NetEventView::Present(
                    true,
                )) || (state.stage == NetStage::CreatingNamespace && event == NetEventView::Done)
                &&& request == (NetRequestView::OpenNamespace {
                    name: state.plan.namespace,
                    path: namespace_path(state.plan.namespace),
                })
            }
            &&& request is ProbeNamespace ==> request == (NetRequestView::ProbeNamespace {
                path: namespace_path(state.plan.namespace),
            })
        }),
{
}

/// The inner endpoint by name. The name under which the set-up creates
/// the inner endpoint is the name by which the helper finds it inside the
/// namespace, and the helper gives it the address and prefix length that
/// the plan assigns to it.
pub proof fn lemma_inner_endpoint_by_name(plan: NetworkPlanView)
    ensures
        ({
            let created = NetSetupView::start(plan).at(NetStage::OpeningNamespace).next(
                NetEventView::Handle(0),
            ).1;
            let commands = crate::namespaces::net_conf_commands(
                plan.namespace,
                plan.veth_ip,
                plan.veth_2_ip,
                plan.subnet,
            );
            &&& created == (NetRequestView::CreateVeth { name: plan.veth(), peer: plan.peer() })
            &&& commands[1].args[2] == plan.peer()
            &&& commands[2].args[2] == plan.veth_2_ip + "/"@ + decimal(plan.subnet as nat)
            &&& commands[2].args[4] == plan.peer()
            &&& commands[3].args[4] == plan.veth_ip
            &&& commands[3].args[6] == plan.peer()
        }),
{
}

/// Starts the set-up of the network of one container: the namespace
/// `ns_name`, the endpoint outside at `veth_ip`, the endpoint inside at
/// `veth_2_ip`, both in a subnet of prefix length `subnet`. The first
/// request is to open the channel.
pub fn prepare_net(ns_name: &String, veth_ip: &str, veth_2_ip: &str, subnet: u8) -> (r: (
    NetSetup,
    NetRequest,
))
    ensures
        r.0.deep_view() == NetSetupView::start(
            NetworkPlanView {
                namespace: ns_name@,
                veth_ip: veth_ip@,
                veth_2_ip: veth_2_ip@,
                subnet,
            },
        ),
        r.1.deep_view() == NetRequestView::Connect,
{
    (
        NetSetup {
            plan: NetworkPlan {
                namespace: ns_name.clone(),
                veth_ip: String::from_str(veth_ip),
                veth_2_ip: String::from_str(veth_2_ip),
                subnet,
            },
            stage: NetStage::Connecting,
            handle: None,
            veth_index: None,
            peer_index: None,
        },
        NetRequest::Connect,
    )
}

/// The request that opens the file of the network namespace `ns_name`.
/// The set-up makes it only once the namespace exists: where a look finds
/// no file, the namespace is created first.
pub fn open_namespace(ns_name: &String) -> (request: NetRequest)
    ensures
        request.deep_view() == (NetRequestView::OpenNamespace {
            name: ns_name@,
            path: namespace_path(ns_name@),
        }),
{
    NetRequest::OpenNamespace {
        name: ns_name.clone(),
        path: concat2("/run/netns/", ns_name.as_str()),
    }
}

/// The request that creates the virtual-ethernet pair named after
/// `veth_name`.
pub fn create_veth_pair(veth_name: &String) -> (request: NetRequest)
    ensures
        request.deep_view() == (NetRequestView::CreateVeth {
            name: veth_name@,
            peer: peer_name(veth_name@),
        }),
{
    NetRequest::CreateVeth {
        name: veth_name.clone(),
        peer: concat2(veth_name.as_str(), "_peer"),
    }
}

/// The request that moves the interface `veth_idx` into the network
/// namespace of the process `pid`.
pub fn join_veth_to_ns_pid(veth_idx: u32, pid: u32) -> (request: NetRequest)
    ensures
        request.deep_view() == (NetRequestView::MoveToProcess { index: veth_idx, pid }),
{
    NetRequest::MoveToProcess { index: veth_idx, pid }
}

/// The request that moves the interface `veth_idx` into the network
/// namespace behind the handle `fd`. The index is good until the move
/// and not after it.
pub fn join_veth_to_ns_fd(veth_idx: u32, fd: i32) -> (request: NetRequest)
    ensures
        request.deep_view() == (NetRequestView::MoveToNamespace { index: veth_idx, handle: fd }),
{
    NetRequest::MoveToNamespace { index: veth_idx, handle: fd }
}

impl NetSetup {
    fn unexpected(&mut self) -> (request: NetRequest)
        ensures
            (final(self).deep_view(), request.deep_view()) == old(self).deep_view().fail(
                unexpected(),
            ),
    {
        self.stage = NetStage::Finished;
        self.peer_index = None;
        NetRequest::Abort(
            Errcode::NetworkError(String::from_str("Unexpected answer to a network request")),
        )
    }

    fn fail(&mut self, e: Errcode) -> (request: NetRequest)
        ensures
            (final(self).deep_view(), request.deep_view()) == old(self).deep_view().fail(
                e.deep_view(),
            ),
    {
        self.stage = NetStage::Finished;
        self.peer_index = None;
        NetRequest::Abort(e)
    }

    fn failure(&self, cause: &str) -> (e: Errcode)
        ensures
            e.deep_view() == self.deep_view().failure(cause@),
    {
        match self.stage {
            NetStage::ProbingNamespace
            | NetStage::CreatingNamespace
            | NetStage::OpeningNamespace => Errcode::NamespacesError(
                concat4("Can not create network namespace ", self.plan.namespace.as_str(), ": ", cause),
            ),
            NetStage::CreatingVeth => Errcode::NetworkError(
                concat2("Can not create veth interfaces: ", cause),
            ),
            NetStage::RaisingVeth => Errcode::NetworkError(
                concat4("Setting veth ", self.plan.namespace.as_str(), " up failed: ", cause),
            ),
            NetStage::AddressingVeth => Errcode::NetworkError(
                concat6(
                    "Setting addr ",
                    self.plan.veth_ip.as_str(),
                    " to veth ",
                    self.plan.namespace.as_str(),
                    " failed: ",
                    cause,
                ),
            ),
            NetStage::Migrating => {
                let index = match self.peer_index {
                    Some(i) => i,
                    None => 0,
                };
                let handle = match self.handle {
                    Some(h) => h,
                    None => 0,
                };
                let index_text = format_u64(index as u64);
                let handle_text = format_i32(handle);
                Errcode::NetworkError(
                    concat6(
                        "Set veth ",
                        index_text.as_str(),
                        " to fd ",
                        handle_text.as_str(),
                        " failed: ",
                        cause,
                    ),
                )
            },
            NetStage::AwaitingHelper => Errcode::NamespacesError(concat2("Error fork(): ", cause)),
            _ => Errcode::NetworkError(String::from_str(cause)),
        }
    }

    /// Takes the outcome of the request under way and says what to do
    /// next.
    pub fn advance(&mut self, event: NetEvent) -> (request: NetRequest)
        ensures
            (final(self).deep_view(), request.deep_view()) == old(self).deep_view().next(
                event.deep_view(),
            ),
    {
        if let NetStage::Finished = self.stage {
            return self.unexpected();
        }
        if let NetStage::AwaitingHelper = self.stage {
            if let NetEvent::Helper(status) = &event {
                return match run_parent(status) {
                    Ok(_) => match self.veth_index {
                        Some(index) => {
                            self.stage = NetStage::Finished;
                            NetRequest::Finish { veth_index: index }
                        },
                        None => self.unexpected(),
                    },
                    Err(e) => self.fail(e),
                };
            }
        }
        if let NetEvent::Failed(cause) = &event {
            let e = self.failure(cause.as_str());
            return self.fail(e);
        }
        match (self.stage, event) {
            (NetStage::Connecting, NetEvent::Done) => {
                self.stage = NetStage::ProbingNamespace;
                NetRequest::ProbeNamespace {
                    path: concat2("/run/netns/", self.plan.namespace.as_str()),
                }
            },
            (NetStage::ProbingNamespace, NetEvent::Present(false)) => {
                self.stage = NetStage::CreatingNamespace;
                NetRequest::CreateNamespace { name: self.plan.namespace.clone() }
            },
            (NetStage::ProbingNamespace, NetEvent::Present(true))
            | (NetStage::CreatingNamespace, NetEvent::Done) => {
                self.stage = NetStage::OpeningNamespace;
                open_namespace(&self.plan.namespace)
            },
            (NetStage::OpeningNamespace, NetEvent::Handle(handle)) => {
                self.stage = NetStage::CreatingVeth;
                self.handle = Some(handle);
                create_veth_pair(&self.plan.namespace)
            },
            (NetStage::CreatingVeth, NetEvent::Done) => {
                self.stage = NetStage::ResolvingVeth;
                NetRequest::LinkIndex { name: self.plan.namespace.clone() }
            },
            (NetStage::ResolvingVeth, NetEvent::Index(Some(index))) => {
                self.stage = NetStage::ResolvingPeer;
                self.veth_index = Some(index);
                NetRequest::LinkIndex { name: concat2(self.plan.namespace.as_str(), "_peer") }
            },
            (NetStage::ResolvingVeth, NetEvent::Index(None)) => {
                let e = Errcode::NetworkError(
                    concat2("Failed to get index for ", self.plan.namespace.as_str()),
                );
                self.fail(e)
            },
            (NetStage::ResolvingPeer, NetEvent::Index(Some(index))) => match self.veth_index {
                Some(veth_index) => {
                    self.stage = NetStage::RaisingVeth;
                    self.peer_index = Some(index);
                    NetRequest::LinkUp { index: veth_index }
                },
                None => self.unexpected(),
            },
            (NetStage::ResolvingPeer, NetEvent::Index(None)) => {
                let peer = concat2(self.plan.namespace.as_str(), "_peer");
                let e = Errcode::NetworkError(concat2("Failed to get index for ", peer.as_str()));
                self.fail(e)
            },
            (NetStage::RaisingVeth, NetEvent::Done) => match self.veth_index {
                Some(veth_index) => {
                    self.stage = NetStage::AddressingVeth;
                    NetRequest::AddAddress {
                        index: veth_index,
                        address: self.plan.veth_ip.clone(),
                        prefix_len: self.plan.subnet,
                    }
                },
                None => self.unexpected(),
            },
            (NetStage::AddressingVeth, NetEvent::Done) => match (self.peer_index, self.handle) {
                (Some(index), Some(handle)) => {
                    self.stage = NetStage::Migrating;
                    join_veth_to_ns_fd(index, handle)
                },
                _ => self.unexpected(),
            },
            (NetStage::Migrating, NetEvent::Done) => {
                self.stage = NetStage::AwaitingHelper;
                self.peer_index = None;
                NetRequest::RunHelper
            },
            _ => self.unexpected(),
        }
    }
}

} // verus!
