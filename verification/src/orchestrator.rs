//! The course of one run, from the check of the host to the exit status.
//!
//! A run alternates work on the host with decisions on what came back.
//! [`Runtime`] holds the decisions: the caller performs each [`Request`]
//! and reports the outcome as an [`Event`]. Whatever happens once the
//! contained process exists, the run cleans up and stops its companions
//! before it ends, and the first error is the one it reports.

use vstd::prelude::*;
use crate::child::{container_namespaces, generate_child_process, CloneRequest, STACK_SIZE};
use crate::cli::{Args, ArgsView};
use crate::config::{ContainerOptsView, TOR_DATA_DIRECTORY};
use crate::container::{
    addpath_spec, check_compatibility, compatibility, container_spec, creation_failure,
    parse_addpath, wait_child, wait_child_spec, Container, ContainerView, HostFacts, HostFactsView,
    HostInfo, HostInfoView,
};
use crate::errors::{Errcode, ErrcodeView};
use crate::host::{Command, CommandView, Step, StepView, WaitOutcome, WaitOutcomeView};
use crate::hostname::{generate_hostname, is_generated_hostname};
use crate::mountpoint::clean_steps;
use crate::slirp::{slirp_command, slirp_failure, SlirpProcess, SlirpProcessView};
use crate::host::HostCallView;
use crate::tor::{
    is_absolute, tor_failure, tor_spec, tor_steps, torrc_path, DataDirProbe, TorProcess,
    TORRC_CONTENTS,
};

verus! {

/// What a run asks of its caller.
#[derive(Debug, PartialEq, Eq)]
pub enum Request {
    /// Say what the host is: kernel release, architecture, and whether
    /// unprivileged user namespaces are enabled.
    ProbeHost,
    /// Say what the host holds of the things the arguments name: the ids
    /// the runtime runs as, the canonical form of each host path in
    /// `binds`, where the companions' binaries are (`tor` and `slirp` are
    /// the explicit paths, empty for a lookup by name), and whether
    /// `mount_dir` is an existing directory.
    ProbeFacts { binds: Vec<String>, tor: String, slirp: String, mount_dir: String },
    /// Create the contained process.
    Clone(CloneRequest),
    /// Start a companion.
    Spawn(Command),
    /// Say what is at the proxy daemon's data directory, and whether its
    /// configuration file exists.
    ProbeTor { data_directory: String, torrc: String },
    /// Perform the steps in order and stop at the first that fails for
    /// good.
    Run(Vec<Step>),
    /// Wait until the contained process ends.
    Wait { pid: i32 },
    /// Kill the process and reap it. This is best effort: there is
    /// nothing to decide on its outcome.
    Kill { pid: i32 },
    /// The run is over and went well.
    Finish,
    /// The run is over and failed with this error.
    Abort(Errcode),
}

/// The mathematical value of a [`Request`].
pub enum RequestView {
    ProbeHost,
    ProbeFacts { binds: Seq<Seq<char>>, tor: Seq<char>, slirp: Seq<char>, mount_dir: Seq<char> },
    Clone(CloneRequest),
    Spawn(CommandView),
    ProbeTor { data_directory: Seq<char>, torrc: Seq<char> },
    Run(Seq<StepView>),
    Wait { pid: i32 },
    Kill { pid: i32 },
    Finish,
    Abort(ErrcodeView),
}

impl DeepView for Request {
    type V = RequestView;

    open spec fn deep_view(&self) -> RequestView {
        match self {
            Request::ProbeHost => RequestView::ProbeHost,
            Request::ProbeFacts { binds, tor, slirp, mount_dir } => RequestView::ProbeFacts {
                binds: binds.deep_view(),
                tor: tor@,
                slirp: slirp@,
                mount_dir: mount_dir@,
            },
            Request::Clone(request) => RequestView::Clone(*request),
            Request::Spawn(command) => RequestView::Spawn(command.deep_view()),
            Request::ProbeTor { data_directory, torrc } => RequestView::ProbeTor {
                data_directory: data_directory@,
                torrc: torrc@,
            },
            Request::Run(steps) => RequestView::Run(steps.deep_view()),
            Request::Wait { pid } => RequestView::Wait { pid: *pid },
            Request::Kill { pid } => RequestView::Kill { pid: *pid },
            Request::Finish => RequestView::Finish,
            Request::Abort(e) => RequestView::Abort(e.deep_view()),
        }
    }
}

/// What the caller reports back.
#[derive(Debug, PartialEq, Eq)]
pub enum Event {
    /// What the host is.
    Host(HostInfo),
    /// What the host holds of the things the arguments name.
    Facts(HostFacts),
    /// The identifier of the contained process, or why there is none.
    Cloned(Result<i32, String>),
    /// The identifier of the companion, or why it did not start.
    Spawned(Result<i32, String>),
    /// What is at the proxy daemon's data directory.
    TorProbed { probe: DataDirProbe, torrc_exists: bool },
    /// The steps were performed, or one of them failed with this error.
    Ran(Result<(), Errcode>),
    /// How the wait for the contained process ended.
    Exited(WaitOutcome),
    /// The process was killed, as far as that was possible.
    Killed,
}

/// The mathematical value of an [`Event`].
pub enum EventView {
    Host(HostInfoView),
    Facts(HostFactsView),
    Cloned(Result<i32, Seq<char>>),
    Spawned(Result<i32, Seq<char>>),
    TorProbed { probe: DataDirProbe, torrc_exists: bool },
    Ran(Result<(), ErrcodeView>),
    Exited(WaitOutcomeView),
    Killed,
}

impl DeepView for Event {
    type V = EventView;

    open spec fn deep_view(&self) -> EventView {
        match self {
            Event::Host(info) => EventView::Host(info.deep_view()),
            Event::Facts(facts) => EventView::Facts(facts.deep_view()),
            Event::Cloned(r) => EventView::Cloned(
                match r {
                    Ok(pid) => Ok(*pid),
                    Err(cause) => Err(cause@),
                },
            ),
            Event::Spawned(r) => EventView::Spawned(
                match r {
                    Ok(pid) => Ok(*pid),
                    Err(cause) => Err(cause@),
                },
            ),
            Event::TorProbed { probe, torrc_exists } => EventView::TorProbed {
                probe: *probe,
                torrc_exists: *torrc_exists,
            },
            Event::Ran(r) => EventView::Ran(
                match r {
                    Ok(_) => Ok(()),
                    Err(e) => Err(e.deep_view()),
                },
            ),
            Event::Exited(status) => EventView::Exited(status.deep_view()),
            Event::Killed => EventView::Killed,
        }
    }
}

/// How far a run has come: the request that is under way.
#[derive(Clone, Copy, Debug, PartialEq, Eq, Structural)]
pub enum Phase {
    CheckingHost,
    Building,
    Creating,
    StartingHelper,
    ProbingProxy,
    PreparingProxy,
    StartingProxy,
    Waiting,
    StoppingChild,
    Cleaning,
    StoppingHelper,
    StoppingProxy,
    Finished,
}

/// One run between two requests.
#[derive(Debug, PartialEq, Eq)]
pub struct Runtime {
    pub phase: Phase,
    /// The arguments, until the container is built from them.
    pub args: Option<Args>,
    /// The host name of the container.
    pub hostname: String,
    /// The container, once it is built.
    pub container: Option<Container>,
    /// The network helper, while it runs.
    pub helper: Option<i32>,
    /// The proxy daemon, while it runs.
    pub proxy: Option<i32>,
    /// The first error of the run.
    pub failure: Option<Errcode>,
}

/// The mathematical value of a [`Runtime`].
pub struct RuntimeView {
    pub phase: Phase,
    pub args: Option<ArgsView>,
    pub hostname: Seq<char>,
    pub container: Option<ContainerView>,
    pub helper: Option<i32>,
    pub proxy: Option<i32>,
    pub failure: Option<ErrcodeView>,
}

impl DeepView for Runtime {
    type V = RuntimeView;

    open spec fn deep_view(&self) -> RuntimeView {
        RuntimeView {
            phase: self.phase,
            args: self.args.deep_view(),
            hostname: self.hostname@,
            container: self.container.deep_view(),
            helper: self.helper,
            proxy: self.proxy,
            failure: self.failure.deep_view(),
        }
    }
}

/// The error for an answer that does not fit the request under way.
pub open spec fn unexpected() -> ErrcodeView {
    ErrcodeView::ContainerError("Unexpected answer to a request of the run"@)
}

/// Whether every extra bind can be split.
pub open spec fn binds_split(addpaths: Seq<Seq<char>>) -> bool {
    forall|i: int| 0 <= i < addpaths.len() ==> addpath_spec(#[trigger] addpaths[i]) is Some
}

/// The host paths of the extra binds, as they were written.
pub open spec fn bind_hosts(addpaths: Seq<Seq<char>>) -> Seq<Seq<char>> {
    Seq::new(addpaths.len(), |i: int| addpath_spec(addpaths[i]).unwrap().0)
}

impl RuntimeView {
    /// The state in which a run starts.
    pub open spec fn start(args: ArgsView, hostname: Seq<char>) -> RuntimeView {
        RuntimeView {
            phase: Phase::CheckingHost,
            args: Some(args),
            hostname,
            container: None,
            helper: None,
            proxy: None,
            failure: None,
        }
    }

    /// The same state at another phase.
    pub open spec fn at(self, phase: Phase) -> RuntimeView {
        RuntimeView { phase, ..self }
    }

    /// The state with `e` recorded, unless an earlier error is recorded
    /// already: the first error of a run is the one it reports.
    pub open spec fn failed(self, e: ErrcodeView) -> RuntimeView {
        RuntimeView {
            failure: match self.failure {
                Some(first) => Some(first),
                None => Some(e),
            },
            ..self
        }
    }

    /// The end of a run that has nothing to clean up.
    pub open spec fn abort(self, e: ErrcodeView) -> (RuntimeView, RequestView) {
        (self.failed(e).at(Phase::Finished), RequestView::Abort(self.failed(e).failure->0))
    }

    /// The end of a run: success if no error was recorded, and the first
    /// error otherwise.
    pub open spec fn finish(self) -> (RuntimeView, RequestView) {
        (
            self.at(Phase::Finished),
            match self.failure {
                None => RequestView::Finish,
                Some(e) => RequestView::Abort(e),
            },
        )
    }

    /// The cleanup of what the container left on the host.
    pub open spec fn clean(self) -> (RuntimeView, RequestView) {
        match self.container {
            Some(container) => (
                self.at(Phase::Cleaning),
                RequestView::Run(clean_steps(container.config.hostname)),
            ),
            None => self.stop_helper(),
        }
    }

    /// The end of the contained process after a failure, so that no
    /// half-started container is left running. It is followed by the
    /// cleanup.
    pub open spec fn stop_child(self, e: ErrcodeView) -> (RuntimeView, RequestView) {
        match self.container {
            Some(ContainerView { child: Some(pid), .. }) => (
                self.failed(e).at(Phase::StoppingChild),
                RequestView::Kill { pid },
            ),
            _ => self.failed(e).clean(),
        }
    }

    /// The end of the network helper, if it runs.
    pub open spec fn stop_helper(self) -> (RuntimeView, RequestView) {
        match self.helper {
            Some(pid) => (self.at(Phase::StoppingHelper), RequestView::Kill { pid }),
            None => self.stop_proxy(),
        }
    }

    /// The end of the proxy daemon, if it runs.
    pub open spec fn stop_proxy(self) -> (RuntimeView, RequestView) {
        match self.proxy {
            Some(pid) => (self.at(Phase::StoppingProxy), RequestView::Kill { pid }),
            None => self.finish(),
        }
    }

    /// What follows from an event: the next state and the next request.
    pub open spec fn next(self, event: EventView) -> (RuntimeView, RequestView) {
        match (self.phase, event) {
            (Phase::CheckingHost, EventView::Host(info)) => match (compatibility(info), self.args) {
                (Err(e), _) => self.abort(e),
                (Ok(_), None) => self.abort(unexpected()),
                (Ok(_), Some(args)) => if binds_split(args.addpaths) {
                    (
                        self.at(Phase::Building),
                        RequestView::ProbeFacts {
                            binds: bind_hosts(args.addpaths),
                            tor: args.tor,
                            slirp: args.slirp4netns,
                            mount_dir: args.mount_dir,
                        },
                    )
                } else {
                    self.abort(ErrcodeView::ArgumentInvalid("add"@))
                },
            },
            (Phase::CheckingHost, _) => self.abort(unexpected()),
            (Phase::Building, EventView::Facts(facts)) => match self.args {
                None => self.abort(unexpected()),
                Some(args) => match container_spec(args, facts, self.hostname) {
                    Err(e) => RuntimeView { args: None, ..self }.abort(e),
                    Ok(config) => (
                        RuntimeView {
                            phase: Phase::Creating,
                            args: None,
                            container: Some(ContainerView { config, child: None }),
                            ..self
                        },
                        RequestView::Clone(
                            CloneRequest {
                                namespaces: container_namespaces(false),
                                stack_size: STACK_SIZE,
                                notify_parent: true,
                            },
                        ),
                    ),
                },
            },
            (Phase::Building, _) => self.abort(unexpected()),
            (Phase::Creating, EventView::Cloned(Ok(pid))) => match self.container {
                Some(container) => {
                    let helper = SlirpProcessView {
                        command: slirp_command(pid, container.config.slirp_path),
                        pid,
                    };
                    (
                        RuntimeView {
                            phase: Phase::StartingHelper,
                            container: Some(
                                ContainerView {
                                    config: ContainerOptsView {
                                        slirp_process: Some(helper),
                                        ..container.config
                                    },
                                    child: Some(pid),
                                },
                            ),
                            ..self
                        },
                        RequestView::Spawn(helper.command),
                    )
                },
                None => self.abort(unexpected()),
            },
            (Phase::Creating, EventView::Cloned(Err(_))) => self.failed(creation_failure()).clean(),
            (Phase::Creating, _) => self.failed(unexpected()).clean(),
            (Phase::StartingHelper, EventView::Spawned(Ok(pid))) => (
                RuntimeView { phase: Phase::ProbingProxy, helper: Some(pid), ..self },
                RequestView::ProbeTor {
                    data_directory: TOR_DATA_DIRECTORY@,
                    torrc: torrc_path(TOR_DATA_DIRECTORY@),
                },
            ),
            (Phase::StartingHelper, EventView::Spawned(Err(cause))) => self.stop_child(
                slirp_failure(cause),
            ),
            (Phase::ProbingProxy, EventView::TorProbed { probe, torrc_exists }) => match self.container {
                Some(container) => match tor_spec(
                    TOR_DATA_DIRECTORY@,
                    container.config.tor_path,
                    probe,
                    torrc_exists,
                ) {
                    Ok(process) => (
                        RuntimeView {
                            phase: Phase::PreparingProxy,
                            container: Some(
                                ContainerView {
                                    config: ContainerOptsView {
                                        tor_process: Some(process),
                                        ..container.config
                                    },
                                    ..container
                                },
                            ),
                            ..self
                        },
                        RequestView::Run(process.steps),
                    ),
                    Err(e) => self.stop_child(e),
                },
                None => self.stop_child(unexpected()),
            },
            (Phase::PreparingProxy, EventView::Ran(Ok(_))) => match self.container {
                Some(
                    ContainerView { config: ContainerOptsView { tor_process: Some(process), .. }, .. },
                ) => (self.at(Phase::StartingProxy), RequestView::Spawn(process.command)),
                _ => self.stop_child(unexpected()),
            },
            (Phase::PreparingProxy, EventView::Ran(Err(e))) => self.stop_child(e),
            (Phase::StartingProxy, EventView::Spawned(Ok(pid))) => match self.container {
                Some(ContainerView { child: Some(child), .. }) => (
                    RuntimeView { phase: Phase::Waiting, proxy: Some(pid), ..self },
                    RequestView::Wait { pid: child },
                ),
                _ => RuntimeView { proxy: Some(pid), ..self }.stop_child(unexpected()),
            },
            (Phase::StartingProxy, EventView::Spawned(Err(cause))) => self.stop_child(
                tor_failure(cause),
            ),
            (Phase::Waiting, EventView::Exited(status)) => match wait_child_spec(status) {
                Ok(_) => self.clean(),
                Err(e) => self.failed(e).clean(),
            },
            (
                Phase::StartingHelper
                | Phase::ProbingProxy
                | Phase::PreparingProxy
                | Phase::StartingProxy
                | Phase::Waiting,
                _,
            ) => self.stop_child(unexpected()),
            (Phase::StoppingChild, _) => self.clean(),
            (Phase::Cleaning, EventView::Ran(Ok(_))) => self.stop_helper(),
            (Phase::Cleaning, EventView::Ran(Err(e))) => self.failed(e).stop_helper(),
            (Phase::Cleaning, _) => self.failed(unexpected()).stop_helper(),
            (Phase::StoppingHelper, _) => RuntimeView { helper: None, ..self }.stop_proxy(),
            (Phase::StoppingProxy, _) => RuntimeView { proxy: None, ..self }.finish(),
            (Phase::Finished, _) => self.abort(unexpected()),
        }
    }
}

impl Phase {
    /// The place of a phase in the course of a run.
    pub open spec fn rank(self) -> nat {
        match self {
            Phase::CheckingHost => 0,
            Phase::Building => 1,
            Phase::Creating => 2,
            Phase::StartingHelper => 3,
            Phase::ProbingProxy => 4,
            Phase::PreparingProxy => 5,
            Phase::StartingProxy => 6,
            Phase::Waiting => 7,
            Phase::StoppingChild => 8,
            Phase::Cleaning => 9,
            Phase::StoppingHelper => 10,
            Phase::StoppingProxy => 11,
            Phase::Finished => 12,
        }
    }

    /// Whether the container exists, or is being created, and the cleanup
    /// has not begun.
    pub open spec fn owes_cleanup(self) -> bool {
        Phase::Creating.rank() <= self.rank() <= Phase::StoppingChild.rank()
    }
}

impl RuntimeView {
    /// Whether the state is one that a run can be in: what is held fits
    /// the phase, and the configuration of the container, once it is
    /// built, keeps its invariant.
    pub open spec fn wf(self) -> bool {
        &&& self.container matches Some(container) ==> container.config.wf()
        &&& self.phase.rank() <= Phase::Building.rank() ==> self.container is None
        &&& self.phase.rank() <= Phase::StartingHelper.rank() ==> self.helper is None
        &&& self.phase.rank() <= Phase::StartingProxy.rank() ==> self.proxy is None
        &&& self.phase.rank() <= Phase::Waiting.rank() ==> self.failure is None
        &&& self.phase.owes_cleanup() ==> self.container is Some
        &&& Phase::StartingHelper.rank() <= self.phase.rank() <= Phase::Waiting.rank()
            ==> self.container->0.child is Some
        &&& Phase::ProbingProxy.rank() <= self.phase.rank() <= Phase::Waiting.rank()
            ==> self.helper is Some
        &&& self.phase == Phase::Waiting ==> self.proxy is Some
        &&& (self.phase == Phase::StoppingProxy || self.phase == Phase::Finished)
            ==> self.helper is None
        &&& self.phase == Phase::Finished ==> self.proxy is None
    }
}

/// A run always cleans up. A run starts in a well-formed state and stays
/// in one, and every step moves it forward, so that it ends after a
/// bounded number of steps. Before the container is built a failure ends
/// the run at once, for nothing exists that would have to be undone. From
/// the creation of the contained process on, a run does not end before
/// the cleanup of the container was requested; a companion is forgotten
/// only after its end was requested; and at the end of a run no companion
/// is left. The first error of a run is kept: no later error, and no
/// error of the cleanup, takes its place. The run ends well exactly if
/// there was no error.
pub proof fn lemma_run_cleans_up(state: RuntimeView, event: EventView)
    requires
        state.wf(),
    ensures
        ({
            let (after, request) = state.next(event);
            &&& after.wf()
            &&& after.hostname == state.hostname
            &&& after.phase.rank() > state.phase.rank() || state.phase == Phase::Finished
            &&& state.phase.owes_cleanup() ==> after.phase.rank() <= Phase::Cleaning.rank()
            &&& (after.phase == Phase::Cleaning && after.container is Some) ==> request
                == RequestView::Run(
                clean_steps(after.container->0.config.hostname),
            )
            &&& after.phase == Phase::StoppingChild ==> request == (RequestView::Kill {
                pid: after.container->0.child->0,
            })
            &&& after.phase == Phase::StoppingHelper ==> after.helper is Some && request
                == (RequestView::Kill { pid: after.helper->0 })
            &&& after.phase == Phase::StoppingProxy ==> after.proxy is Some && request
                == (RequestView::Kill { pid: after.proxy->0 })
            &&& (state.helper is Some && after.helper is None) ==> state.phase
                == Phase::StoppingHelper
            &&& (state.proxy is Some && after.proxy is None) ==> state.phase
                == Phase::StoppingProxy
            &&& state.failure is Some ==> after.failure == state.failure
            &&& after.phase == Phase::Finished <==> (request is Finish || request is Abort)
            &&& request is Finish ==> after.failure is None
            &&& request matches RequestView::Abort(e) ==> after.failure == Some(e)
        }),
{
}

/// Nothing is created before the container is built. The creation of the
/// contained process is requested only when the host was found fit and
/// the container was built from the arguments; where the container cannot
/// be built, the run ends at once with the error, and no process, mount
/// or companion was ever asked for.
pub proof fn lemma_nothing_created_before_built(state: RuntimeView, event: EventView)
    requires
        state.wf(),
    ensures
        ({
            let (after, request) = state.next(event);
            &&& request is Clone ==> {
                &&& state.phase == Phase::Building
                &&& event matches EventView::Facts(facts)
                &&& state.args matches Some(args)
                &&& container_spec(args, facts, state.hostname) matches Ok(config)
                &&& after.container == Some(ContainerView { config, child: None })
            }
            &&& state.phase.rank() <= Phase::Building.rank() ==> (request is ProbeFacts
                || request is Clone || request is Abort)
            &&& (state.phase == Phase::Building && event is Facts && state.args is Some
                && container_spec(state.args->0, event->Facts_0, state.hostname) is Err) ==> {
                &&& request == RequestView::Abort(
                    container_spec(state.args->0, event->Facts_0, state.hostname)->Err_0,
                )
                &&& after.container is None
                &&& after.phase == Phase::Finished
            }
        }),
{
}

/// A crash of the contained process fails the run, after the cleanup.
/// When the wait for the contained process ends in anything but a normal
/// exit with status 0, the cleanup of the container is requested next and
/// the error is on record; by `lemma_run_cleans_up` it stays on record
/// until the run ends with it.
pub proof fn lemma_crash_fails_the_run(state: RuntimeView, status: WaitOutcomeView)
    requires
        state.wf(),
        state.phase == Phase::Waiting,
        !(status matches WaitOutcomeView::Exited(0)),
    ensures
        ({
            let (after, request) = state.next(EventView::Exited(status));
            &&& wait_child_spec(status) is Err
            &&& after.failure == Some(wait_child_spec(status)->Err_0)
            &&& after.phase == Phase::Cleaning
            &&& request == RequestView::Run(
                clean_steps(state.container->0.config.hostname),
            )
            &&& after.helper == state.helper && after.helper is Some
            &&& after.proxy == state.proxy && after.proxy is Some
        }),
{
}

/// A run that meets no failure goes well. On a host that is fit, with
/// arguments from which a container can be built, a proxy data directory
/// that is no regular file, and a host that carries out every request, the
/// run goes from the check of the host to its end in eleven steps and ends
/// well. On the way the network helper is started for the contained
/// process; the proxy's configuration is written to its fixed place if,
/// and only if, none is there; the proxy is started on that
/// configuration; the wait for the contained process begins only when
/// helper and proxy both run; and after the contained process has exited
/// with status 0 the per-run directory is removed and both companions are
/// stopped.
pub proof fn lemma_a_good_run_finishes(
    args: ArgsView,
    hostname: Seq<char>,
    info: HostInfoView,
    facts: HostFactsView,
    child: i32,
    helper: i32,
    proxy: i32,
    probe: DataDirProbe,
    torrc_exists: bool,
)
    requires
        compatibility(info) is Ok,
        container_spec(args, facts, hostname) is Ok,
        probe != DataDirProbe::File,
    ensures
        ({
            let config = container_spec(args, facts, hostname)->Ok_0;
            let torrc = torrc_path(TOR_DATA_DIRECTORY@);
            let s0 = RuntimeView::start(args, hostname);
            let (s1, r1) = s0.next(EventView::Host(info));
            let (s2, r2) = s1.next(EventView::Facts(facts));
            let (s3, r3) = s2.next(EventView::Cloned(Ok(child)));
            let (s4, r4) = s3.next(EventView::Spawned(Ok(helper)));
            let (s5, r5) = s4.next(EventView::TorProbed { probe, torrc_exists });
            let (s6, r6) = s5.next(EventView::Ran(Ok(())));
            let (s7, r7) = s6.next(EventView::Spawned(Ok(proxy)));
            let (s8, r8) = s7.next(EventView::Exited(WaitOutcomeView::Exited(0)));
            let (s9, r9) = s8.next(EventView::Ran(Ok(())));
            let (s10, r10) = s9.next(EventView::Killed);
            let (s11, r11) = s10.next(EventView::Killed);
            &&& r1 == (RequestView::ProbeFacts {
                binds: bind_hosts(args.addpaths),
                tor: args.tor,
                slirp: args.slirp4netns,
                mount_dir: args.mount_dir,
            })
            &&& r2 == RequestView::Clone(
                CloneRequest {
                    namespaces: container_namespaces(false),
                    stack_size: STACK_SIZE,
                    notify_parent: true,
                },
            )
            &&& r3 == RequestView::Spawn(slirp_command(child, config.slirp_path))
            &&& r4 == (RequestView::ProbeTor { data_directory: TOR_DATA_DIRECTORY@, torrc })
            &&& r5 == RequestView::Run(tor_steps(TOR_DATA_DIRECTORY@, probe, torrc_exists))
            &&& !torrc_exists ==> tor_steps(TOR_DATA_DIRECTORY@, probe, torrc_exists).last().call
                == (HostCallView::WriteFile { path: torrc, contents: TORRC_CONTENTS@, create: true })
            &&& torrc_exists ==> forall|i: int|
                0 <= i < tor_steps(TOR_DATA_DIRECTORY@, probe, torrc_exists).len() ==> !(
                #[trigger] tor_steps(TOR_DATA_DIRECTORY@, probe, torrc_exists)[i].call
                    is WriteFile)
            &&& r6 == RequestView::Spawn(
                CommandView { program: config.tor_path, args: seq!["-f"@, torrc] },
            )
            &&& r7 == (RequestView::Wait { pid: child })
            &&& s7.helper == Some(helper) && s7.proxy == Some(proxy)
            &&& r8 == RequestView::Run(clean_steps(hostname))
            &&& r9 == (RequestView::Kill { pid: helper })
            &&& r10 == (RequestView::Kill { pid: proxy })
            &&& r11 == RequestView::Finish
            &&& s11.phase == Phase::Finished && s11.failure is None && s11.helper is None
                && s11.proxy is None
        }),
{
    reveal_strlit("/tmp/tor");
    let config = container_spec(args, facts, hostname)->Ok_0;
    assert(binds_split(args.addpaths));
    assert(config.hostname == hostname);
    assert(is_absolute(TOR_DATA_DIRECTORY@));
    assert(tor_spec(TOR_DATA_DIRECTORY@, config.tor_path, probe, torrc_exists) is Ok);
    let s0 = RuntimeView::start(args, hostname);
    let (s1, r1) = s0.next(EventView::Host(info));
    let (s2, r2) = s1.next(EventView::Facts(facts));
    let (s3, r3) = s2.next(EventView::Cloned(Ok(child)));
    let (s4, r4) = s3.next(EventView::Spawned(Ok(helper)));
    let (s5, r5) = s4.next(EventView::TorProbed { probe, torrc_exists });
    let (s6, r6) = s5.next(EventView::Ran(Ok(())));
    let (s7, r7) = s6.next(EventView::Spawned(Ok(proxy)));
    let (s8, r8) = s7.next(EventView::Exited(WaitOutcomeView::Exited(0)));
    let (s9, r9) = s8.next(EventView::Ran(Ok(())));
    let (s10, r10) = s9.next(EventView::Killed);
    assert(s1.phase == Phase::Building);
    assert(s2.phase == Phase::Creating);
    assert(s3.phase == Phase::StartingHelper);
    assert(s4.phase == Phase::ProbingProxy);
    assert(s5.phase == Phase::PreparingProxy);
    assert(s6.phase == Phase::StartingProxy);
    assert(s7.phase == Phase::Waiting);
    assert(s8.phase == Phase::Cleaning);
    assert(s9.phase == Phase::StoppingHelper);
    assert(s10.phase == Phase::StoppingProxy);
}

fn split_hosts(addpaths: &Vec<String>) -> (r: Option<Vec<String>>)
    ensures
        match r {
            Some(hosts) => binds_split(addpaths.deep_view()) && hosts.deep_view() == bind_hosts(
                addpaths.deep_view(),
            ),
            None => !binds_split(addpaths.deep_view()),
        },
{
    let mut hosts: Vec<String> = Vec::new();
    let mut i: usize = 0;
    while i < addpaths.len()
        invariant
            i <= addpaths.len(),
            hosts.len() == i,
            forall|j: int|
                0 <= j < i ==> addpath_spec(#[trigger] addpaths.deep_view()[j]) is Some,
            forall|j: int|
                0 <= j < i ==> (#[trigger] hosts.deep_view()[j]) == addpath_spec(
                    addpaths.deep_view()[j],
                ).unwrap().0,
        decreases addpaths.len() - i,
    {
        let ghost before = hosts.deep_view();
        match parse_addpath(addpaths[i].as_str()) {
            Ok((host_path, _)) => {
                hosts.push(host_path);
                proof {
                    assert(addpaths.deep_view()[i as int] == addpaths[i as int]@);
                    assert forall|j: int| 0 <= j < i + 1 implies (#[trigger] hosts.deep_view()[j])
                        == addpath_spec(addpaths.deep_view()[j]).unwrap().0 by {
                        if j < i {
                            assert(hosts.deep_view()[j] == before[j]);
                        }
                    }
                }
            },
            Err(_) => {
                assert(addpaths.deep_view()[i as int] == addpaths[i as int]@);
                return None;
            },
        }
        i += 1;
    }
    assert(hosts.deep_view() =~= bind_hosts(addpaths.deep_view()));
    Some(hosts)
}

fn unexpected_error() -> (e: Errcode)
    ensures
        e.deep_view() == unexpected(),
{
    Errcode::ContainerError(String::from_str("Unexpected answer to a request of the run"))
}

impl Runtime {
    /// Starts a run: the state it begins in, with a fresh host name for
    /// the container, and its first request, the check of the host.
    pub fn start(args: Args) -> (r: (Runtime, Request))
        ensures
            is_generated_hostname(r.0.hostname@),
            r.0.deep_view() == RuntimeView::start(args.deep_view(), r.0.hostname@),
            r.0.deep_view().wf(),
            r.1.deep_view() == RequestView::ProbeHost,
    {
        let hostname = match generate_hostname() {
            Ok(name) => name,
            Err(_) => String::new(),
        };
        (
            Runtime {
                phase: Phase::CheckingHost,
                args: Some(args),
                hostname,
                container: None,
                helper: None,
                proxy: None,
                failure: None,
            },
            Request::ProbeHost,
        )
    }

    fn record(&mut self, e: Errcode)
        ensures
            final(self).deep_view() == old(self).deep_view().failed(e.deep_view()),
    {
        if self.failure.is_none() {
            self.failure = Some(e);
        }
    }

    fn abort(&mut self, e: Errcode) -> (request: Request)
        ensures
            (final(self).deep_view(), request.deep_view()) == old(self).deep_view().abort(
                e.deep_view(),
            ),
    {
        self.record(e);
        self.phase = Phase::Finished;
        match &self.failure {
            Some(first) => Request::Abort(first.duplicate()),
            None => Request::Finish,
        }
    }

    fn finish(&mut self) -> (request: Request)
        ensures
            (final(self).deep_view(), request.deep_view()) == old(self).deep_view().finish(),
    {
        self.phase = Phase::Finished;
        match &self.failure {
            Some(first) => Request::Abort(first.duplicate()),
            None => Request::Finish,
        }
    }

    fn stop_proxy(&mut self) -> (request: Request)
        ensures
            (final(self).deep_view(), request.deep_view()) == old(self).deep_view().stop_proxy(),
    {
        match self.proxy {
            Some(pid) => {
                self.phase = Phase::StoppingProxy;
                Request::Kill { pid }
            },
            None => self.finish(),
        }
    }

    fn stop_helper(&mut self) -> (request: Request)
        ensures
            (final(self).deep_view(), request.deep_view()) == old(self).deep_view().stop_helper(),
    {
        match self.helper {
            Some(pid) => {
                self.phase = Phase::StoppingHelper;
                Request::Kill { pid }
            },
            None => self.stop_proxy(),
        }
    }

    fn clean(&mut self) -> (request: Request)
        ensures
            (final(self).deep_view(), request.deep_view()) == old(self).deep_view().clean(),
    {
        match &self.container {
            Some(container) => {
                let steps = container.clean_exit();
                self.phase = Phase::Cleaning;
                Request::Run(steps)
            },
            None => self.stop_helper(),
        }
    }

    fn stop_child(&mut self, e: Errcode) -> (request: Request)
        ensures
            (final(self).deep_view(), request.deep_view()) == old(self).deep_view().stop_child(
                e.deep_view(),
            ),
    {
        let child = match &self.container {
            Some(container) => container.child,
            None => None,
        };
        self.record(e);
        match child {
            Some(pid) => {
                self.phase = Phase::StoppingChild;
                Request::Kill { pid }
            },
            None => self.clean(),
        }
    }

    /// Takes the outcome of the request under way and says what to do
    /// next.
    pub fn advance(&mut self, event: Event) -> (request: Request)
        ensures
            (final(self).deep_view(), request.deep_view()) == old(self).deep_view().next(
                event.deep_view(),
            ),
    {
        match (self.phase, event) {
            (Phase::CheckingHost, Event::Host(info)) => {
                match check_compatibility(&info) {
                    Err(e) => self.abort(e),
                    Ok(_) => {
                        let probe = match &self.args {
                            None => None,
                            Some(args) => Some(
                                match split_hosts(&args.addpaths) {
                                    Some(binds) => Ok(
                                        Request::ProbeFacts {
                                            binds,
                                            tor: args.tor.clone(),
                                            slirp: args.slirp4netns.clone(),
                                            mount_dir: args.mount_dir.clone(),
                                        },
                                    ),
                                    None => Err(Errcode::ArgumentInvalid("add")),
                                },
                            ),
                        };
                        match probe {
                            None => self.abort(unexpected_error()),
                            Some(Ok(request)) => {
                                self.phase = Phase::Building;
                                request
                            },
                            Some(Err(e)) => self.abort(e),
                        }
                    },
                }
            },
            (Phase::CheckingHost, _) => self.abort(unexpected_error()),
            (Phase::Building, Event::Facts(facts)) => {
                match self.args.take() {
                    None => self.abort(unexpected_error()),
                    Some(args) => {
                        let hostname = self.hostname.clone();
                        match Container::with_hostname(args, facts, hostname) {
                            Err(e) => self.abort(e),
                            Ok(container) => {
                                self.phase = Phase::Creating;
                                self.container = Some(container);
                                Request::Clone(generate_child_process(false))
                            },
                        }
                    },
                }
            },
            (Phase::Building, _) => self.abort(unexpected_error()),
            (Phase::Creating, Event::Cloned(Ok(pid))) => {
                match self.container.take() {
                    Some(mut container) => {
                        let _ = container.create(Ok(pid));
                        container.config.spawn_slirp(pid);
                        let helper = SlirpProcess::new(pid, &container.config.slirp_path);
                        self.phase = Phase::StartingHelper;
                        self.container = Some(container);
                        Request::Spawn(helper.command)
                    },
                    None => self.abort(unexpected_error()),
                }
            },
            (Phase::Creating, Event::Cloned(Err(_))) => {
                self.record(Errcode::ChildProcessError(0));
                self.clean()
            },
            (Phase::Creating, _) => {
                self.record(unexpected_error());
                self.clean()
            },
            (Phase::StartingHelper, Event::Spawned(Ok(pid))) => {
                self.phase = Phase::ProbingProxy;
                self.helper = Some(pid);
                Request::ProbeTor {
                    data_directory: String::from_str(TOR_DATA_DIRECTORY),
                    torrc: crate::text::join_path(TOR_DATA_DIRECTORY, "torrc"),
                }
            },
            (Phase::StartingHelper, Event::Spawned(Err(cause))) => {
                let e = SlirpProcess::spawn_failed(cause.as_str());
                self.stop_child(e)
            },
            (Phase::ProbingProxy, Event::TorProbed { probe, torrc_exists }) => {
                match self.container.take() {
                    Some(mut container) => {
                        let planned = TorProcess::new(
                            TOR_DATA_DIRECTORY,
                            &container.config.tor_path,
                            probe,
                            torrc_exists,
                        );
                        let recorded = container.config.spawn_tor(probe, torrc_exists);
                        self.container = Some(container);
                        match (planned, recorded) {
                            (Ok(process), Ok(_)) => {
                                self.phase = Phase::PreparingProxy;
                                Request::Run(process.steps)
                            },
                            (Err(e), _) => self.stop_child(e),
                            (_, Err(e)) => self.stop_child(e),
                        }
                    },
                    None => self.stop_child(unexpected_error()),
                }
            },
            (Phase::PreparingProxy, Event::Ran(Ok(_))) => {
                let command = match &self.container {
                    Some(container) => match &container.config.tor_process {
                        Some(process) => Some(process.command.duplicate()),
                        None => None,
                    },
                    None => None,
                };
                match command {
                    Some(command) => {
                        self.phase = Phase::StartingProxy;
                        Request::Spawn(command)
                    },
                    None => self.stop_child(unexpected_error()),
                }
            },
            (Phase::PreparingProxy, Event::Ran(Err(e))) => self.stop_child(e),
            (Phase::StartingProxy, Event::Spawned(Ok(pid))) => {
                self.proxy = Some(pid);
                let child = match &self.container {
                    Some(container) => container.child,
                    None => None,
                };
                match child {
                    Some(child) => {
                        self.phase = Phase::Waiting;
                        Request::Wait { pid: child }
                    },
                    None => self.stop_child(unexpected_error()),
                }
            },
            (Phase::StartingProxy, Event::Spawned(Err(cause))) => {
                let e = TorProcess::spawn_failed(cause.as_str());
                self.stop_child(e)
            },
            (Phase::Waiting, Event::Exited(status)) => {
                match wait_child(Some(0), &status) {
                    Ok(_) => self.clean(),
                    Err(e) => {
                        self.record(e);
                        self.clean()
                    },
                }
            },
            (
                Phase::StartingHelper
                | Phase::ProbingProxy
                | Phase::PreparingProxy
                | Phase::StartingProxy
                | Phase::Waiting,
                _,
            ) => self.stop_child(unexpected_error()),
            (Phase::StoppingChild, _) => self.clean(),
            (Phase::Cleaning, Event::Ran(Ok(_))) => self.stop_helper(),
            (Phase::Cleaning, Event::Ran(Err(e))) => {
                self.record(e);
                self.stop_helper()
            },
            (Phase::Cleaning, _) => {
                self.record(unexpected_error());
                self.stop_helper()
            },
            (Phase::StoppingHelper, _) => {
                self.helper = None;
                self.stop_proxy()
            },
            (Phase::StoppingProxy, _) => {
                self.proxy = None;
                self.finish()
            },
            (Phase::Finished, _) => self.abort(unexpected_error()),
        }
    }
}

} // verus!
