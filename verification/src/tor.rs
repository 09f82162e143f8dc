//! The proxy daemon, the companion process that all traffic of the
//! container is forced through.

use vstd::prelude::*;
use crate::errors::{result_view, Errcode, ErrcodeView};
use crate::host::{Command, CommandView, HostCall, HostCallView, Origin, Step, StepView};
use crate::text::{concat2, concat3, join, join_path, push_word};

verus! {

/// What a look at the daemon's data directory found.
#[derive(Clone, Copy, Debug, PartialEq, Eq, Structural)]
pub enum DataDirProbe {
    /// Nothing exists at the path.
    Missing,
    /// A directory exists at the path.
    Directory,
    /// A regular file exists at the path.
    File,
}

/// The proxy daemon of one container: what has to be on disk before it
/// starts, how it is started, and the configuration file it is pointed
/// at.
#[derive(Clone, Debug, PartialEq, Eq)]
pub struct TorProcess {
    /// The preparations, in order.
    pub steps: Vec<Step>,
    /// The invocation that starts the daemon.
    pub command: Command,
    /// The configuration file.
    pub torrc: String,
}

/// The mathematical value of a [`TorProcess`].
pub struct TorProcessView {
    pub steps: Seq<StepView>,
    pub command: CommandView,
    pub torrc: Seq<char>,
}

impl DeepView for TorProcess {
    type V = TorProcessView;

    open spec fn deep_view(&self) -> TorProcessView {
        TorProcessView {
            steps: self.steps.deep_view(),
            command: self.command.deep_view(),
            torrc: self.torrc@,
        }
    }
}

/// The default configuration of the daemon. It fixes the virtual address
/// range, the transparent-proxy and DNS ports on the address of the
/// endpoint that stays outside the container, and makes the daemon detach.
pub const TORRC_CONTENTS: &'static str =
    "VirtualAddrNetwork 10.40.0.0/16\n
                            AutomapHostsOnResolve 1\n
                            TransPort 10.40.50.10:9050\n
                            DNSPort 10.40.50.10:5353\n
                            SocksPort 9040\n
                            RunAsDaemon 1\n
                            DataDirectory /var/lib/tor\n";

/// Whether a path is absolute.
pub open spec fn is_absolute(path: Seq<char>) -> bool {
    path.len() > 0 && path[0] == '/'
}

/// The configuration file below a data directory.
pub open spec fn torrc_path(data_directory: Seq<char>) -> Seq<char> {
    join(data_directory, "torrc"@)
}

/// The preparations: create the data directory if it is missing; write
/// the default configuration unless a configuration is there already. An
/// existing configuration is never overwritten.
pub open spec fn tor_steps(
    data_directory: Seq<char>,
    probe: DataDirProbe,
    torrc_exists: bool,
) -> Seq<StepView> {
    let create = if probe == DataDirProbe::Missing {
        seq![
            StepView {
                call: HostCallView::CreateDirAll { path: data_directory },
                origin: Origin::TorDataDir,
            },
        ]
    } else {
        Seq::empty()
    };
    let write = if torrc_exists {
        Seq::empty()
    } else {
        seq![
            StepView {
                call: HostCallView::WriteFile {
                    path: torrc_path(data_directory),
                    contents: TORRC_CONTENTS@,
                    create: true,
                },
                origin: Origin::TorConfig,
            },
        ]
    };
    create + write
}

/// What `TorProcess::new` plans.
pub open spec fn tor_spec(
    data_directory: Seq<char>,
    tor_path: Seq<char>,
    probe: DataDirProbe,
    torrc_exists: bool,
) -> Result<TorProcessView, ErrcodeView> {
    if !is_absolute(data_directory) {
        Err(ErrcodeView::TorError("Data directory not absolute: "@ + data_directory))
    } else if probe == DataDirProbe::File {
        Err(ErrcodeView::TorError("Tor data dir "@ + data_directory + " exists as file"@))
    } else {
        Ok(
            TorProcessView {
                steps: tor_steps(data_directory, probe, torrc_exists),
                command: CommandView {
                    program: tor_path,
                    args: seq!["-f"@, torrc_path(data_directory)],
                },
                torrc: torrc_path(data_directory),
            },
        )
    }
}

/// The error that a failure to start the daemon amounts to.
pub open spec fn tor_failure(cause: Seq<char>) -> ErrcodeView {
    ErrcodeView::TorError("Error while spawning tor: "@ + cause)
}

impl TorProcess {
    /// Plans the start of the daemon at `tor_path` with its data below
    /// `data_directory`. `probe` is what is at the data directory now, and
    /// `torrc_exists` whether it holds a configuration file. A relative
    /// data directory and one that is a regular file are refused.
    pub fn new(
        data_directory: &str,
        tor_path: &String,
        probe: DataDirProbe,
        torrc_exists: bool,
    ) -> (r: Result<TorProcess, Errcode>)
        ensures
            result_view(r) == tor_spec(data_directory@, tor_path@, probe, torrc_exists),
    {
        if data_directory.unicode_len() == 0 || data_directory.get_char(0) != '/' {
            return Err(
                Errcode::TorError(concat2("Data directory not absolute: ", data_directory)),
            );
        }
        let mut steps: Vec<Step> = Vec::new();
        match probe {
            DataDirProbe::Missing => {
                steps.push(
                    Step {
                        call: HostCall::CreateDirAll { path: String::from_str(data_directory) },
                        origin: Origin::TorDataDir,
                    },
                );
            },
            DataDirProbe::File => {
                return Err(
                    Errcode::TorError(concat3("Tor data dir ", data_directory, " exists as file")),
                );
            },
            DataDirProbe::Directory => {},
        }
        // Write the default configuration to file.
        let torrc = join_path(data_directory, "torrc");
        if !torrc_exists {
            steps.push(
                Step {
                    call: HostCall::WriteFile {
                        path: torrc.clone(),
                        contents: String::from_str(TORRC_CONTENTS),
                        create: true,
                    },
                    origin: Origin::TorConfig,
                },
            );
        }
        assert(steps.deep_view() =~= tor_steps(data_directory@, probe, torrc_exists));
        let mut args: Vec<String> = Vec::new();
        push_word(&mut args, "-f");
        push_word(&mut args, torrc.as_str());
        assert(args.deep_view() =~= seq!["-f"@, torrc_path(data_directory@)]);
        Ok(TorProcess { steps, command: Command { program: tor_path.clone(), args }, torrc })
    }

    /// Reports that the daemon could not be started.
    pub fn spawn_failed(cause: &str) -> (e: Errcode)
        ensures
            e.deep_view() == tor_failure(cause@),
    {
        Errcode::TorError(concat2("Error while spawning tor: ", cause))
    }
}

} // verus!
