//! The network helper, a companion process that attaches user-mode
//! networking to the contained process.

use vstd::prelude::*;
use crate::errors::{Errcode, ErrcodeView};
use crate::host::{Command, CommandView};
use crate::text::{concat2, format_i32, push_word, signed_decimal};

verus! {

/// The network helper of one container: how it is started, and for which
/// contained process.
#[derive(Clone, Debug, PartialEq, Eq)]
pub struct SlirpProcess {
    /// The invocation that starts the helper.
    pub command: Command,
    /// The contained process that the helper serves.
    pub pid: i32,
}

/// The mathematical value of a [`SlirpProcess`].
pub struct SlirpProcessView {
    pub command: CommandView,
    pub pid: i32,
}

impl DeepView for SlirpProcess {
    type V = SlirpProcessView;

    open spec fn deep_view(&self) -> SlirpProcessView {
        SlirpProcessView { command: self.command.deep_view(), pid: self.pid }
    }
}

/// The invocation of the helper at `slirp_path` for the contained process
/// `pid`: configure the interface `tap0` in the namespace of that process,
/// with the largest MTU and without access to the host's loopback.
pub open spec fn slirp_command(pid: i32, slirp_path: Seq<char>) -> CommandView {
    CommandView {
        program: slirp_path,
        args: seq![
            "--configure"@,
            "--mtu=65520"@,
            "--disable-host-loopback"@,
            signed_decimal(pid as int),
            "tap0"@,
        ],
    }
}

/// The error that a failure to start the helper amounts to.
pub open spec fn slirp_failure(cause: Seq<char>) -> ErrcodeView {
    ErrcodeView::SlirpError("Error while spawning slirp: "@ + cause)
}

impl SlirpProcess {
    /// Plans the start of the helper for the contained process `pid`. The
    /// helper is told the numeric identifier of the process, which is all
    /// that ties the two together.
    pub fn new(pid: i32, slirp_path: &String) -> (process: SlirpProcess)
        ensures
            process.deep_view() == (SlirpProcessView {
                command: slirp_command(pid, slirp_path@),
                pid,
            }),
    {
        let pid_str = format_i32(pid);
        let mut args: Vec<String> = Vec::new();
        push_word(&mut args, "--configure");
        push_word(&mut args, "--mtu=65520");
        push_word(&mut args, "--disable-host-loopback");
        push_word(&mut args, pid_str.as_str());
        push_word(&mut args, "tap0");
        assert(args.deep_view() =~= slirp_command(pid, slirp_path@).args);
        SlirpProcess { command: Command { program: slirp_path.clone(), args }, pid }
    }

    /// Reports that the helper could not be started.
    pub fn spawn_failed(cause: &str) -> (e: Errcode)
        ensures
            e.deep_view() == slirp_failure(cause@),
    {
        Errcode::SlirpError(concat2("Error while spawning slirp: ", cause))
    }
}

} // verus!
