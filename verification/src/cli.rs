//! The command surface: the parsed arguments, and their validation.

use vstd::prelude::*;
use crate::errors::{Errcode, ErrcodeView};

verus! {

/// The arguments of one run, as the command line gave them.
#[derive(Clone, Debug, PartialEq, Eq)]
pub struct Args {
    /// Log at debug level.
    pub debug: bool,
    /// Command to execute inside the container.
    pub command: String,
    /// User id to create inside the container.
    pub uid: u32,
    /// Host user id to map inside the container.
    pub real_uid: u32,
    /// Host group id to map inside the container.
    pub real_gid: u32,
    /// Extra bind mounts, each written `host_path:container_path`.
    pub addpaths: Vec<String>,
    /// Directory to mount as root of the container; empty for none.
    pub mount_dir: String,
    /// Name of the network namespace to create.
    pub namespace: String,
    /// Path of the proxy daemon's binary; empty to look it up.
    pub tor: String,
    /// Path of the network helper's binary; empty to look it up.
    pub slirp4netns: String,
    /// Disable syscall filtering.
    pub disable_syscall: bool,
    /// Disable capabilities drop.
    pub disable_capabilities: bool,
}

/// The mathematical value of [`Args`].
pub struct ArgsView {
    pub debug: bool,
    pub command: Seq<char>,
    pub uid: u32,
    pub real_uid: u32,
    pub real_gid: u32,
    pub addpaths: Seq<Seq<char>>,
    pub mount_dir: Seq<char>,
    pub namespace: Seq<char>,
    pub tor: Seq<char>,
    pub slirp4netns: Seq<char>,
    pub disable_syscall: bool,
    pub disable_capabilities: bool,
}

impl DeepView for Args {
    type V = ArgsView;

    open spec fn deep_view(&self) -> ArgsView {
        ArgsView {
            debug: self.debug,
            command: self.command@,
            uid: self.uid,
            real_uid: self.real_uid,
            real_gid: self.real_gid,
            addpaths: self.addpaths.deep_view(),
            mount_dir: self.mount_dir@,
            namespace: self.namespace@,
            tor: self.tor@,
            slirp4netns: self.slirp4netns@,
            disable_syscall: self.disable_syscall,
            disable_capabilities: self.disable_capabilities,
        }
    }
}

/// Validates parsed arguments: a run needs a command. Valid arguments are
/// handed back unchanged.
pub fn parse_args(args: Args) -> (r: Result<Args, Errcode>)
    ensures
        args.command@.len() == 0 ==> (r matches Err(e) && e.deep_view()
            == ErrcodeView::ArgumentInvalid("command"@)),
        args.command@.len() != 0 ==> r == Ok::<Args, Errcode>(args),
{
    if args.command.as_str().unicode_len() == 0 {
        return Err(Errcode::ArgumentInvalid("command"));
    }
    Ok(args)
}

} // verus!
