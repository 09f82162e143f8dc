//! The configuration of one container, fixed once it is built.

use vstd::prelude::*;
use crate::errors::{result_view, Errcode, ErrcodeView};
use crate::hostname::{generate_hostname, is_generated_hostname};
use crate::mountpoint::binds_confined;
use crate::slirp::{slirp_command, SlirpProcess, SlirpProcessView};
use crate::text::{
    check_confined, check_path_component, contains_char, is_confined, is_path_component,
    split_ascii_whitespace, words,
};
use crate::tor::{tor_spec, DataDirProbe, TorProcess, TorProcessView};

verus! {

/// Where the proxy daemon keeps its data and its configuration.
pub const TOR_DATA_DIRECTORY: &'static str = "/tmp/tor";

/// The configuration of one container.
#[derive(Clone, Debug, PartialEq, Eq)]
pub struct ContainerOpts {
    /// The program to run in the container.
    pub path: String,
    /// The argument vector of the program, the program's name first.
    pub argv: Vec<String>,
    /// The user and group id that the program runs under in the container.
    pub uid: u32,
    /// The host user that the container's user stands for.
    pub real_uid: u32,
    /// The host group that the container's group stands for.
    pub real_gid: u32,
    /// The directory to use as the container's root; without one the
    /// container shares the host's root.
    pub mount_dir: Option<String>,
    pub hostname: String,
    /// The name of the network namespace.
    pub namespace: String,
    /// The extra binds: a host path, and the path relative to the
    /// container's root where it appears.
    pub addpaths: Vec<(String, String)>,
    pub slirp_path: String,
    pub slirp_process: Option<SlirpProcess>,
    pub tor_path: String,
    pub tor_process: Option<TorProcess>,
    /// Run the container without a syscall filter.
    pub disable_syscall: bool,
    /// Run the container with all capabilities it inherits.
    pub disable_capabilities: bool,
}

/// The mathematical value of a [`ContainerOpts`].
pub struct ContainerOptsView {
    pub path: Seq<char>,
    pub argv: Seq<Seq<char>>,
    pub uid: u32,
    pub real_uid: u32,
    pub real_gid: u32,
    pub mount_dir: Option<Seq<char>>,
    pub hostname: Seq<char>,
    pub namespace: Seq<char>,
    pub addpaths: Seq<(Seq<char>, Seq<char>)>,
    pub slirp_path: Seq<char>,
    pub slirp_process: Option<SlirpProcessView>,
    pub tor_path: Seq<char>,
    pub tor_process: Option<TorProcessView>,
    pub disable_syscall: bool,
    pub disable_capabilities: bool,
}

impl DeepView for ContainerOpts {
    type V = ContainerOptsView;

    open spec fn deep_view(&self) -> ContainerOptsView {
        ContainerOptsView {
            path: self.path@,
            argv: self.argv.deep_view(),
            uid: self.uid,
            real_uid: self.real_uid,
            real_gid: self.real_gid,
            mount_dir: self.mount_dir.deep_view(),
            hostname: self.hostname@,
            namespace: self.namespace@,
            addpaths: self.addpaths.deep_view(),
            slirp_path: self.slirp_path@,
            slirp_process: self.slirp_process.deep_view(),
            tor_path: self.tor_path@,
            tor_process: self.tor_process.deep_view(),
            disable_syscall: self.disable_syscall,
            disable_capabilities: self.disable_capabilities,
        }
    }
}

impl ContainerOptsView {
    /// The invariant of a configuration: there is a program to run, and it
    /// is the first argument; every extra bind lands inside the new root;
    /// the namespace name is one component of a path.
    pub open spec fn wf(self) -> bool {
        &&& self.argv.len() > 0
        &&& self.path == self.argv[0]
        &&& binds_confined(self.addpaths)
        &&& is_path_component(self.namespace)
    }
}

/// What `ContainerOpts::new` builds, but for the host name, which is
/// drawn at random: the arguments are the words of `command`; a command
/// without a word or with a NUL in it, a namespace name that is no path
/// component, and a bind that could climb out of the new root are refused,
/// in this order.
pub open spec fn opts_spec(
    command: Seq<char>,
    uid: u32,
    real_uid: u32,
    real_gid: u32,
    mount_dir: Option<Seq<char>>,
    namespace: Seq<char>,
    addpaths: Seq<(Seq<char>, Seq<char>)>,
    tor_path: Seq<char>,
    slirp_path: Seq<char>,
    disable_syscall: bool,
    disable_capabilities: bool,
    hostname: Seq<char>,
) -> Result<ContainerOptsView, ErrcodeView> {
    if words(command).len() == 0 || command.contains('\0') {
        Err(ErrcodeView::ArgumentInvalid("command"@))
    } else if !is_path_component(namespace) {
        Err(ErrcodeView::ArgumentInvalid("namespace"@))
    } else if !binds_confined(addpaths) {
        Err(ErrcodeView::ArgumentInvalid("add"@))
    } else {
        Ok(
            ContainerOptsView {
                path: words(command)[0],
                argv: words(command),
                uid,
                real_uid,
                real_gid,
                mount_dir,
                hostname,
                namespace,
                addpaths,
                slirp_path,
                slirp_process: None,
                tor_path,
                tor_process: None,
                disable_syscall,
                disable_capabilities,
            },
        )
    }
}

fn check_binds(addpaths: &Vec<(String, String)>) -> (b: bool)
    ensures
        b == binds_confined(addpaths.deep_view()),
{
    let mut i: usize = 0;
    while i < addpaths.len()
        invariant
            i <= addpaths.len(),
            forall|j: int| 0 <= j < i ==> is_confined(#[trigger] addpaths.deep_view()[j].1),
        decreases addpaths.len() - i,
    {
        if !check_confined(addpaths[i].1.as_str()) {
            assert(!is_confined(addpaths.deep_view()[i as int].1));
            return false;
        }
        assert(addpaths.deep_view()[i as int].1 == addpaths[i as int].1@);
        i += 1;
    }
    true
}

impl ContainerOpts {
    /// Builds the configuration of a container from validated arguments,
    /// with a fresh host name.
    pub fn new(
        command: String,
        uid: u32,
        real_uid: u32,
        real_gid: u32,
        mount_dir: Option<String>,
        namespace: String,
        addpaths: Vec<(String, String)>,
        tor_path: String,
        slirp_path: String,
        disable_syscall: bool,
        disable_capabilities: bool,
    ) -> (r: Result<ContainerOpts, Errcode>)
        ensures
            match r {
                Ok(opts) => {
                    &&& is_generated_hostname(opts.hostname@)
                    &&& opts.deep_view().wf()
                    &&& Ok::<ContainerOptsView, ErrcodeView>(opts.deep_view()) == opts_spec(
                        command@,
                        uid,
                        real_uid,
                        real_gid,
                        mount_dir.deep_view(),
                        namespace@,
                        addpaths.deep_view(),
                        tor_path@,
                        slirp_path@,
                        disable_syscall,
                        disable_capabilities,
                        opts.hostname@,
                    )
                },
                Err(e) => Err::<ContainerOptsView, ErrcodeView>(e.deep_view()) == opts_spec(
                    command@,
                    uid,
                    real_uid,
                    real_gid,
                    mount_dir.deep_view(),
                    namespace@,
                    addpaths.deep_view(),
                    tor_path@,
                    slirp_path@,
                    disable_syscall,
                    disable_capabilities,
                    Seq::empty(),
                ),
            },
    {
        let hostname = match generate_hostname() {
            Ok(name) => name,
            Err(e) => {
                // A host name can always be generated.
                return Err(e);
            },
        };
        ContainerOpts::with_hostname(
            command,
            uid,
            real_uid,
            real_gid,
            mount_dir,
            namespace,
            addpaths,
            tor_path,
            slirp_path,
            disable_syscall,
            disable_capabilities,
            hostname,
        )
    }

    /// Builds the configuration of a container from validated arguments
    /// and a given host name.
    pub fn with_hostname(
        command: String,
        uid: u32,
        real_uid: u32,
        real_gid: u32,
        mount_dir: Option<String>,
        namespace: String,
        addpaths: Vec<(String, String)>,
        tor_path: String,
        slirp_path: String,
        disable_syscall: bool,
        disable_capabilities: bool,
        hostname: String,
    ) -> (r: Result<ContainerOpts, Errcode>)
        ensures
            result_view(r) == opts_spec(
                command@,
                uid,
                real_uid,
                real_gid,
                mount_dir.deep_view(),
                namespace@,
                addpaths.deep_view(),
                tor_path@,
                slirp_path@,
                disable_syscall,
                disable_capabilities,
                hostname@,
            ),
            r matches Ok(opts) ==> opts.deep_view().wf(),
    {
        let argv = split_ascii_whitespace(command.as_str());
        if argv.len() == 0 || contains_char(command.as_str(), '\0') {
            return Err(Errcode::ArgumentInvalid("command"));
        }
        if !check_path_component(namespace.as_str()) {
            return Err(Errcode::ArgumentInvalid("namespace"));
        }
        if !check_binds(&addpaths) {
            return Err(Errcode::ArgumentInvalid("add"));
        }
        let path = argv[0].clone();
        Ok(
            ContainerOpts {
                path,
                argv,
                uid,
                real_uid,
                real_gid,
                mount_dir,
                namespace,
                hostname,
                addpaths,
                slirp_path,
                slirp_process: None,
                tor_path,
                tor_process: None,
                disable_syscall,
                disable_capabilities,
            },
        )
    }

    /// Plans the network helper for the contained process `pid` and
    /// records it as this container's.
    pub fn spawn_slirp(&mut self, pid: i32)
        ensures
            final(self).deep_view() == (ContainerOptsView {
                slirp_process: Some(
                    SlirpProcessView { command: slirp_command(pid, old(self).slirp_path@), pid },
                ),
                ..old(self).deep_view()
            }),
    {
        self.slirp_process = Some(SlirpProcess::new(pid, &self.slirp_path));
    }

    /// Plans the proxy daemon and records it as this container's. `probe`
    /// and `torrc_exists` say what is at the daemon's data directory now.
    /// Where the daemon cannot be planned the configuration stays as it
    /// was.
    pub fn spawn_tor(&mut self, probe: DataDirProbe, torrc_exists: bool) -> (r: Result<(), Errcode>)
        ensures
            match tor_spec(TOR_DATA_DIRECTORY@, old(self).tor_path@, probe, torrc_exists) {
                Ok(process) => r is Ok && final(self).deep_view() == (ContainerOptsView {
                    tor_process: Some(process),
                    ..old(self).deep_view()
                }),
                Err(e) => r matches Err(err) && err.deep_view() == e && final(self).deep_view()
                    == old(self).deep_view(),
            },
    {
        match TorProcess::new(TOR_DATA_DIRECTORY, &self.tor_path, probe, torrc_exists) {
            Ok(process) => {
                self.tor_process = Some(process);
                Ok(())
            },
            Err(e) => Err(e),
        }
    }
}

} // verus!
