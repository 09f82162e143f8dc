//! The error taxonomy of the runtime, by origin, and the exit status that
//! each outcome maps to.

use vstd::prelude::*;
use crate::text::{decimal, push_decimal};

verus! {

/// Why a run failed. Each variant names the component the failure came from
/// and carries its cause.
#[derive(Debug, Clone, PartialEq, Eq)]
pub enum Errcode {
    ArgumentInvalid(&'static str),
    Capabilities(String),
    ContainerError(String),
    ChildProcessError(u8),
    HostnameError(u8),
    MountsError(String),
    NamespacesError(String),
    NetworkError(String),
    NotSupported(u8),
    ResourcesError(String),
    SlirpError(String),
    SocketError(String),
    SyscallsError(String),
    TorError(String),
}

/// The mathematical value of an [`Errcode`]: the same variants, with each
/// text as a sequence of characters.
pub enum ErrcodeView {
    ArgumentInvalid(Seq<char>),
    Capabilities(Seq<char>),
    ContainerError(Seq<char>),
    ChildProcessError(u8),
    HostnameError(u8),
    MountsError(Seq<char>),
    NamespacesError(Seq<char>),
    NetworkError(Seq<char>),
    NotSupported(u8),
    ResourcesError(Seq<char>),
    SlirpError(Seq<char>),
    SocketError(Seq<char>),
    SyscallsError(Seq<char>),
    TorError(Seq<char>),
}

impl ErrcodeView {
    /// The human-readable text of the error.
    pub open spec fn message(self) -> Seq<char> {
        match self {
            ErrcodeView::ArgumentInvalid(name) => "argument "@ + name + " is not valid"@,
            ErrcodeView::Capabilities(cause) => "Error in setting capabilities "@ + cause,
            ErrcodeView::ContainerError(cause) => "Error in container creation "@ + cause,
            ErrcodeView::ChildProcessError(n) => "Error in child creation "@ + decimal(n as nat),
            ErrcodeView::HostnameError(n) => "Error while setting hostname "@ + decimal(n as nat),
            ErrcodeView::MountsError(cause) => "Error while mounting container fs "@ + cause,
            ErrcodeView::NamespacesError(cause) => "Error in namespace creation "@ + cause,
            ErrcodeView::NetworkError(cause) => "Error in network creation: "@ + cause,
            ErrcodeView::NotSupported(_) => "Functionality not supported"@,
            ErrcodeView::ResourcesError(cause) => "Not possible to define cgroups: "@ + cause,
            ErrcodeView::SlirpError(cause) => "Error in Slirp Process creation: "@ + cause,
            ErrcodeView::SocketError(cause) => "Error in IPC socket communication: "@ + cause,
            ErrcodeView::SyscallsError(cause) => "Unable to define container syscalls: "@ + cause,
            ErrcodeView::TorError(cause) => "Error with tor instance "@ + cause,
        }
    }
}

impl DeepView for Errcode {
    type V = ErrcodeView;

    open spec fn deep_view(&self) -> ErrcodeView {
        match self {
            Errcode::ArgumentInvalid(name) => ErrcodeView::ArgumentInvalid(name@),
            Errcode::Capabilities(cause) => ErrcodeView::Capabilities(cause@),
            Errcode::ContainerError(cause) => ErrcodeView::ContainerError(cause@),
            Errcode::ChildProcessError(n) => ErrcodeView::ChildProcessError(*n),
            Errcode::HostnameError(n) => ErrcodeView::HostnameError(*n),
            Errcode::MountsError(cause) => ErrcodeView::MountsError(cause@),
            Errcode::NamespacesError(cause) => ErrcodeView::NamespacesError(cause@),
            Errcode::NetworkError(cause) => ErrcodeView::NetworkError(cause@),
            Errcode::NotSupported(n) => ErrcodeView::NotSupported(*n),
            Errcode::ResourcesError(cause) => ErrcodeView::ResourcesError(cause@),
            Errcode::SlirpError(cause) => ErrcodeView::SlirpError(cause@),
            Errcode::SocketError(cause) => ErrcodeView::SocketError(cause@),
            Errcode::SyscallsError(cause) => ErrcodeView::SyscallsError(cause@),
            Errcode::TorError(cause) => ErrcodeView::TorError(cause@),
        }
    }
}

/// The mathematical value of a fallible result: the value's own where it
/// succeeded, the error's where it failed.
pub open spec fn result_view<T: DeepView>(r: Result<T, Errcode>) -> Result<T::V, ErrcodeView> {
    match r {
        Ok(value) => Ok(value.deep_view()),
        Err(e) => Err(e.deep_view()),
    }
}

impl Errcode {

    /// The process exit status for this error. Callers distinguish only
    /// "error" from "no error", so every variant maps to 1.
    pub fn get_retcode(&self) -> (code: i32)
        ensures
            code == 1,
    {
        1
    }

    /// A copy of the error.
    pub fn duplicate(&self) -> (copy: Errcode)
        ensures
            copy.deep_view() == self.deep_view(),
    {
        match self {
            Errcode::ArgumentInvalid(name) => Errcode::ArgumentInvalid(name),
            Errcode::Capabilities(cause) => Errcode::Capabilities(cause.clone()),
            Errcode::ContainerError(cause) => Errcode::ContainerError(cause.clone()),
            Errcode::ChildProcessError(n) => Errcode::ChildProcessError(*n),
            Errcode::HostnameError(n) => Errcode::HostnameError(*n),
            Errcode::MountsError(cause) => Errcode::MountsError(cause.clone()),
            Errcode::NamespacesError(cause) => Errcode::NamespacesError(cause.clone()),
            Errcode::NetworkError(cause) => Errcode::NetworkError(cause.clone()),
            Errcode::NotSupported(n) => Errcode::NotSupported(*n),
            Errcode::ResourcesError(cause) => Errcode::ResourcesError(cause.clone()),
            Errcode::SlirpError(cause) => Errcode::SlirpError(cause.clone()),
            Errcode::SocketError(cause) => Errcode::SocketError(cause.clone()),
            Errcode::SyscallsError(cause) => Errcode::SyscallsError(cause.clone()),
            Errcode::TorError(cause) => Errcode::TorError(cause.clone()),
        }
    }

    /// Renders the error as text.
    pub fn to_string(&self) -> (s: String)
        ensures
            s@ == self.deep_view().message(),
    {
        match self {
            Errcode::ArgumentInvalid(name) => {
                let mut s = String::from_str("argument ");
                s.append(name);
                s.append(" is not valid");
                s
            },
            Errcode::Capabilities(cause) => prefixed("Error in setting capabilities ", cause),
            Errcode::ContainerError(cause) => prefixed("Error in container creation ", cause),
            Errcode::ChildProcessError(n) => {
                let mut s = String::from_str("Error in child creation ");
                push_decimal(&mut s, *n as u64);
                s
            },
            Errcode::HostnameError(n) => {
                let mut s = String::from_str("Error while setting hostname ");
                push_decimal(&mut s, *n as u64);
                s
            },
            Errcode::MountsError(cause) => prefixed("Error while mounting container fs ", cause),
            Errcode::NamespacesError(cause) => prefixed("Error in namespace creation ", cause),
            Errcode::NetworkError(cause) => prefixed("Error in network creation: ", cause),
            Errcode::NotSupported(_) => String::from_str("Functionality not supported"),
            Errcode::ResourcesError(cause) => prefixed("Not possible to define cgroups: ", cause),
            Errcode::SlirpError(cause) => prefixed("Error in Slirp Process creation: ", cause),
            Errcode::SocketError(cause) => prefixed("Error in IPC socket communication: ", cause),
            Errcode::SyscallsError(cause) => prefixed(
                "Unable to define container syscalls: ",
                cause,
            ),
            Errcode::TorError(cause) => prefixed("Error with tor instance ", cause),
        }
    }
}

fn prefixed(prefix: &str, cause: &String) -> (s: String)
    ensures
        s@ == prefix@ + cause@,
{
    let mut s = String::from_str(prefix);
    s.append(cause.as_str());
    s
}

/// The exit status of a whole run: 0 on success, the error's status
/// otherwise.
pub fn exit_with_retcode(res: Result<(), Errcode>) -> (code: i32)
    ensures
        code == (if res is Ok { 0int } else { 1int }),
{
    match res {
        Ok(_) => 0,
        Err(e) => e.get_retcode(),
    }
}

/// The exit status of a run that ended with `res`.
pub fn exit_with_errcode(res: Errcode) -> (code: i32)
    ensures
        code == 1,
{
    res.get_retcode()
}

} // verus!
