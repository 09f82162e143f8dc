//! The syscall half of the privilege reducer: the rules of the filter that
//! a container runs under, and what they mean for a system call.

use vstd::prelude::*;
use crate::errors::{Errcode, ErrcodeView};
use crate::text::{concat4, format_i32, signed_decimal};

verus! {

/// A system call that the filter has a rule for.
#[derive(Clone, Copy, Debug, PartialEq, Eq, Structural)]
pub enum Syscall {
    Keyctl,
    AddKey,
    RequestKey,
    Mbind,
    MigratePages,
    MovePages,
    SetMempolicy,
    Userfaultfd,
    PerfEventOpen,
    Chmod,
    Fchmod,
    Fchmodat,
    Unshare,
    Clone,
    Ioctl,
    /// Any system call that the filter has no rule for.
    Other,
}

/// A test on one argument of a system call: it holds when every bit of
/// `bits` is set in the argument at `index`. This is a masked equality,
/// not an ordering.
#[derive(Clone, Copy, Debug, PartialEq, Eq, Structural)]
pub struct ArgCheck {
    pub index: u32,
    pub bits: u64,
}

/// One rule of the filter: refuse `syscall`, always or when `check` holds.
#[derive(Clone, Copy, Debug, PartialEq, Eq)]
pub struct SyscallRule {
    pub syscall: Syscall,
    pub check: Option<ArgCheck>,
}

/// What the filter does with a system call.
#[derive(Clone, Copy, Debug, PartialEq, Eq, Structural)]
pub enum Verdict {
    /// The call goes through.
    Allow,
    /// The call fails with this error number.
    Errno(u16),
}

/// The error number of a refused call: operation not permitted.
pub const EPERM: u16 = 1;

/// The set-user-ID bit of a file mode.
pub const S_ISUID: u64 = 0o4000;

/// The set-group-ID bit of a file mode.
pub const S_ISGID: u64 = 0o2000;

/// The flag with which `clone` and `unshare` ask for a new user namespace.
pub const CLONE_NEWUSER: u64 = 0x1000_0000;

/// `nix::sys::stat::Mode::S_ISUID`, which is libc's `S_ISUID`.
#[verifier::external_body]
fn setuid_bit() -> (bits: u64)
    ensures
        bits == S_ISUID,
{
    nix::sys::stat::Mode::S_ISUID.bits().into()
}

/// `nix::sys::stat::Mode::S_ISGID`, which is libc's `S_ISGID`.
#[verifier::external_body]
fn setgid_bit() -> (bits: u64)
    ensures
        bits == S_ISGID,
{
    nix::sys::stat::Mode::S_ISGID.bits().into()
}

/// `nix::sched::CloneFlags::CLONE_NEWUSER`, which is libc's
/// `CLONE_NEWUSER` on Linux.
#[verifier::external_body]
fn new_user_flag() -> (bits: u64)
    ensures
        bits == CLONE_NEWUSER,
{
    nix::sched::CloneFlags::CLONE_NEWUSER.bits() as u64
}

/// `libc::TIOCSTI`, the request code with which `ioctl` pushes input into
/// a terminal. Its value differs between architectures and is left open.
#[verifier::external_body]
fn terminal_stuffing_request() -> (code: u64) {
    libc::TIOCSTI as u64
}

/// The rule that refuses `syscall` whatever its arguments.
pub open spec fn refuse(syscall: Syscall) -> SyscallRule {
    SyscallRule { syscall, check: None }
}

/// The rule that refuses `syscall` when every bit of `bits` is set in its
/// argument at `index`.
pub open spec fn refuse_if(syscall: Syscall, index: u32, bits: u64) -> SyscallRule {
    SyscallRule { syscall, check: Some(ArgCheck { index, bits }) }
}

/// The rules of the filter, in the order in which they are installed.
/// `tiocsti` is the host's request code for pushing input into a terminal.
pub open spec fn syscall_rules(tiocsti: u64) -> Seq<SyscallRule> {
    seq![
        refuse(Syscall::Keyctl),
        refuse(Syscall::AddKey),
        refuse(Syscall::RequestKey),
        refuse(Syscall::Mbind),
        refuse(Syscall::MigratePages),
        refuse(Syscall::MovePages),
        refuse(Syscall::SetMempolicy),
        refuse(Syscall::Userfaultfd),
        refuse(Syscall::PerfEventOpen),
        refuse_if(Syscall::Chmod, 1, S_ISUID),
        refuse_if(Syscall::Chmod, 1, S_ISGID),
        refuse_if(Syscall::Fchmod, 1, S_ISUID),
        refuse_if(Syscall::Fchmod, 1, S_ISGID),
        refuse_if(Syscall::Fchmodat, 2, S_ISUID),
        refuse_if(Syscall::Fchmodat, 2, S_ISGID),
        refuse_if(Syscall::Unshare, 0, CLONE_NEWUSER),
        refuse_if(Syscall::Clone, 0, CLONE_NEWUSER),
        refuse_if(Syscall::Ioctl, 1, tiocsti),
    ]
}

/// Whether every bit of `bits` is set in `arg`.
pub open spec fn has_bits(arg: u64, bits: u64) -> bool {
    arg & bits == bits
}

impl SyscallRule {
    /// Whether the rule applies to a call of `syscall` with the arguments
    /// `args`.
    pub open spec fn applies(self, syscall: Syscall, args: Seq<u64>) -> bool {
        &&& self.syscall == syscall
        &&& match self.check {
            None => true,
            Some(check) => check.index < args.len() && has_bits(
                args[check.index as int],
                check.bits,
            ),
        }
    }
}

/// Whether some rule of `rules` applies to the call.
pub open spec fn refused_by(rules: Seq<SyscallRule>, syscall: Syscall, args: Seq<u64>) -> bool {
    exists|i: int| 0 <= i < rules.len() && (#[trigger] rules[i]).applies(syscall, args)
}

/// What a filter made of `rules` does with the call: a call that a rule
/// applies to fails for want of permission, every other call is allowed.
pub open spec fn verdict(rules: Seq<SyscallRule>, syscall: Syscall, args: Seq<u64>) -> Verdict {
    if refused_by(rules, syscall, args) {
        Verdict::Errno(EPERM)
    } else {
        Verdict::Allow
    }
}

/// What the filter is meant to refuse: key management, memory policy
/// and migration, user-space page-fault handling and performance events
/// always; a change of mode that sets the set-user-ID or set-group-ID bit;
/// a new user namespace; input pushed into a terminal.
pub open spec fn refused(syscall: Syscall, args: Seq<u64>, tiocsti: u64) -> bool {
    match syscall {
        Syscall::Keyctl
        | Syscall::AddKey
        | Syscall::RequestKey
        | Syscall::Mbind
        | Syscall::MigratePages
        | Syscall::MovePages
        | Syscall::SetMempolicy
        | Syscall::Userfaultfd
        | Syscall::PerfEventOpen => true,
        Syscall::Chmod | Syscall::Fchmod => has_bits(args[1], S_ISUID) || has_bits(
            args[1],
            S_ISGID,
        ),
        Syscall::Fchmodat => has_bits(args[2], S_ISUID) || has_bits(args[2], S_ISGID),
        Syscall::Unshare | Syscall::Clone => has_bits(args[0], CLONE_NEWUSER),
        Syscall::Ioctl => has_bits(args[1], tiocsti),
        Syscall::Other => false,
    }
}

/// The filter refuses exactly what it is meant to refuse. For every
/// system call with its six arguments, the rules of `syscall_rules` give
/// the permission error where `refused` holds and allow the call where it
/// does not: each call of the unconditional list fails, `chmod` with the
/// set-user-ID bit fails, `chmod` without that bit and without the
/// set-group-ID bit goes through.
pub proof fn lemma_filter_refuses(syscall: Syscall, args: Seq<u64>, tiocsti: u64)
    requires
        args.len() == 6,
    ensures
        verdict(syscall_rules(tiocsti), syscall, args) == (if refused(syscall, args, tiocsti) {
            Verdict::Errno(EPERM)
        } else {
            Verdict::Allow
        }),
{
    let rules = syscall_rules(tiocsti);
    if refused(syscall, args, tiocsti) {
        let witness: int = match syscall {
            Syscall::Keyctl => 0,
            Syscall::AddKey => 1,
            Syscall::RequestKey => 2,
            Syscall::Mbind => 3,
            Syscall::MigratePages => 4,
            Syscall::MovePages => 5,
            Syscall::SetMempolicy => 6,
            Syscall::Userfaultfd => 7,
            Syscall::PerfEventOpen => 8,
            Syscall::Chmod => if has_bits(args[1], S_ISUID) {
                9
            } else {
                10
            },
            Syscall::Fchmod => if has_bits(args[1], S_ISUID) {
                11
            } else {
                12
            },
            Syscall::Fchmodat => if has_bits(args[2], S_ISUID) {
                13
            } else {
                14
            },
            Syscall::Unshare => 15,
            Syscall::Clone => 16,
            Syscall::Ioctl => 17,
            Syscall::Other => 0,
        };
        assert(rules[witness].applies(syscall, args));
    } else {
        assert forall|i: int| 0 <= i < rules.len() implies !(#[trigger] rules[i]).applies(
            syscall,
            args,
        ) by {}
    }
}

/// Builds the rules of the filter for a host whose terminal-stuffing
/// request code is `tiocsti`.
pub fn filter_rules(tiocsti: u64) -> (rules: Vec<SyscallRule>)
    ensures
        rules@ == syscall_rules(tiocsti),
{
    let syscalls_refused = [
        Syscall::Keyctl,
        Syscall::AddKey,
        Syscall::RequestKey,
        Syscall::Mbind,
        Syscall::MigratePages,
        Syscall::MovePages,
        Syscall::SetMempolicy,
        Syscall::Userfaultfd,
        Syscall::PerfEventOpen,
    ];
    let s_isuid = setuid_bit();
    let s_isgid = setgid_bit();
    let clone_new_user = new_user_flag();
    let syscalls_refuse_ifcomp: [(Syscall, u32, u64); 9] = [
        (Syscall::Chmod, 1, s_isuid),
        (Syscall::Chmod, 1, s_isgid),
        (Syscall::Fchmod, 1, s_isuid),
        (Syscall::Fchmod, 1, s_isgid),
        (Syscall::Fchmodat, 2, s_isuid),
        (Syscall::Fchmodat, 2, s_isgid),
        (Syscall::Unshare, 0, clone_new_user),
        (Syscall::Clone, 0, clone_new_user),
        (Syscall::Ioctl, 1, tiocsti),
    ];
    let mut rules: Vec<SyscallRule> = Vec::new();
    let mut i: usize = 0;
    while i < 9
        invariant
            i <= 9,
            rules@.len() == i,
            forall|k: int| 0 <= k < i ==> rules@[k] == refuse(#[trigger] syscalls_refused@[k]),
        decreases 9 - i,
    {
        rules.push(SyscallRule { syscall: syscalls_refused[i], check: None });
        i += 1;
    }
    let mut j: usize = 0;
    while j < 9
        invariant
            j <= 9,
            rules@.len() == 9 + j,
            forall|k: int| 0 <= k < 9 ==> rules@[k] == refuse(#[trigger] syscalls_refused@[k]),
            forall|k: int|
                0 <= k < j ==> rules@[9 + k] == refuse_if(
                    (#[trigger] syscalls_refuse_ifcomp@[k]).0,
                    syscalls_refuse_ifcomp@[k].1,
                    syscalls_refuse_ifcomp@[k].2,
                ),
        decreases 9 - j,
    {
        let (sc, ind, biteq) = syscalls_refuse_ifcomp[j];
        rules.push(SyscallRule { syscall: sc, check: Some(ArgCheck { index: ind, bits: biteq }) });
        j += 1;
    }
    proof {
        let spec_rules = syscall_rules(tiocsti);
        assert forall|k: int| 0 <= k < 18 implies rules@[k] == spec_rules[k] by {
            if k < 9 {
                assert(rules@[k] == refuse(syscalls_refused@[k]));
            } else {
                assert(rules@[9 + (k - 9)] == refuse_if(
                    syscalls_refuse_ifcomp@[k - 9].0,
                    syscalls_refuse_ifcomp@[k - 9].1,
                    syscalls_refuse_ifcomp@[k - 9].2,
                ));
            }
        }
        assert(rules@ =~= spec_rules);
    }
    rules
}

/// The rules of the filter for this host: a default-allow filter that
/// refuses what `refused` describes, with the host's own request code for
/// pushing input into a terminal.
pub fn setsyscalls() -> (rules: Vec<SyscallRule>)
    ensures
        exists|tiocsti: u64| rules@ == #[trigger] syscall_rules(tiocsti),
{
    let tiocsti = terminal_stuffing_request();
    let rules = filter_rules(tiocsti);
    assert(rules@ == syscall_rules(tiocsti));
    rules
}

/// Evaluates a filter on one system call, as the kernel does once the
/// filter is loaded.
pub fn filter_verdict(rules: &Vec<SyscallRule>, syscall: Syscall, args: &[u64; 6]) -> (v: Verdict)
    ensures
        v == verdict(rules@, syscall, args@),
{
    let mut i: usize = 0;
    while i < rules.len()
        invariant
            i <= rules.len(),
            args@.len() == 6,
            forall|k: int| 0 <= k < i ==> !(#[trigger] rules@[k]).applies(syscall, args@),
        decreases rules.len() - i,
    {
        let rule = rules[i];
        if rule.syscall == syscall {
            let hit = match rule.check {
                None => true,
                Some(check) => check.index < 6 && args[check.index as usize] & check.bits
                    == check.bits,
            };
            if hit {
                assert(rules@[i as int].applies(syscall, args@));
                return Verdict::Errno(EPERM);
            }
        }
        i += 1;
    }
    Verdict::Allow
}

/// Where installing the filter can fail.
#[derive(Clone, Debug, PartialEq, Eq)]
pub enum FilterFailure {
    /// The filter could not be created.
    Init,
    /// The rule could not be added. `number` is the number of the rule's
    /// system call on the host.
    Rule { rule: SyscallRule, number: i32, cause: String },
    /// The finished filter could not be loaded.
    Load { cause: String },
}

/// The error that a failure to install the filter amounts to.
pub open spec fn filter_error(
    failure: FilterFailure,
) -> ErrcodeView {
    match failure {
        FilterFailure::Init => ErrcodeView::SyscallsError(
            "Error during syscall filter context init"@,
        ),
        FilterFailure::Rule { rule, number, cause } => ErrcodeView::SyscallsError(
            if rule.check is None {
                "Set action EPERM for syscall "@ + signed_decimal(number as int)
                    + " returned error "@ + cause@
            } else {
                "Syscall comparator returned error "@ + cause@ + " for syscall "@ + signed_decimal(
                    number as int,
                )
            },
        ),
        FilterFailure::Load { cause } => ErrcodeView::SyscallsError(
            "Error during syscall filter context load: "@ + cause@,
        ),
    }
}

/// Reports a failure to install the filter. Every such failure is fatal:
/// a container that was asked to be filtered does not run unfiltered.
pub fn refuse_syscall(failure: &FilterFailure) -> (e: Errcode)
    ensures
        e.deep_view() == filter_error(*failure),
{
    match failure {
        FilterFailure::Init => Errcode::SyscallsError(
            String::from_str("Error during syscall filter context init"),
        ),
        FilterFailure::Rule { rule, number, cause } => {
            let n = format_i32(*number);
            match rule.check {
                None => Errcode::SyscallsError(
                    concat4(
                        "Set action EPERM for syscall ",
                        n.as_str(),
                        " returned error ",
                        cause.as_str(),
                    ),
                ),
                Some(_) => Errcode::SyscallsError(
                    concat4(
                        "Syscall comparator returned error ",
                        cause.as_str(),
                        " for syscall ",
                        n.as_str(),
                    ),
                ),
            }
        },
        FilterFailure::Load { cause } => Errcode::SyscallsError(
            crate::text::concat2("Error during syscall filter context load: ", cause.as_str()),
        ),
    }
}

} // verus!
