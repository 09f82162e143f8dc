//! The capability half of the privilege reducer: which capabilities a
//! container loses, and the capability sets that are left.

use vstd::prelude::*;
use capctl::caps::{Cap, CapSet};
use crate::errors::{Errcode, ErrcodeView};
use crate::text::concat2;

verus! {

/// `capctl::caps::CapSet`, a set of Linux capabilities.
#[verifier::external_type_specification]
#[verifier::external_body]
pub struct ExCapSet(CapSet);

/// The capabilities that a `CapSet` holds, each by its number in the
/// kernel's interface (`CAP_CHOWN` is 0, `CAP_SYS_ADMIN` is 21).
pub uninterp spec fn capset_caps(set: CapSet) -> Set<u8>;

/// Bypass permission checks on files.
pub const CAP_DAC_OVERRIDE: u8 = 1;

/// Bypass permission checks on reading files and searching directories.
pub const CAP_DAC_READ_SEARCH: u8 = 2;

/// Keep the set-user-ID and set-group-ID bits of a file that is modified.
pub const CAP_FSETID: u8 = 4;

/// Lock memory.
pub const CAP_IPC_LOCK: u8 = 14;

/// Load and unload kernel modules.
pub const CAP_SYS_MODULE: u8 = 16;

/// Perform raw I/O on ports and devices.
pub const CAP_SYS_RAWIO: u8 = 17;

/// Administer the system, from mounting to setting the host name.
pub const CAP_SYS_ADMIN: u8 = 21;

/// Reboot, and load a new kernel.
pub const CAP_SYS_BOOT: u8 = 22;

/// Raise priorities and set scheduling policies.
pub const CAP_SYS_NICE: u8 = 23;

/// Override resource limits.
pub const CAP_SYS_RESOURCE: u8 = 24;

/// Set the clocks.
pub const CAP_SYS_TIME: u8 = 25;

/// Create device files.
pub const CAP_MKNOD: u8 = 27;

/// Write records to the audit log.
pub const CAP_AUDIT_WRITE: u8 = 29;

/// Configure auditing.
pub const CAP_AUDIT_CONTROL: u8 = 30;

/// Set capabilities on files.
pub const CAP_SETFCAP: u8 = 31;

/// Override mandatory access control.
pub const CAP_MAC_OVERRIDE: u8 = 32;

/// Configure mandatory access control.
pub const CAP_MAC_ADMIN: u8 = 33;

/// Read and clear the kernel's message buffer.
pub const CAP_SYSLOG: u8 = 34;

/// Set timers that wake the system.
pub const CAP_WAKE_ALARM: u8 = 35;

/// Keep the system from suspending.
pub const CAP_BLOCK_SUSPEND: u8 = 36;

/// Read the audit log.
pub const CAP_AUDIT_READ: u8 = 37;

/// The highest capability number that `capctl` knows.
pub const CAP_LAST: u8 = 40;

/// The capabilities that every container loses: administration, audit,
/// raw I/O, module loading, time setting, resource overrides and their
/// like.
pub open spec fn capabilities_drop() -> Seq<u8> {
    seq![
        CAP_AUDIT_CONTROL,
        CAP_AUDIT_READ,
        CAP_AUDIT_WRITE,
        CAP_BLOCK_SUSPEND,
        CAP_DAC_READ_SEARCH,
        CAP_DAC_OVERRIDE,
        CAP_FSETID,
        CAP_IPC_LOCK,
        CAP_MAC_ADMIN,
        CAP_MAC_OVERRIDE,
        CAP_MKNOD,
        CAP_SETFCAP,
        CAP_SYSLOG,
        CAP_SYS_ADMIN,
        CAP_SYS_BOOT,
        CAP_SYS_MODULE,
        CAP_SYS_NICE,
        CAP_SYS_RAWIO,
        CAP_SYS_RESOURCE,
        CAP_SYS_TIME,
        CAP_WAKE_ALARM,
    ]
}

/// The list of capabilities to drop.
pub fn capabilities_to_drop() -> (caps: Vec<u8>)
    ensures
        caps@ == capabilities_drop(),
{
    let caps = vec![
        CAP_AUDIT_CONTROL,
        CAP_AUDIT_READ,
        CAP_AUDIT_WRITE,
        CAP_BLOCK_SUSPEND,
        CAP_DAC_READ_SEARCH,
        CAP_DAC_OVERRIDE,
        CAP_FSETID,
        CAP_IPC_LOCK,
        CAP_MAC_ADMIN,
        CAP_MAC_OVERRIDE,
        CAP_MKNOD,
        CAP_SETFCAP,
        CAP_SYSLOG,
        CAP_SYS_ADMIN,
        CAP_SYS_BOOT,
        CAP_SYS_MODULE,
        CAP_SYS_NICE,
        CAP_SYS_RAWIO,
        CAP_SYS_RESOURCE,
        CAP_SYS_TIME,
        CAP_WAKE_ALARM,
    ];
    assert(caps@ =~= capabilities_drop());
    caps
}

/// `CapSet::drop` on the capability whose number is `cap`, which
/// `Cap::iter().nth(cap)` yields: the capability leaves the set, and
/// nothing else changes.
#[verifier::external_body]
fn capset_drop(set: &mut CapSet, cap: u8)
    requires
        cap <= CAP_LAST,
    ensures
        capset_caps(*final(set)) == capset_caps(*old(set)).remove(cap),
{
    set.drop(Cap::iter().nth(cap as usize).unwrap());
}

/// Removes every capability of `caps` from `set`.
fn drop_all(set: &mut CapSet, caps: &Vec<u8>)
    requires
        forall|i: int| 0 <= i < caps.len() ==> caps[i] <= CAP_LAST,
    ensures
        capset_caps(*final(set)) == capset_caps(*old(set)).difference(caps@.to_set()),
{
    let mut i: usize = 0;
    while i < caps.len()
        invariant
            i <= caps.len(),
            forall|j: int| 0 <= j < caps.len() ==> caps[j] <= CAP_LAST,
            capset_caps(*set) == capset_caps(*old(set)).difference(caps@.take(i as int).to_set()),
        decreases caps.len() - i,
    {
        capset_drop(set, caps[i]);
        proof {
            let before = caps@.take(i as int);
            let grown = caps@.take(i as int + 1);
            assert(grown =~= before.push(caps@[i as int]));
            assert(grown.to_set() =~= before.to_set().insert(caps@[i as int])) by {
                assert forall|c: u8| grown.to_set().contains(c) <==> before.to_set().insert(
                    caps@[i as int],
                ).contains(c) by {
                    if grown.contains(c) {
                        let k = choose|k: int| 0 <= k < grown.len() && grown[k] == c;
                        if k < i {
                            assert(before[k] == c);
                        }
                    }
                    if before.contains(c) {
                        let k = choose|k: int| 0 <= k < before.len() && before[k] == c;
                        assert(grown[k] == c);
                    }
                    if c == caps@[i as int] {
                        assert(grown[i as int] == c);
                    }
                }
            }
            assert(capset_caps(*set) =~= capset_caps(*old(set)).difference(grown.to_set()));
        }
        i += 1;
    }
    proof {
        assert(caps@.take(caps.len() as int) =~= caps@);
    }
}

/// The set of the capabilities that every container loses.
pub open spec fn dropped() -> Set<u8> {
    capabilities_drop().to_set()
}

/// Computes the bounding and the inheritable capability set of the
/// contained process from those of the calling thread (`current`, or why
/// they could not be read): each loses every capability of
/// `capabilities_drop` and keeps the rest, so that none of the dropped
/// capabilities is in either set afterwards.
pub fn setcapabilities(current: Result<(CapSet, CapSet), String>) -> (r: Result<
    (CapSet, CapSet),
    Errcode,
>)
    ensures
        match current {
            Ok((before_bounding, before_inheritable)) => {
                &&& r matches Ok((bounding, inheritable))
                &&& capset_caps(bounding) == capset_caps(before_bounding).difference(dropped())
                &&& capset_caps(inheritable) == capset_caps(before_inheritable).difference(
                    dropped(),
                )
                &&& forall|k: int|
                    0 <= k < capabilities_drop().len() ==> !capset_caps(bounding).contains(
                        #[trigger] capabilities_drop()[k],
                    ) && !capset_caps(inheritable).contains(capabilities_drop()[k])
            },
            Err(cause) => {
                &&& r matches Err(e)
                &&& e.deep_view() == ErrcodeView::Capabilities(
                    "Error while trying to get an handler to thread capabilities: "@ + cause@,
                )
            },
        },
{
    match current {
        Ok((bounding, inheritable)) => {
            let caps = capabilities_to_drop();
            let mut bounding = bounding;
            let mut inheritable = inheritable;
            drop_all(&mut bounding, &caps);
            drop_all(&mut inheritable, &caps);
            Ok((bounding, inheritable))
        },
        Err(cause) => Err(
            Errcode::Capabilities(
                concat2(
                    "Error while trying to get an handler to thread capabilities: ",
                    cause.as_str(),
                ),
            ),
        ),
    }
}

} // verus!
