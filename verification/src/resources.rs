//! Resource accounting, an optional add-on to the isolation: the limits a
//! container would run under, and the control group that holds them.

use vstd::prelude::*;
use crate::errors::{Errcode, ErrcodeView};
use crate::text::{concat2, concat3, concat4, format_i32, signed_decimal};

verus! {

/// The limit on kernel memory, one GiB.
pub const KMEM_LIMIT: i64 = 1024 * 1024 * 1024;

/// The limit on memory. A user may lower it, never raise it.
pub const MEM_LIMIT: i64 = KMEM_LIMIT;

/// The most processes a container may hold.
pub const MAX_PID: i64 = 256;

/// The most file descriptors a container may hold.
pub const NOFILE_RLIMIT: u64 = 256;

/// The share of CPU time, less than other processes get.
pub const CPU_SHARES: u64 = 256;

/// The priority of block I/O, lower than the system's.
pub const BLKIO_WEIGHT: u16 = 50;

/// The limits of one container, and where they are put.
#[derive(Clone, Debug, PartialEq, Eq)]
pub struct ResourceLimits {
    /// The control group, named after the container.
    pub cgroup: String,
    /// The contained process, the one task of the control group.
    pub task: u64,
    pub cpu_shares: u64,
    pub kernel_memory_limit: i64,
    pub memory_hard_limit: i64,
    pub maximum_number_of_processes: i64,
    pub blkio_weight: u16,
    /// The soft and the hard limit on open files.
    pub nofile: u64,
}

/// Plans the limits of the container named `hostname` whose process is
/// `pid`. A negative process identifier names no process and is refused.
pub fn restrict_resources(hostname: &String, pid: i32) -> (r: Result<ResourceLimits, Errcode>)
    ensures
        pid >= 0 ==> (r matches Ok(limits) && limits.cgroup@ == hostname@ && limits.task == pid
            && limits.cpu_shares == CPU_SHARES && limits.kernel_memory_limit == KMEM_LIMIT
            && limits.memory_hard_limit == MEM_LIMIT && limits.maximum_number_of_processes
            == MAX_PID && limits.blkio_weight == BLKIO_WEIGHT && limits.nofile == NOFILE_RLIMIT),
        pid < 0 ==> (r matches Err(e) && e.deep_view() == ErrcodeView::ResourcesError(
            "Error during cgroups conf for PID "@ + signed_decimal(pid as int)
                + ": not a process"@,
        )),
{
    if pid < 0 {
        let n = format_i32(pid);
        return Err(
            Errcode::ResourcesError(
                concat3("Error during cgroups conf for PID ", n.as_str(), ": not a process"),
            ),
        );
    }
    Ok(
        ResourceLimits {
            cgroup: hostname.clone(),
            task: pid as u64,
            cpu_shares: CPU_SHARES,
            kernel_memory_limit: KMEM_LIMIT,
            memory_hard_limit: MEM_LIMIT,
            maximum_number_of_processes: MAX_PID,
            blkio_weight: BLKIO_WEIGHT,
            nofile: NOFILE_RLIMIT,
        },
    )
}

/// Where applying the limits can fail.
#[derive(Clone, Copy, Debug, PartialEq, Eq, Structural)]
pub enum LimitStage {
    /// Putting the process into the control group.
    Cgroup,
    /// Setting the limit on open files.
    Rlimit,
}

/// The error for limits that could not be applied. It is reported and
/// does not stop the container: isolation does not depend on it.
pub fn restrict_failed(stage: LimitStage, pid: i32, cause: &str) -> (e: Errcode)
    ensures
        e.deep_view() == ErrcodeView::ResourcesError(
            match stage {
                LimitStage::Cgroup => "Error during cgroups conf for PID "@ + signed_decimal(
                    pid as int,
                ) + ": "@ + cause@,
                LimitStage::Rlimit => "Cgroups: setrlimit returned error "@ + cause@,
            },
        ),
{
    match stage {
        LimitStage::Cgroup => {
            let n = format_i32(pid);
            Errcode::ResourcesError(
                concat4("Error during cgroups conf for PID ", n.as_str(), ": ", cause),
            )
        },
        LimitStage::Rlimit => Errcode::ResourcesError(
            concat2("Cgroups: setrlimit returned error ", cause),
        ),
    }
}

/// The directory of the control group of the container named `hostname`.
pub open spec fn cgroup_dir(hostname: Seq<char>) -> Seq<char> {
    "/sys/fs/cgroup/"@ + hostname + "/"@
}

/// Names the directory to remove after a run. It is resolved first, and
/// then removed.
pub fn clean_cgroups(hostname: &String) -> (path: String)
    ensures
        path@ == cgroup_dir(hostname@),
{
    concat3("/sys/fs/cgroup/", hostname.as_str(), "/")
}

/// The error for a control group that could not be cleaned up:
/// `resolved` is the directory's real path if it could be resolved.
pub fn clean_failed(resolved: Option<&str>, cause: &str) -> (e: Errcode)
    ensures
        e.deep_view() == ErrcodeView::ResourcesError(
            match resolved {
                Some(dir) => "Error while trying to delete dir "@ + dir@ + ": "@ + cause@,
                None => "Error while canonicalize path: "@ + cause@,
            },
        ),
{
    match resolved {
        Some(dir) => Errcode::ResourcesError(
            concat4("Error while trying to delete dir ", dir, ": ", cause),
        ),
        None => Errcode::ResourcesError(concat2("Error while canonicalize path: ", cause)),
    }
}

} // verus!
