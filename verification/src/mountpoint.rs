//! The mount isolator: the plan that cuts the container's mount tree off
//! from the host's and switches its root.

use vstd::prelude::*;
use crate::host::{HostCall, HostCallView, MountFlag, MountFlags, Origin, Step, StepView};
use crate::text::{
    all_alphanumeric, concat2, is_confined, is_parent_ref, is_under, join, join_path,
    lemma_join_under,
};
use crate::utils::generate_random_str;

verus! {

/// The ordered mount operations of one container, with the directory that
/// becomes its root and the directory that receives the old root. The two
/// directories are all that has to be remembered to clean up after a run
/// that was killed half-way.
#[derive(Clone, Debug, PartialEq, Eq)]
pub struct MountPlan {
    pub steps: Vec<Step>,
    pub new_root: Option<String>,
    pub old_root: Option<String>,
}

/// The mathematical value of a [`MountPlan`].
pub struct MountPlanView {
    pub steps: Seq<StepView>,
    pub new_root: Option<Seq<char>>,
    pub old_root: Option<Seq<char>>,
}

impl DeepView for MountPlan {
    type V = MountPlanView;

    open spec fn deep_view(&self) -> MountPlanView {
        MountPlanView {
            steps: self.steps.deep_view(),
            new_root: self.new_root.deep_view(),
            old_root: self.old_root.deep_view(),
        }
    }
}

/// Recursive and private: no mount event crosses the container's boundary.
pub open spec fn private_flags() -> MountFlags {
    MountFlags { bind: false, private: true, read_only: false, recursive: true }
}

/// A private bind mount.
pub open spec fn bind_flags() -> MountFlags {
    MountFlags { bind: true, private: true, read_only: false, recursive: false }
}

/// The step that mounts `source` on `target`, or changes how `target` is
/// mounted where there is no source.
pub open spec fn mount_step(
    source: Option<Seq<char>>,
    target: Seq<char>,
    flags: MountFlags,
) -> StepView {
    StepView {
        call: HostCallView::Mount { source, target, fstype: None, flags },
        origin: Origin::MountDirectory,
    }
}

/// The step that creates a directory with its missing parents.
pub open spec fn create_directory_step(path: Seq<char>) -> StepView {
    StepView { call: HostCallView::CreateDirAll { path }, origin: Origin::CreateDirectory }
}

/// The step that lazily unmounts a path.
pub open spec fn unmount_step(path: Seq<char>) -> StepView {
    StepView { call: HostCallView::Detach { path }, origin: Origin::UnmountPath }
}

/// The step that removes an empty directory.
pub open spec fn delete_step(path: Seq<char>) -> StepView {
    StepView { call: HostCallView::RemoveDir { path }, origin: Origin::DeleteDir }
}

/// The step that switches the root mount to `new_root` and moves the old
/// root to `put_old`.
pub open spec fn pivot_step(new_root: Seq<char>, put_old: Seq<char>) -> StepView {
    StepView { call: HostCallView::PivotRoot { new_root, put_old }, origin: Origin::PivotRoot }
}

/// The step that moves to the root directory.
pub open spec fn chdir_root_step() -> StepView {
    StepView { call: HostCallView::Chdir { path: "/"@ }, origin: Origin::ChdirRoot }
}

/// The step that binds the tree at `from` over `to`.
pub open spec fn bind_tree_step(from: Seq<char>, to: Seq<char>) -> StepView {
    StepView { call: HostCallView::BindTree { from, to }, origin: Origin::BindMountNamespace }
}

/// The step that marks the whole mount tree private.
pub open spec fn remount_root_step() -> StepView {
    mount_step(Some("none"@), "/"@, private_flags())
}

/// The staging directory of a run with the given random suffix.
pub open spec fn staging_dir(suffix: Seq<char>) -> Seq<char> {
    "/tmp/orjail."@ + suffix
}

/// The name of the directory that receives the old root.
pub open spec fn old_root_name(suffix: Seq<char>) -> Seq<char> {
    "oldroot."@ + suffix
}

/// For each extra bind, in order: create its mount point below the staging
/// directory, then bind the host path there.
pub open spec fn bind_steps(
    staging: Seq<char>,
    addpaths: Seq<(Seq<char>, Seq<char>)>,
) -> Seq<StepView>
    decreases addpaths.len(),
{
    if addpaths.len() == 0 {
        Seq::empty()
    } else {
        let (host_path, container_path) = addpaths.last();
        bind_steps(staging, addpaths.drop_last()) + seq![
            create_directory_step(join(staging, container_path)),
            mount_step(Some(host_path), join(staging, container_path), bind_flags()),
        ]
    }
}

/// The steps that re-root the container at `mount_dir`: privatize the
/// mount tree, stage the new root and the extra binds below `staging`,
/// switch roots, and get rid of the old root.
pub open spec fn rebase_steps(
    mount_dir: Seq<char>,
    addpaths: Seq<(Seq<char>, Seq<char>)>,
    staging: Seq<char>,
    old_name: Seq<char>,
) -> Seq<StepView> {
    seq![
        mount_step(None, "/"@, private_flags()),
        create_directory_step(staging),
        mount_step(Some(mount_dir), staging, bind_flags()),
    ] + bind_steps(staging, addpaths) + seq![
        create_directory_step(join(staging, old_name)),
        pivot_step(staging, join(staging, old_name)),
        chdir_root_step(),
        unmount_step("/"@ + old_name),
        delete_step("/"@ + old_name),
    ]
}

/// The whole plan for a run whose staging directory and old-root
/// directory carry the given random suffixes.
pub open spec fn rebase_plan(
    mount_dir: Seq<char>,
    addpaths: Seq<(Seq<char>, Seq<char>)>,
    staging_suffix: Seq<char>,
    old_root_suffix: Seq<char>,
) -> MountPlanView {
    let staging = staging_dir(staging_suffix);
    let old_name = old_root_name(old_root_suffix);
    MountPlanView {
        steps: rebase_steps(mount_dir, addpaths, staging, old_name),
        new_root: Some(staging),
        old_root: Some(join(staging, old_name)),
    }
}

/// The plan of a run without a root directory of its own: the mount tree
/// is made private and nothing else changes. The container then shares
/// the host's root, which is the documented reduced-isolation mode.
pub open spec fn shared_root_plan() -> MountPlanView {
    MountPlanView { steps: seq![remount_root_step()], new_root: None, old_root: None }
}

/// Plans one mount: `path` on `mount_point`, or a change of how
/// `mount_point` is mounted where there is no `path`, with the union of
/// `flags`.
pub fn mount_directory(path: Option<&str>, mount_point: &str, flags: Vec<MountFlag>) -> (step: Step)
    ensures
        step.deep_view() == mount_step(path.deep_view(), mount_point@, MountFlags::of(flags@)),
{
    let mut ms_flags = MountFlags::empty();
    let mut i: usize = 0;
    while i < flags.len()
        invariant
            i <= flags.len(),
            forall|f: MountFlag| ms_flags.has(f) == flags@.take(i as int).contains(f),
        decreases flags.len() - i,
    {
        let ghost before = ms_flags;
        ms_flags.insert(flags[i]);
        proof {
            let grown = flags@.take(i as int + 1);
            assert(grown.drop_last() =~= flags@.take(i as int));
            assert forall|f: MountFlag| ms_flags.has(f) == grown.contains(f) by {
                if grown.contains(f) {
                    let k = choose|k: int| 0 <= k < grown.len() && grown[k] == f;
                    if k < i {
                        assert(flags@.take(i as int)[k] == f);
                    }
                }
                if before.has(f) {
                    let k = choose|k: int|
                        0 <= k < flags@.take(i as int).len() && flags@.take(i as int)[k] == f;
                    assert(grown[k] == f);
                }
                if f == flags@[i as int] {
                    assert(grown[i as int] == f);
                }
            }
        }
        i += 1;
    }
    proof {
        assert(flags@.take(flags.len() as int) =~= flags@);
        assert(ms_flags.has(MountFlag::Bind) == flags@.contains(MountFlag::Bind));
        assert(ms_flags.has(MountFlag::Private) == flags@.contains(MountFlag::Private));
        assert(ms_flags.has(MountFlag::ReadOnly) == flags@.contains(MountFlag::ReadOnly));
        assert(ms_flags.has(MountFlag::Recursive) == flags@.contains(MountFlag::Recursive));
    }
    let source = match path {
        Some(p) => Some(String::from_str(p)),
        None => None,
    };
    Step {
        call: HostCall::Mount {
            source,
            target: String::from_str(mount_point),
            fstype: None,
            flags: ms_flags,
        },
        origin: Origin::MountDirectory,
    }
}

/// Plans the step that marks the whole mount tree private and recursive,
/// so that no mount or unmount inside the container shows outside it, nor
/// the other way round.
pub fn remount_root() -> (step: Step)
    ensures
        step.deep_view() == remount_root_step(),
{
    let mut flags: Vec<MountFlag> = Vec::new();
    flags.push(MountFlag::Recursive);
    flags.push(MountFlag::Private);
    proof {
        assert(flags@[0] == MountFlag::Recursive);
        assert(flags@[1] == MountFlag::Private);
        assert(MountFlags::of(flags@) == private_flags());
    }
    mount_directory(Some("none"), "/", flags)
}

/// Plans the creation of a directory with its missing parents.
pub fn create_directory(path: &str) -> (step: Step)
    ensures
        step.deep_view() == create_directory_step(path@),
{
    Step {
        call: HostCall::CreateDirAll { path: String::from_str(path) },
        origin: Origin::CreateDirectory,
    }
}

/// Plans the lazy unmount of `path`.
pub fn unmount_path(path: &str) -> (step: Step)
    ensures
        step.deep_view() == unmount_step(path@),
{
    Step { call: HostCall::Detach { path: String::from_str(path) }, origin: Origin::UnmountPath }
}

/// Plans the removal of the empty directory `path`.
pub fn delete_dir(path: &str) -> (step: Step)
    ensures
        step.deep_view() == delete_step(path@),
{
    Step { call: HostCall::RemoveDir { path: String::from_str(path) }, origin: Origin::DeleteDir }
}

/// Plans a bind of the tree at `from_path` over `to_path`, as
/// `mount --bind` does.
pub fn bind_mount_namespace(from_path: &str, to_path: &str) -> (step: Step)
    ensures
        step.deep_view() == bind_tree_step(from_path@, to_path@),
{
    Step {
        call: HostCall::BindTree { from: String::from_str(from_path), to: String::from_str(to_path) },
        origin: Origin::BindMountNamespace,
    }
}

fn private_bind_flags() -> (flags: Vec<MountFlag>)
    ensures
        MountFlags::of(flags@) == bind_flags(),
{
    let mut flags: Vec<MountFlag> = Vec::new();
    flags.push(MountFlag::Private);
    flags.push(MountFlag::Bind);
    proof {
        assert(flags@[0] == MountFlag::Private);
        assert(flags@[1] == MountFlag::Bind);
    }
    flags
}

/// Plans the re-rooting of the container at `mount_dir`, with the staging
/// directory and the old-root directory named after the two suffixes.
pub fn rebase_root(
    mount_dir: &str,
    addpaths: &Vec<(String, String)>,
    staging_suffix: &str,
    old_root_suffix: &str,
) -> (plan: MountPlan)
    ensures
        plan.deep_view() == rebase_plan(
            mount_dir@,
            addpaths.deep_view(),
            staging_suffix@,
            old_root_suffix@,
        ),
{
    let staging = concat2("/tmp/orjail.", staging_suffix);
    let old_name = concat2("oldroot.", old_root_suffix);
    let ghost binds = addpaths.deep_view();
    let ghost head = seq![
        mount_step(None, "/"@, private_flags()),
        create_directory_step(staging@),
        mount_step(Some(mount_dir@), staging@, bind_flags()),
    ];

    let mut steps: Vec<Step> = Vec::new();
    let mut root_flags: Vec<MountFlag> = Vec::new();
    root_flags.push(MountFlag::Recursive);
    root_flags.push(MountFlag::Private);
    proof {
        assert(root_flags@[0] == MountFlag::Recursive);
        assert(root_flags@[1] == MountFlag::Private);
        assert(MountFlags::of(root_flags@) == private_flags());
    }
    steps.push(mount_directory(None, "/", root_flags));
    steps.push(create_directory(staging.as_str()));
    steps.push(mount_directory(Some(mount_dir), staging.as_str(), private_bind_flags()));
    assert(steps.deep_view() =~= head);

    let mut i: usize = 0;
    while i < addpaths.len()
        invariant
            i <= addpaths.len(),
            binds == addpaths.deep_view(),
            binds.len() == addpaths.len(),
            steps.deep_view() == head + bind_steps(staging@, binds.take(i as int)),
        decreases addpaths.len() - i,
    {
        let ghost before = steps.deep_view();
        let outpath = join_path(staging.as_str(), addpaths[i].1.as_str());
        steps.push(create_directory(outpath.as_str()));
        steps.push(
            mount_directory(Some(addpaths[i].0.as_str()), outpath.as_str(), private_bind_flags()),
        );
        proof {
            let grown = binds.take(i as int + 1);
            assert(grown.drop_last() =~= binds.take(i as int));
            assert(grown.last() == binds[i as int]);
            assert(binds[i as int] == (addpaths[i as int].0@, addpaths[i as int].1@));
            assert(steps.deep_view() =~= before + seq![
                create_directory_step(join(staging@, addpaths[i as int].1@)),
                mount_step(
                    Some(addpaths[i as int].0@),
                    join(staging@, addpaths[i as int].1@),
                    bind_flags(),
                ),
            ]);
            assert(steps.deep_view() =~= head + bind_steps(staging@, grown));
        }
        i += 1;
    }
    proof {
        assert(binds.take(addpaths.len() as int) =~= binds);
    }
    let ghost staged = steps.deep_view();

    let old_root = join_path(staging.as_str(), old_name.as_str());
    let inside = concat2("/", old_name.as_str());
    steps.push(create_directory(old_root.as_str()));
    steps.push(
        Step {
            call: HostCall::PivotRoot { new_root: staging.clone(), put_old: old_root.clone() },
            origin: Origin::PivotRoot,
        },
    );
    steps.push(Step { call: HostCall::Chdir { path: String::from_str("/") }, origin: Origin::ChdirRoot });
    steps.push(unmount_path(inside.as_str()));
    steps.push(delete_dir(inside.as_str()));
    proof {
        assert(steps.deep_view() =~= staged + seq![
            create_directory_step(join(staging@, old_name@)),
            pivot_step(staging@, join(staging@, old_name@)),
            chdir_root_step(),
            unmount_step("/"@ + old_name@),
            delete_step("/"@ + old_name@),
        ]);
    }
    MountPlan { steps, new_root: Some(staging), old_root: Some(old_root) }
}

/// The plan of the mounts of a container whose staging directories carry
/// the given suffixes: the re-rooting at its root directory if it has one,
/// the private remount alone if it has none.
pub open spec fn mount_plan_spec(
    mount_dir: Option<Seq<char>>,
    addpaths: Seq<(Seq<char>, Seq<char>)>,
    staging_suffix: Seq<char>,
    old_root_suffix: Seq<char>,
) -> MountPlanView {
    match mount_dir {
        None => shared_root_plan(),
        Some(dir) => rebase_plan(dir, addpaths, staging_suffix, old_root_suffix),
    }
}

/// Plans the mounts of a container whose staging directories carry the
/// given suffixes.
pub fn mount_plan(
    mount_dir: &Option<String>,
    addpaths: &Vec<(String, String)>,
    staging_suffix: &str,
    old_root_suffix: &str,
) -> (plan: MountPlan)
    ensures
        plan.deep_view() == mount_plan_spec(
            mount_dir.deep_view(),
            addpaths.deep_view(),
            staging_suffix@,
            old_root_suffix@,
        ),
{
    match mount_dir {
        None => {
            let mut steps: Vec<Step> = Vec::new();
            steps.push(remount_root());
            assert(steps.deep_view() =~= seq![remount_root_step()]);
            MountPlan { steps, new_root: None, old_root: None }
        },
        Some(dir) => rebase_root(dir.as_str(), addpaths, staging_suffix, old_root_suffix),
    }
}

/// Plans the mounts of a container. With a root directory the container
/// is re-rooted there, under freshly named staging directories; without
/// one only the private remount is planned.
pub fn set_container_mountpoint(mount_dir: &Option<String>, addpaths: &Vec<(String, String)>) -> (plan:
    MountPlan)
    ensures
        match mount_dir {
            None => plan.deep_view() == shared_root_plan(),
            Some(dir) => exists|a: Seq<char>, b: Seq<char>|
                a.len() == 10 && all_alphanumeric(a) && b.len() == 6 && all_alphanumeric(b)
                    && plan.deep_view() == #[trigger] rebase_plan(
                    dir@,
                    addpaths.deep_view(),
                    a,
                    b,
                ),
        },
{
    let staging_suffix = generate_random_str(10);
    let old_root_suffix = generate_random_str(6);
    let plan = mount_plan(
        mount_dir,
        addpaths,
        staging_suffix.as_str(),
        old_root_suffix.as_str(),
    );
    proof {
        if let Some(dir) = mount_dir {
            assert(plan.deep_view() == rebase_plan(
                dir@,
                addpaths.deep_view(),
                staging_suffix@,
                old_root_suffix@,
            ));
        }
    }
    plan
}

/// Whether every extra bind names a container path that cannot climb out
/// of the new root.
pub open spec fn binds_confined(addpaths: Seq<(Seq<char>, Seq<char>)>) -> bool {
    forall|j: int| 0 <= j < addpaths.len() ==> is_confined(#[trigger] addpaths[j].1)
}

/// Whether a step of a re-rooting plan keeps to the new root: what it
/// creates or mounts lies at or below `staging`, and what it mounts there
/// is the configured root directory, at `staging` itself, or the host path
/// of a configured bind, at the bind's own place below `staging`, which
/// cannot climb out.
pub open spec fn keeps_to_new_root(
    step: StepView,
    staging: Seq<char>,
    mount_dir: Seq<char>,
    addpaths: Seq<(Seq<char>, Seq<char>)>,
) -> bool {
    match step.call {
        HostCallView::CreateDirAll { path } => is_under(path, staging),
        HostCallView::Mount { source, target, .. } => {
            &&& is_under(target, staging)
            &&& {
                ||| (source == Some(mount_dir) && target == staging)
                ||| exists|j: int|
                    0 <= j < addpaths.len() && source == Some(#[trigger] addpaths[j].0) && target
                        == join(staging, addpaths[j].1) && is_confined(addpaths[j].1)
            }
        },
        HostCallView::PivotRoot { new_root, put_old } => new_root == staging && is_under(
            put_old,
            staging,
        ),
        HostCallView::Chdir { .. } | HostCallView::Detach { .. } | HostCallView::RemoveDir {
            ..
        } => true,
        _ => false,
    }
}

/// The name of the directory for the old root cannot climb out of the
/// staging directory.
pub proof fn lemma_old_root_name_confined(suffix: Seq<char>)
    requires
        all_alphanumeric(suffix),
    ensures
        is_confined(old_root_name(suffix)),
{
    let name = old_root_name(suffix);
    reveal_strlit("oldroot.");
    assert("oldroot."@.len() == 8);
    assert forall|i: int| !is_parent_ref(name, i) by {
        if 0 <= i && i + 2 <= name.len() {
            if i + 1 >= 8 {
                assert(name[i + 1] == suffix[i + 1 - 8]);
                assert(crate::text::is_alphanumeric(suffix[i + 1 - 8]));
            } else {
                assert(name[i] == "oldroot."@[i]);
            }
        }
    }
}

/// The shape of the bind part of a plan: two steps per bind, in the order
/// of the binds.
pub proof fn lemma_bind_steps(staging: Seq<char>, addpaths: Seq<(Seq<char>, Seq<char>)>)
    ensures
        bind_steps(staging, addpaths).len() == 2 * addpaths.len(),
        forall|j: int|
            0 <= j < addpaths.len() ==> {
                &&& #[trigger] bind_steps(staging, addpaths)[2 * j] == create_directory_step(
                    join(staging, addpaths[j].1),
                )
                &&& bind_steps(staging, addpaths)[2 * j + 1] == mount_step(
                    Some(addpaths[j].0),
                    join(staging, addpaths[j].1),
                    bind_flags(),
                )
            },
    decreases addpaths.len(),
{
    if addpaths.len() > 0 {
        lemma_bind_steps(staging, addpaths.drop_last());
        let shorter = bind_steps(staging, addpaths.drop_last());
        assert forall|j: int| 0 <= j < addpaths.len() implies {
            &&& #[trigger] bind_steps(staging, addpaths)[2 * j] == create_directory_step(
                join(staging, addpaths[j].1),
            )
            &&& bind_steps(staging, addpaths)[2 * j + 1] == mount_step(
                Some(addpaths[j].0),
                join(staging, addpaths[j].1),
                bind_flags(),
            )
        } by {
            if j < addpaths.len() - 1 {
                assert(addpaths.drop_last()[j] == addpaths[j]);
                assert(bind_steps(staging, addpaths)[2 * j] == shorter[2 * j]);
                assert(bind_steps(staging, addpaths)[2 * j + 1] == shorter[2 * j + 1]);
            }
        }
    }
}

/// Filesystem isolation of a re-rooted container. In the plan that
/// re-roots a container whose binds cannot climb out of the new root, the
/// first step makes the mount tree private; every later step keeps to the
/// new root, so that nothing of the host is brought in but the configured
/// root directory and the configured binds, each at its own place below
/// the new root; and the plan ends by switching roots, leaving the old
/// root, detaching it and deleting its mount point, after which no path
/// of the old root can be reached.
pub proof fn lemma_rebase_isolates(
    mount_dir: Seq<char>,
    addpaths: Seq<(Seq<char>, Seq<char>)>,
    staging_suffix: Seq<char>,
    old_root_suffix: Seq<char>,
)
    requires
        binds_confined(addpaths),
        all_alphanumeric(old_root_suffix),
    ensures
        ({
            let plan = rebase_plan(mount_dir, addpaths, staging_suffix, old_root_suffix);
            let staging = staging_dir(staging_suffix);
            let old_name = old_root_name(old_root_suffix);
            let steps = plan.steps;
            let n = steps.len() as int;
            &&& plan.new_root == Some(staging)
            &&& plan.old_root == Some(join(staging, old_name))
            &&& n == 8 + 2 * addpaths.len()
            &&& steps[0] == mount_step(None, "/"@, private_flags())
            &&& forall|i: int|
                1 <= i < n ==> keeps_to_new_root(#[trigger] steps[i], staging, mount_dir, addpaths)
            &&& forall|i: int|
                0 <= i < n - 4 ==> !(#[trigger] steps[i].call is PivotRoot)
            &&& steps[n - 4] == pivot_step(staging, join(staging, old_name))
            &&& steps[n - 3] == chdir_root_step()
            &&& steps[n - 2] == unmount_step("/"@ + old_name)
            &&& steps[n - 1] == delete_step("/"@ + old_name)
        }),
{
    let staging = staging_dir(staging_suffix);
    let old_name = old_root_name(old_root_suffix);
    let steps = rebase_steps(mount_dir, addpaths, staging, old_name);
    let binds = bind_steps(staging, addpaths);
    let n = steps.len() as int;
    lemma_bind_steps(staging, addpaths);
    lemma_old_root_name_confined(old_root_suffix);
    lemma_join_under(staging, old_name);
    assert forall|i: int| 1 <= i < n implies keeps_to_new_root(
        #[trigger] steps[i],
        staging,
        mount_dir,
        addpaths,
    ) by {
        if 3 <= i < 3 + binds.len() {
            let j = (i - 3) / 2;
            assert(steps[i] == binds[i - 3]);
            assert(is_confined(addpaths[j].1));
            lemma_join_under(staging, addpaths[j].1);
            if i - 3 == 2 * j {
                assert(binds[2 * j] == create_directory_step(join(staging, addpaths[j].1)));
            } else {
                assert(i - 3 == 2 * j + 1);
                assert(binds[2 * j + 1] == mount_step(
                    Some(addpaths[j].0),
                    join(staging, addpaths[j].1),
                    bind_flags(),
                ));
            }
        }
    }
    assert forall|i: int| 0 <= i < n - 4 implies !(#[trigger] steps[i].call is PivotRoot) by {
        if 3 <= i < 3 + binds.len() {
            let j = (i - 3) / 2;
            assert(steps[i] == binds[i - 3]);
            if i - 3 == 2 * j {
                assert(binds[2 * j] == create_directory_step(join(staging, addpaths[j].1)));
            } else {
                assert(i - 3 == 2 * j + 1);
                assert(binds[2 * j + 1] == mount_step(
                    Some(addpaths[j].0),
                    join(staging, addpaths[j].1),
                    bind_flags(),
                ));
            }
        }
    }
}

/// The steps that clean up after the run of the container named
/// `hostname`: the per-run temporary directory is removed with all it
/// holds, and that is all. The directory is the source of the binds of the
/// network-namespace area; the binds themselves were made inside the
/// container's private mount namespace and end with it, so that there is
/// nothing to unmount on the host. The container's root directory is the
/// user's own and is not touched.
pub open spec fn clean_steps(hostname: Seq<char>) -> Seq<StepView> {
    seq![
        StepView {
            call: HostCallView::RemoveDirAll { path: "/tmp/"@ + hostname },
            origin: Origin::CleanTmp,
        },
    ]
}

/// Plans the cleanup of what the run of the container named `hostname`
/// left on the host's file system.
pub fn clean_mounts(hostname: &String) -> (steps: Vec<Step>)
    ensures
        steps.deep_view() == clean_steps(hostname@),
{
    let mut steps: Vec<Step> = Vec::new();
    steps.push(
        Step {
            call: HostCall::RemoveDirAll { path: concat2("/tmp/", hostname.as_str()) },
            origin: Origin::CleanTmp,
        },
    );
    assert(steps.deep_view() =~= clean_steps(hostname@));
    steps
}

} // verus!
