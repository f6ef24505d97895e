use vstd::prelude::*;

use crate::paths::{append_to_root, path_join};
use crate::step::{failure_of, StepOutcome};

verus! {

/// One mount: what is mounted where, as which filesystem type.
#[derive(Clone, Debug)]
pub struct MountSpec {
    pub source: String,
    pub target: String,
    pub fstype: String,
    /// A bind mount of `source`.
    pub bind: bool,
    /// The target directory is created before mounting.
    pub create_target: bool,
}

/// Mathematical model of a [`MountSpec`].
pub struct MountSpecView {
    pub source: Seq<char>,
    pub target: Seq<char>,
    pub fstype: Seq<char>,
    pub bind: bool,
    pub create_target: bool,
}

impl View for MountSpec {
    type V = MountSpecView;

    open spec fn view(&self) -> MountSpecView {
        MountSpecView {
            source: self.source@,
            target: self.target@,
            fstype: self.fstype@,
            bind: self.bind,
            create_target: self.create_target,
        }
    }
}

impl MountSpec {
    /// A copy of this mount.
    pub fn duplicate(&self) -> (r: MountSpec)
        ensures
            r@ == self@,
    {
        MountSpec {
            source: self.source.clone(),
            target: self.target.clone(),
            fstype: self.fstype.clone(),
            bind: self.bind,
            create_target: self.create_target,
        }
    }
}

pub open spec fn mount_view(
    source: Seq<char>,
    target: Seq<char>,
    fstype: Seq<char>,
    bind: bool,
    create_target: bool,
) -> MountSpecView {
    MountSpecView { source, target, fstype, bind, create_target }
}

/// The mounts that make up a mounted image, in mounting order: the logical
/// volume as ext4 at `root_base`, the boot partition as vfat at
/// `root_base/boot`, then `proc`, `sys` and a bind mount of the host's `/dev`
/// beneath `root_base`.
pub open spec fn mount_plan_spec(
    lv_device: Seq<char>,
    boot_device: Seq<char>,
    root_base: Seq<char>,
) -> Seq<MountSpecView> {
    seq![
        mount_view(lv_device, root_base, "ext4"@, false, true),
        mount_view(boot_device, path_join(root_base, "boot"@), "vfat"@, false, true),
        mount_view("/proc"@, path_join(root_base, "proc"@), "proc"@, false, false),
        mount_view("/sys"@, path_join(root_base, "sys"@), "sysfs"@, false, false),
        mount_view("/dev"@, path_join(root_base, "dev"@), "devtmpfs"@, true, false),
    ]
}

/// Number of mounts (root and boot) that must be live before the root
/// filesystem archive is extracted.
pub const MOUNTS_BEFORE_EXTRACTION: usize = 2;

fn make_mount(source: &str, target: String, fstype: &str, bind: bool, create_target: bool) -> (r:
    MountSpec)
    ensures
        r@ == mount_view(source@, target@, fstype@, bind, create_target),
{
    MountSpec {
        source: String::from_str(source),
        target,
        fstype: String::from_str(fstype),
        bind,
        create_target,
    }
}

/// Builds the mounts of an image, in mounting order.
pub fn mount_plan(lv_device: &str, boot_device: &str, root_base: &str) -> (r: Vec<MountSpec>)
    ensures
        r@.map_values(|m: MountSpec| m@) == mount_plan_spec(lv_device@, boot_device@, root_base@),
{
    let mut plan: Vec<MountSpec> = Vec::new();
    plan.push(make_mount(lv_device, String::from_str(root_base), "ext4", false, true));
    plan.push(make_mount(boot_device, append_to_root(root_base, "boot"), "vfat", false, true));
    plan.push(make_mount("/proc", append_to_root(root_base, "proc"), "proc", false, false));
    plan.push(make_mount("/sys", append_to_root(root_base, "sys"), "sysfs", false, false));
    plan.push(make_mount("/dev", append_to_root(root_base, "dev"), "devtmpfs", true, false));
    assert(plan@.map_values(|m: MountSpec| m@) =~= mount_plan_spec(
        lv_device@,
        boot_device@,
        root_base@,
    ));
    plan
}

/// The targets of `mounts`, in the same order.
pub open spec fn targets_of(mounts: Seq<MountSpecView>) -> Seq<Seq<char>> {
    mounts.map_values(|m: MountSpecView| m.target)
}

/// The live mounts of an image, in the order they were made. Index 0 is the
/// root, index 1 the boot partition.
pub struct MountSet {
    mounts: Vec<MountSpec>,
}

impl View for MountSet {
    type V = Seq<MountSpecView>;

    closed spec fn view(&self) -> Seq<MountSpecView> {
        self.mounts@.map_values(|m: MountSpec| m@)
    }
}

impl MountSet {
    /// A set with no mounts.
    pub fn new() -> (r: MountSet)
        ensures
            r@ == Seq::<MountSpecView>::empty(),
    {
        let r = MountSet { mounts: Vec::new() };
        assert(r@ =~= Seq::<MountSpecView>::empty());
        r
    }

    /// Records a mount that has just been made.
    pub fn record(&mut self, mount: MountSpec)
        ensures
            final(self)@ == old(self)@.push(mount@),
    {
        self.mounts.push(mount);
        assert(final(self)@ =~= old(self)@.push(mount@));
    }

    pub fn len(&self) -> (r: usize)
        ensures
            r == self@.len(),
    {
        self.mounts.len()
    }

    /// The mount at `index`, in mounting order.
    pub fn get(&self, index: usize) -> (r: &MountSpec)
        requires
            index < self@.len(),
        ensures
            r@ == self@[index as int],
    {
        &self.mounts[index]
    }

    /// The targets of the set, last mount first.
    pub fn unmount_order(&self) -> (r: Vec<String>)
        ensures
            r@.map_values(|t: String| t@) == targets_of(self@).reverse(),
    {
        let mut out: Vec<String> = Vec::new();
        let n = self.mounts.len();
        let mut i: usize = n;
        while i > 0
            invariant
                i <= n,
                n == self.mounts@.len(),
                out@.map_values(|t: String| t@) == targets_of(self@).reverse().take((n - i) as int),
            decreases i,
        {
            i = i - 1;
            let t = self.mounts[i].target.clone();
            proof {
                let rev = targets_of(self@).reverse();
                assert(rev[(n - i - 1) as int] == self@[i as int].target);
                assert(rev.take((n - i) as int) =~= rev.take((n - i - 1) as int).push(t@));
            }
            out.push(t);
            assert(out@.map_values(|t: String| t@) =~= targets_of(self@).reverse().take(
                (n - i) as int,
            ));
        }
        assert(targets_of(self@).reverse().take(n as int) =~= targets_of(self@).reverse());
        out
    }

    /// The targets to unmount, last mount first; the set is left empty, so
    /// a second call unmounts nothing.
    pub fn unmount_all(&mut self) -> (r: Vec<String>)
        ensures
            r@.map_values(|t: String| t@) == targets_of(old(self)@).reverse(),
            final(self)@ == Seq::<MountSpecView>::empty(),
    {
        let out = self.unmount_order();
        self.mounts = Vec::new();
        assert(self@ =~= Seq::<MountSpecView>::empty());
        out
    }
}

/// What the caller must do next to bring an image's mounts up, or to take
/// them down again after a failure.
#[derive(Debug)]
pub enum MountAction {
    /// Make this mount, creating its target directory first when it asks so.
    Mount(MountSpec),
    /// Unpack the root filesystem archive into `root`, the mounted root.
    Extract { root: String },
    /// Unmount these targets, in this order.
    Unwind(Vec<String>),
    /// Every mount is live.
    Done,
    /// A step failed with this text, and what was mounted has been unwound.
    Aborted(String),
}

/// Mathematical model of a [`MountOrchestrator`].
pub struct MountOrchestratorView {
    pub plan: Seq<MountSpecView>,
    pub mounted: Seq<MountSpecView>,
    pub extracted: bool,
    pub failure: Option<Seq<char>>,
    pub unwound: bool,
}

/// The root filesystem archive is extracted once root and boot are mounted
/// and before anything else is.
pub open spec fn extraction_due(v: MountOrchestratorView) -> bool {
    v.failure is None && v.mounted.len() == MOUNTS_BEFORE_EXTRACTION && !v.extracted
}

/// The orchestrator's state after the caller reports `outcome` for the step
/// that it asked for.
pub open spec fn after_outcome(
    v: MountOrchestratorView,
    outcome: Option<Seq<char>>,
) -> MountOrchestratorView {
    if v.failure is Some {
        if v.unwound {
            v
        } else {
            MountOrchestratorView { mounted: Seq::empty(), unwound: true, ..v }
        }
    } else if extraction_due(v) {
        match outcome {
            None => MountOrchestratorView { extracted: true, ..v },
            Some(m) => MountOrchestratorView { failure: Some(m), ..v },
        }
    } else if v.mounted.len() < v.plan.len() {
        match outcome {
            None => MountOrchestratorView { mounted: v.mounted.push(v.plan[v.mounted.len() as int]), ..v },
            Some(m) => MountOrchestratorView { failure: Some(m), ..v },
        }
    } else {
        v
    }
}

/// Mounts are only ever made in plan order: if what is mounted is the start
/// of the plan, it still is after any outcome. So the root is always the
/// first mount and the boot partition the second.
pub proof fn lemma_mounted_is_prefix(v: MountOrchestratorView, outcome: Option<Seq<char>>)
    requires
        v.mounted == v.plan.take(v.mounted.len() as int),
    ensures
        ({
            let w = after_outcome(v, outcome);
            &&& w.plan == v.plan
            &&& w.mounted == w.plan.take(w.mounted.len() as int)
        }),
{
    let w = after_outcome(v, outcome);
    if v.failure is None && !extraction_due(v) && v.mounted.len() < v.plan.len() && outcome is None {
        assert(v.plan.take(v.mounted.len() + 1int) =~= v.plan.take(v.mounted.len() as int).push(
            v.plan[v.mounted.len() as int],
        ));
    }
    if v.failure is Some && !v.unwound {
        assert(w.plan.take(0) =~= Seq::<MountSpecView>::empty());
    }
}

/// Brings up the mounts of an image in order, asks for the root filesystem
/// to be extracted between the boot mount and the pseudo-filesystems, and on
/// any failure unwinds exactly the mounts that were made, last first.
pub struct MountOrchestrator {
    plan: Vec<MountSpec>,
    mounted: MountSet,
    extracted: bool,
    failure: Option<String>,
    unwound: bool,
}

impl View for MountOrchestrator {
    type V = MountOrchestratorView;

    closed spec fn view(&self) -> MountOrchestratorView {
        MountOrchestratorView {
            plan: self.plan@.map_values(|m: MountSpec| m@),
            mounted: self.mounted@,
            extracted: self.extracted,
            failure: match self.failure {
                Some(m) => Some(m@),
                None => None,
            },
            unwound: self.unwound,
        }
    }
}

impl MountOrchestrator {
    /// Starts mounting an image: nothing is mounted yet.
    pub fn new(lv_device: &str, boot_device: &str, root_base: &str) -> (r: MountOrchestrator)
        ensures
            r@.plan == mount_plan_spec(lv_device@, boot_device@, root_base@),
            r@.mounted == Seq::<MountSpecView>::empty(),
            !r@.extracted,
            r@.failure is None,
            !r@.unwound,
    {
        MountOrchestrator {
            plan: mount_plan(lv_device, boot_device, root_base),
            mounted: MountSet::new(),
            extracted: false,
            failure: None,
            unwound: false,
        }
    }

    /// The step that the caller must carry out next.
    pub fn next_action(&self) -> (r: MountAction)
        ensures
            self@.failure is Some && !self@.unwound ==> (r matches MountAction::Unwind(t)
                && t@.map_values(|s: String| s@) == targets_of(self@.mounted).reverse()),
            self@.failure is Some && self@.unwound ==> (r matches MountAction::Aborted(m)
                && self@.failure == Some(m@)),
            extraction_due(self@) ==> (r matches MountAction::Extract { root }
                && root@ == self@.mounted[0].target),
            self@.failure is None && !extraction_due(self@) && self@.mounted.len()
                < self@.plan.len() ==> (r matches MountAction::Mount(m)
                && m@ == self@.plan[self@.mounted.len() as int]),
            self@.failure is None && !extraction_due(self@) && self@.mounted.len()
                >= self@.plan.len() ==> r is Done,
    {
        match &self.failure {
            Some(m) => {
                if self.unwound {
                    MountAction::Aborted(m.clone())
                } else {
                    MountAction::Unwind(self.mounted.unmount_order())
                }
            },
            None => {
                let n = self.mounted.len();
                if n == MOUNTS_BEFORE_EXTRACTION && !self.extracted {
                    MountAction::Extract { root: self.mounted.get(0).target.clone() }
                } else if n < self.plan.len() {
                    proof {
                        assert(self.plan@.map_values(|m: MountSpec| m@)[n as int]
                            == self.plan@[n as int]@);
                    }
                    MountAction::Mount(self.plan[n].duplicate())
                } else {
                    MountAction::Done
                }
            },
        }
    }

    /// Takes the outcome of the step that [`Self::next_action`] asked for.
    /// After an unwind every unmount has been attempted, so its outcome does
    /// not change what follows.
    pub fn on_outcome(&mut self, outcome: StepOutcome)
        ensures
            final(self)@ == after_outcome(old(self)@, failure_of(outcome)),
    {
        if self.failure.is_some() {
            if !self.unwound {
                let _ = self.mounted.unmount_all();
                self.unwound = true;
            }
            return ;
        }
        let n = self.mounted.len();
        if n == MOUNTS_BEFORE_EXTRACTION && !self.extracted {
            match outcome {
                StepOutcome::Succeeded => {
                    self.extracted = true;
                },
                StepOutcome::Failed(m) => {
                    self.failure = Some(m);
                },
            }
        } else if n < self.plan.len() {
            match outcome {
                StepOutcome::Succeeded => {
                    proof {
                        assert(self.plan@.map_values(|m: MountSpec| m@)[n as int]
                            == self.plan@[n as int]@);
                    }
                    let m = self.plan[n].duplicate();
                    self.mounted.record(m);
                },
                StepOutcome::Failed(m) => {
                    self.failure = Some(m);
                },
            }
        }
    }

    /// The live mounts, once every step has succeeded.
    pub fn into_mount_set(self) -> (r: MountSet)
        requires
            self@.failure is None,
            self@.mounted.len() >= self@.plan.len(),
        ensures
            r@ == self@.mounted,
    {
        self.mounted
    }
}

} // verus!
