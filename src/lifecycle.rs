use vstd::prelude::*;

use crate::filesystem::FsLibrary;
use crate::image::{steps_view, TeardownStep, TeardownStepView};
use crate::loop_device::LoopDeviceHandle;
use crate::lvm::{
    logical_volume_name, volume_group_name, LogicalVolumeRef, StackBuilder, StackStage,
};
use crate::mount::{targets_of, MountSet, MountSpecView};
use crate::step::{failure_of, StepOutcome};

verus! {

/// Everything an image build holds at some point of the build; what has not
/// been created yet is absent.
pub struct ImageResources {
    pub mounts: MountSet,
    pub volume: Option<LogicalVolumeRef>,
    pub volume_library_open: bool,
    pub filesystem_library_open: bool,
    /// The node of the bound loop device.
    pub loop_device: Option<String>,
}

/// Mathematical model of [`ImageResources`].
pub struct ResourcesView {
    pub mounts: Seq<MountSpecView>,
    pub volume: Option<(Seq<char>, Seq<char>)>,
    pub volume_library_open: bool,
    pub filesystem_library_open: bool,
    pub loop_device: Option<Seq<char>>,
}

impl View for ImageResources {
    type V = ResourcesView;

    open spec fn view(&self) -> ResourcesView {
        ResourcesView {
            mounts: self.mounts@,
            volume: match self.volume {
                Some(lv) => Some((lv.vg_name@, lv.lv_name@)),
                None => None,
            },
            volume_library_open: self.volume_library_open,
            filesystem_library_open: self.filesystem_library_open,
            loop_device: match self.loop_device {
                Some(d) => Some(d@),
                None => None,
            },
        }
    }
}

/// Nothing is held.
pub open spec fn holds_nothing(r: ResourcesView) -> bool {
    &&& r.mounts.len() == 0
    &&& r.volume is None
    &&& !r.volume_library_open
    &&& !r.filesystem_library_open
    &&& r.loop_device is None
}

/// The release order: every mount, last first; then the logical volume is
/// deactivated; then the volume and filesystem libraries are closed; last,
/// the loop device is unbound. Only what is held is released.
pub open spec fn teardown_spec(r: ResourcesView) -> Seq<TeardownStepView> {
    targets_of(r.mounts).reverse().map_values(|t: Seq<char>| TeardownStepView::Unmount(t)) + (
    match r.volume {
        Some(v) => seq![TeardownStepView::DeactivateLogicalVolume(v.0, v.1)],
        None => seq![],
    }) + (if r.volume_library_open {
        seq![TeardownStepView::CloseVolumeLibrary]
    } else {
        seq![]
    }) + (if r.filesystem_library_open {
        seq![TeardownStepView::CloseFilesystemLibrary]
    } else {
        seq![]
    }) + (match r.loop_device {
        Some(d) => seq![TeardownStepView::DetachLoopDevice(d)],
        None => seq![],
    })
}

impl ImageResources {
    /// Nothing held yet.
    pub fn new() -> (r: ImageResources)
        ensures
            holds_nothing(r@),
    {
        ImageResources {
            mounts: MountSet::new(),
            volume: None,
            volume_library_open: false,
            filesystem_library_open: false,
            loop_device: None,
        }
    }

    /// Records the loop device of a handle while it is bound.
    pub fn record_loop_device(&mut self, handle: &LoopDeviceHandle)
        ensures
            final(self)@ == (ResourcesView {
                loop_device: if handle@.attached {
                    Some(handle@.device)
                } else {
                    old(self)@.loop_device
                },
                ..old(self)@
            }),
    {
        if handle.is_attached() {
            self.loop_device = Some(handle.device_path());
        }
    }

    /// Records what a volume stack build has created: the open volume
    /// library, and the logical volume once it exists.
    pub fn record_volume_stack(&mut self, stack: &StackBuilder)
        ensures
            final(self)@ == (ResourcesView {
                volume_library_open: old(self)@.volume_library_open || stack@.library_open,
                volume: if stack@.stage == StackStage::Created {
                    Some((volume_group_name(), logical_volume_name()))
                } else {
                    old(self)@.volume
                },
                ..old(self)@
            }),
    {
        if stack.opened_library() {
            self.volume_library_open = true;
        }
        match stack.created_volume() {
            Some(lv) => {
                self.volume = Some(lv);
            },
            None => {},
        }
    }

    /// Records whether the filesystem library is open: initialised and not
    /// closed yet.
    pub fn record_filesystem_library(&mut self, library: &FsLibrary)
        ensures
            final(self)@ == (ResourcesView {
                filesystem_library_open: library@.initialized && !library@.closed,
                ..old(self)@
            }),
    {
        self.filesystem_library_open = library.is_open();
    }

    /// The one release routine, for success and failure alike: returns
    /// every step that releases what is held, in release order, and leaves
    /// nothing held, so a second call releases nothing.
    pub fn teardown_plan(&mut self) -> (r: Vec<TeardownStep>)
        ensures
            steps_view(r@) == teardown_spec(old(self)@),
            holds_nothing(final(self)@),
    {
        let ghost before = self@;
        let targets = self.mounts.unmount_all();
        let mut steps: Vec<TeardownStep> = Vec::new();
        let mut i: usize = 0;
        while i < targets.len()
            invariant
                i <= targets@.len(),
                targets@.map_values(|t: String| t@) == targets_of(before.mounts).reverse(),
                steps_view(steps@) == targets_of(before.mounts).reverse().take(i as int).map_values(
                    |t: Seq<char>| TeardownStepView::Unmount(t),
                ),
            decreases targets.len() - i,
        {
            let t = targets[i].clone();
            proof {
                assert(targets@.map_values(|t: String| t@)[i as int] == targets@[i as int]@);
                assert(targets_of(before.mounts).reverse()[i as int] == t@);
            }
            let ghost prev = steps@;
            let ghost tv = t@;
            steps.push(TeardownStep::Unmount(t));
            assert(steps_view(steps@) =~= steps_view(prev).push(TeardownStepView::Unmount(tv)));
            assert(targets_of(before.mounts).reverse().take(i + 1) =~= targets_of(
                before.mounts,
            ).reverse().take(i as int).push(t@));
            assert(steps_view(steps@) =~= targets_of(before.mounts).reverse().take(
                i + 1,
            ).map_values(|t: Seq<char>| TeardownStepView::Unmount(t)));
            i = i + 1;
        }
        assert(targets_of(before.mounts).reverse().take(i as int) =~= targets_of(
            before.mounts,
        ).reverse());
        let ghost unmounts = steps_view(steps@);
        let volume = self.volume.take();
        match volume {
            Some(lv) => {
                steps.push(TeardownStep::DeactivateLogicalVolume(lv));
            },
            None => {},
        }
        let ghost with_volume = steps_view(steps@);
        if self.volume_library_open {
            steps.push(TeardownStep::CloseVolumeLibrary);
            self.volume_library_open = false;
        }
        let ghost with_vlib = steps_view(steps@);
        if self.filesystem_library_open {
            steps.push(TeardownStep::CloseFilesystemLibrary);
            self.filesystem_library_open = false;
        }
        let ghost with_flib = steps_view(steps@);
        let device = self.loop_device.take();
        match device {
            Some(d) => {
                steps.push(TeardownStep::DetachLoopDevice(d));
            },
            None => {},
        }
        proof {
            let vpart: Seq<TeardownStepView> = match before.volume {
                Some(v) => seq![TeardownStepView::DeactivateLogicalVolume(v.0, v.1)],
                None => seq![],
            };
            let lpart: Seq<TeardownStepView> = if before.volume_library_open {
                seq![TeardownStepView::CloseVolumeLibrary]
            } else {
                seq![]
            };
            let fpart: Seq<TeardownStepView> = if before.filesystem_library_open {
                seq![TeardownStepView::CloseFilesystemLibrary]
            } else {
                seq![]
            };
            let dpart: Seq<TeardownStepView> = match before.loop_device {
                Some(d) => seq![TeardownStepView::DetachLoopDevice(d)],
                None => seq![],
            };
            assert(with_volume =~= unmounts + vpart);
            assert(with_vlib =~= unmounts + vpart + lpart);
            assert(with_flib =~= unmounts + vpart + lpart + fpart);
            assert(steps_view(steps@) =~= unmounts + vpart + lpart + fpart + dpart);
        }
        steps
    }
}

/// Releasing twice releases nothing the second time: once a teardown plan
/// has been taken, nothing is held, and the plan of nothing held is empty.
pub proof fn lemma_teardown_once(r: ResourcesView)
    requires
        holds_nothing(r),
    ensures
        teardown_spec(r) == Seq::<TeardownStepView>::empty(),
{
    assert(targets_of(r.mounts).reverse() =~= Seq::<Seq<char>>::empty());
    assert(teardown_spec(r) =~= Seq::<TeardownStepView>::empty());
}

/// The failure texts among `outcomes`, in order.
pub open spec fn failures(outcomes: Seq<StepOutcome>) -> Seq<Seq<char>>
    decreases outcomes.len(),
{
    if outcomes.len() == 0 {
        seq![]
    } else {
        let rest = failures(outcomes.drop_last());
        match failure_of(outcomes.last()) {
            Some(m) => rest.push(m),
            None => rest,
        }
    }
}

/// Sums up a teardown in which every step was attempted: `Ok` when every
/// step succeeded, else every failure text, in step order.
pub fn teardown_report(outcomes: &Vec<StepOutcome>) -> (r: Result<(), Vec<String>>)
    ensures
        r is Ok <==> failures(outcomes@).len() == 0,
        r matches Err(all) ==> all@.map_values(|m: String| m@) == failures(outcomes@),
{
    let mut found: Vec<String> = Vec::new();
    let mut i: usize = 0;
    while i < outcomes.len()
        invariant
            i <= outcomes@.len(),
            found@.map_values(|m: String| m@) == failures(outcomes@.take(i as int)),
        decreases outcomes.len() - i,
    {
        proof {
            assert(outcomes@.take(i + 1).drop_last() =~= outcomes@.take(i as int));
        }
        match &outcomes[i] {
            StepOutcome::Failed(m) => {
                found.push(m.clone());
            },
            StepOutcome::Succeeded => {},
        }
        assert(found@.map_values(|m: String| m@) =~= failures(outcomes@.take(i + 1)));
        i = i + 1;
    }
    assert(outcomes@.take(i as int) =~= outcomes@);
    if found.len() == 0 {
        Ok(())
    } else {
        Err(found)
    }
}

} // verus!
