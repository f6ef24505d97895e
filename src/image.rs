use vstd::prelude::*;

use crate::loop_device::{partition_path_spec, LoopDeviceHandle};
use crate::lvm::{lv_device_path, LogicalVolumeRef};

verus! {

/// One step of releasing an image's resources.
#[derive(Debug)]
pub enum TeardownStep {
    /// Unmount (lazily, detaching a busy mount) this target.
    Unmount(String),
    DeactivateLogicalVolume(LogicalVolumeRef),
    CloseVolumeLibrary,
    CloseFilesystemLibrary,
    /// Unbind this loop device.
    DetachLoopDevice(String),
}

/// Mathematical model of a [`TeardownStep`].
pub enum TeardownStepView {
    Unmount(Seq<char>),
    DeactivateLogicalVolume(Seq<char>, Seq<char>),
    CloseVolumeLibrary,
    CloseFilesystemLibrary,
    DetachLoopDevice(Seq<char>),
}

impl View for TeardownStep {
    type V = TeardownStepView;

    open spec fn view(&self) -> TeardownStepView {
        match self {
            TeardownStep::Unmount(t) => TeardownStepView::Unmount(t@),
            TeardownStep::DeactivateLogicalVolume(lv) => TeardownStepView::DeactivateLogicalVolume(
                lv.vg_name@,
                lv.lv_name@,
            ),
            TeardownStep::CloseVolumeLibrary => TeardownStepView::CloseVolumeLibrary,
            TeardownStep::CloseFilesystemLibrary => TeardownStepView::CloseFilesystemLibrary,
            TeardownStep::DetachLoopDevice(d) => TeardownStepView::DetachLoopDevice(d@),
        }
    }
}

pub open spec fn steps_view(steps: Seq<TeardownStep>) -> Seq<TeardownStepView> {
    steps.map_values(|s: TeardownStep| s@)
}

/// What downstream steps need to know of a built image: where its root
/// and boot filesystems live, and how to release it.
pub trait ImageInfo {
    spec fn root_path_spec(&self) -> Seq<char>;

    spec fn boot_path_spec(&self) -> Seq<char>;

    /// The image has been released.
    spec fn is_detached(&self) -> bool;

    /// The steps that release the image, in order.
    spec fn release_steps(&self) -> Seq<TeardownStepView>;

    /// The device of the root filesystem.
    fn root_path(&self) -> (r: String)
        ensures
            r@ == self.root_path_spec(),
    ;

    /// The device of the boot filesystem.
    fn boot_path(&self) -> (r: String)
        ensures
            r@ == self.boot_path_spec(),
    ;

    /// Marks the image released and returns the steps that release it; once
    /// released, there is nothing left to do and no step is returned.
    fn detach(&mut self) -> (r: Vec<TeardownStep>)
        ensures
            final(self).is_detached(),
            final(self).root_path_spec() == old(self).root_path_spec(),
            final(self).boot_path_spec() == old(self).boot_path_spec(),
            old(self).is_detached() ==> r@.len() == 0,
            !old(self).is_detached() ==> steps_view(r@) == old(self).release_steps(),
    ;
}

/// An image built on this machine: its logical volume and the loop device
/// that carries it.
pub struct RuntimeImageInfo {
    vg_name: String,
    lv_name: String,
    device: LoopDeviceHandle,
    detached: bool,
}

/// Mathematical model of a [`RuntimeImageInfo`].
pub struct RuntimeImageView {
    pub vg_name: Seq<char>,
    pub lv_name: Seq<char>,
    pub device: Seq<char>,
    pub detached: bool,
}

impl View for RuntimeImageInfo {
    type V = RuntimeImageView;

    closed spec fn view(&self) -> RuntimeImageView {
        RuntimeImageView {
            vg_name: self.vg_name@,
            lv_name: self.lv_name@,
            device: self.device@.device,
            detached: self.detached,
        }
    }
}

impl RuntimeImageInfo {
    pub fn new(vg_name: String, lv_name: String, device: LoopDeviceHandle) -> (r: RuntimeImageInfo)
        ensures
            r@.vg_name == vg_name@,
            r@.lv_name == lv_name@,
            r@.device == device@.device,
            !r@.detached,
    {
        RuntimeImageInfo { vg_name, lv_name, device, detached: false }
    }

    pub fn vg_name(&self) -> (r: String)
        ensures
            r@ == self@.vg_name,
    {
        self.vg_name.clone()
    }

    pub fn lv_name(&self) -> (r: String)
        ensures
            r@ == self@.lv_name,
    {
        self.lv_name.clone()
    }

    /// The loop device that carries the image.
    pub fn device(&self) -> (r: &LoopDeviceHandle)
        ensures
            r@.device == self@.device,
    {
        &self.device
    }
}

impl ImageInfo for RuntimeImageInfo {
    open spec fn root_path_spec(&self) -> Seq<char> {
        lv_device_path(self@.vg_name, self@.lv_name)
    }

    open spec fn boot_path_spec(&self) -> Seq<char> {
        partition_path_spec(self@.device, "p1"@)
    }

    open spec fn is_detached(&self) -> bool {
        self@.detached
    }

    /// Deactivate the logical volume, close the volume library, then unbind
    /// the loop device.
    open spec fn release_steps(&self) -> Seq<TeardownStepView> {
        seq![
            TeardownStepView::DeactivateLogicalVolume(self@.vg_name, self@.lv_name),
            TeardownStepView::CloseVolumeLibrary,
            TeardownStepView::DetachLoopDevice(self@.device),
        ]
    }

    fn root_path(&self) -> (r: String) {
        let lv = LogicalVolumeRef { vg_name: self.vg_name.clone(), lv_name: self.lv_name.clone() };
        lv.device_path()
    }

    fn boot_path(&self) -> (r: String) {
        self.device.partition_path("p1")
    }

    fn detach(&mut self) -> (r: Vec<TeardownStep>) {
        let mut steps: Vec<TeardownStep> = Vec::new();
        if !self.detached {
            steps.push(
                TeardownStep::DeactivateLogicalVolume(
                    LogicalVolumeRef { vg_name: self.vg_name.clone(), lv_name: self.lv_name.clone() },
                ),
            );
            steps.push(TeardownStep::CloseVolumeLibrary);
            steps.push(TeardownStep::DetachLoopDevice(self.device.device_path()));
            self.detached = true;
            assert(steps_view(steps@) =~= old(self).release_steps());
        }
        steps
    }
}

/// An image held only in memory, with fixed paths and nothing to release:
/// stands in for a built image where no device exists.
pub struct StaticImageInfo {
    root: String,
    boot: String,
    detached: bool,
}

/// Mathematical model of a [`StaticImageInfo`].
pub struct StaticImageView {
    pub root: Seq<char>,
    pub boot: Seq<char>,
    pub detached: bool,
}

impl View for StaticImageInfo {
    type V = StaticImageView;

    closed spec fn view(&self) -> StaticImageView {
        StaticImageView { root: self.root@, boot: self.boot@, detached: self.detached }
    }
}

impl StaticImageInfo {
    pub fn new(root: String, boot: String) -> (r: StaticImageInfo)
        ensures
            r@.root == root@,
            r@.boot == boot@,
            !r@.detached,
    {
        StaticImageInfo { root, boot, detached: false }
    }
}

impl ImageInfo for StaticImageInfo {
    open spec fn root_path_spec(&self) -> Seq<char> {
        self@.root
    }

    open spec fn boot_path_spec(&self) -> Seq<char> {
        self@.boot
    }

    open spec fn is_detached(&self) -> bool {
        self@.detached
    }

    open spec fn release_steps(&self) -> Seq<TeardownStepView> {
        Seq::empty()
    }

    fn root_path(&self) -> (r: String) {
        self.root.clone()
    }

    fn boot_path(&self) -> (r: String) {
        self.boot.clone()
    }

    fn detach(&mut self) -> (r: Vec<TeardownStep>) {
        self.detached = true;
        let r: Vec<TeardownStep> = Vec::new();
        assert(steps_view(r@) =~= Seq::<TeardownStepView>::empty());
        r
    }
}

} // verus!
