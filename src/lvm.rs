use vstd::prelude::*;

verus! {

/// A failure of the native volume library, with the library's own message.
#[derive(Clone, Debug)]
pub struct Error {
    message: String,
}

impl View for Error {
    type V = Seq<char>;

    closed spec fn view(&self) -> Seq<char> {
        self.message@
    }
}

impl Error {
    pub fn new(message: String) -> (r: Error)
        ensures
            r@ == message@,
    {
        Error { message }
    }

    /// The library's diagnostic text.
    pub fn message(&self) -> (r: String)
        ensures
            r@ == self@,
    {
        self.message.clone()
    }
}

/// A snapshot of a volume group, as the native library reports it. Sizes
/// are in bytes; the counts are in extents or physical volumes.
#[derive(Clone, Debug)]
pub struct LVMVGData {
    pub name: String,
    pub uuid: String,
    pub size: u64,
    pub free: u64,
    pub extent_size: u64,
    pub extent_count: u64,
    pub free_count: u64,
    pub pv_count: u64,
}

/// A snapshot of a linear logical volume, as the native library reports it.
#[derive(Clone, Debug)]
pub struct LVMLVData {
    pub lv_name: String,
    pub vg_name: String,
    pub uuid: String,
    pub size: u64,
    pub attributes: String,
    pub segment_type: String,
    pub origin: String,
}

pub open spec fn volume_group_name() -> Seq<char> {
    "rootvg"@
}

pub open spec fn logical_volume_name() -> Seq<char> {
    "rootlv"@
}

pub open spec fn linear_segment_type() -> Seq<char> {
    "linear"@
}

/// `/dev/<vg>/<lv>`: the device node of a logical volume.
pub open spec fn lv_device_path(vg: Seq<char>, lv: Seq<char>) -> Seq<char> {
    "/dev/"@ + vg + "/"@ + lv
}

/// The addressing key of a logical volume: its volume group and its name.
#[derive(Clone, Debug)]
pub struct LogicalVolumeRef {
    pub vg_name: String,
    pub lv_name: String,
}

impl LogicalVolumeRef {
    /// The device node of the volume, `/dev/<vg_name>/<lv_name>`.
    pub fn device_path(&self) -> (r: String)
        ensures
            r@ == lv_device_path(self.vg_name@, self.lv_name@),
    {
        let mut p = String::from_str("/dev/");
        p.append(self.vg_name.as_str());
        p.append("/");
        p.append(self.lv_name.as_str());
        p
    }
}

/// Where building the volume stack stands.
#[derive(Clone, Copy, Debug, PartialEq, Eq, Structural)]
pub enum StackStage {
    Start,
    DependenciesChecked,
    Initialized,
    PhysicalVolumeCreated,
    VolumeGroupCreated,
    /// The volume group's capacity has been read back.
    Sized,
    Created,
    Failed,
}

/// A call that the caller must make on the native volume library.
#[derive(Debug)]
pub enum LvmRequest {
    CheckDependencies,
    Initialize,
    CreatePhysicalVolume { device: String },
    CreateVolumeGroup { name: String, physical_volume: String },
    QueryVolumeGroup { name: String },
    CreateLogicalVolume { volume_group: String, name: String, size: u64, segment_type: String },
    /// The stack stands; nothing more to call.
    Finished(LogicalVolumeRef),
    /// A call failed; nothing more to call.
    Failed(Error),
}

/// What the native library answered.
#[derive(Debug)]
pub enum LvmReply {
    Succeeded,
    Failed(Error),
    /// The answer to a volume group query; `None` when no such group exists.
    VolumeGroup(Option<LVMVGData>),
}

/// Mathematical model of a [`StackBuilder`].
pub struct StackBuilderView {
    pub device: Seq<char>,
    pub stage: StackStage,
    /// The native library was initialised by this build.
    pub library_open: bool,
    pub lv_size: u64,
    pub failure: Seq<char>,
}

pub open spec fn unexpected_reply_message() -> Seq<char> {
    "the reply does not answer the request"@
}

pub open spec fn missing_group_message() -> Seq<char> {
    "the volume group was not found after its creation"@
}

/// The stage that follows `stage` when its call succeeds.
pub open spec fn stage_after_success(stage: StackStage) -> StackStage {
    match stage {
        StackStage::Start => StackStage::DependenciesChecked,
        StackStage::DependenciesChecked => StackStage::Initialized,
        StackStage::Initialized => StackStage::PhysicalVolumeCreated,
        StackStage::PhysicalVolumeCreated => StackStage::VolumeGroupCreated,
        StackStage::VolumeGroupCreated => StackStage::Sized,
        StackStage::Sized => StackStage::Created,
        StackStage::Created => StackStage::Created,
        StackStage::Failed => StackStage::Failed,
    }
}

pub open spec fn is_finished(stage: StackStage) -> bool {
    stage == StackStage::Created || stage == StackStage::Failed
}

pub open spec fn failed_with(v: StackBuilderView, message: Seq<char>) -> StackBuilderView {
    StackBuilderView { stage: StackStage::Failed, failure: message, ..v }
}

/// The builder's state after the library answers `reply` to the request of
/// state `v`.
pub open spec fn stack_after(v: StackBuilderView, reply: LvmReply) -> StackBuilderView {
    if is_finished(v.stage) {
        v
    } else if v.stage == StackStage::VolumeGroupCreated {
        match reply {
            LvmReply::VolumeGroup(Some(g)) => if g.name@ == volume_group_name() {
                StackBuilderView { stage: StackStage::Sized, lv_size: g.size, ..v }
            } else {
                failed_with(v, unexpected_reply_message())
            },
            LvmReply::VolumeGroup(None) => failed_with(v, missing_group_message()),
            LvmReply::Failed(e) => failed_with(v, e@),
            LvmReply::Succeeded => failed_with(v, unexpected_reply_message()),
        }
    } else {
        match reply {
            LvmReply::Succeeded => StackBuilderView {
                stage: stage_after_success(v.stage),
                library_open: v.library_open || v.stage == StackStage::DependenciesChecked,
                ..v
            },
            LvmReply::Failed(e) => failed_with(v, e@),
            LvmReply::VolumeGroup(_) => failed_with(v, unexpected_reply_message()),
        }
    }
}

/// Builds the volume stack on a data partition, one native call at a time:
/// check the library's dependencies, initialise it, create a physical volume
/// on the partition, a volume group `rootvg` over it, read the group's
/// capacity back (from an answer that describes `rootvg` itself), and create
/// a linear logical volume `rootlv` of exactly that size. The first failure ends the build; nothing is retried.
pub struct StackBuilder {
    device: String,
    stage: StackStage,
    library_open: bool,
    lv_size: u64,
    failure: String,
}

impl View for StackBuilder {
    type V = StackBuilderView;

    closed spec fn view(&self) -> StackBuilderView {
        StackBuilderView {
            device: self.device@,
            stage: self.stage,
            library_open: self.library_open,
            lv_size: self.lv_size,
            failure: self.failure@,
        }
    }
}

impl StackBuilder {
    /// Starts building a stack on the partition at `device`.
    pub fn new(device: &str) -> (r: StackBuilder)
        ensures
            r@.device == device@,
            r@.stage == StackStage::Start,
            !r@.library_open,
    {
        StackBuilder {
            device: String::from_str(device),
            stage: StackStage::Start,
            library_open: false,
            lv_size: 0,
            failure: String::new(),
        }
    }

    /// The call that the caller must make next.
    pub fn next_request(&self) -> (r: LvmRequest)
        ensures
            self@.stage == StackStage::Start ==> r is CheckDependencies,
            self@.stage == StackStage::DependenciesChecked ==> r is Initialize,
            self@.stage == StackStage::Initialized ==> (r matches LvmRequest::CreatePhysicalVolume {
                device,
            } && device@ == self@.device),
            self@.stage == StackStage::PhysicalVolumeCreated ==> (
            r matches LvmRequest::CreateVolumeGroup { name, physical_volume } && name@
                == volume_group_name() && physical_volume@ == self@.device),
            self@.stage == StackStage::VolumeGroupCreated ==> (
            r matches LvmRequest::QueryVolumeGroup { name } && name@ == volume_group_name()),
            self@.stage == StackStage::Sized ==> (r matches LvmRequest::CreateLogicalVolume {
                volume_group,
                name,
                size,
                segment_type,
            } && volume_group@ == volume_group_name() && name@ == logical_volume_name() && size
                == self@.lv_size && segment_type@ == linear_segment_type()),
            self@.stage == StackStage::Created ==> (r matches LvmRequest::Finished(lv)
                && lv.vg_name@ == volume_group_name() && lv.lv_name@ == logical_volume_name()),
            self@.stage == StackStage::Failed ==> (r matches LvmRequest::Failed(e) && e@
                == self@.failure),
    {
        match self.stage {
            StackStage::Start => LvmRequest::CheckDependencies,
            StackStage::DependenciesChecked => LvmRequest::Initialize,
            StackStage::Initialized => LvmRequest::CreatePhysicalVolume {
                device: self.device.clone(),
            },
            StackStage::PhysicalVolumeCreated => LvmRequest::CreateVolumeGroup {
                name: String::from_str("rootvg"),
                physical_volume: self.device.clone(),
            },
            StackStage::VolumeGroupCreated => LvmRequest::QueryVolumeGroup {
                name: String::from_str("rootvg"),
            },
            StackStage::Sized => LvmRequest::CreateLogicalVolume {
                volume_group: String::from_str("rootvg"),
                name: String::from_str("rootlv"),
                size: self.lv_size,
                segment_type: String::from_str("linear"),
            },
            StackStage::Created => LvmRequest::Finished(
                LogicalVolumeRef {
                    vg_name: String::from_str("rootvg"),
                    lv_name: String::from_str("rootlv"),
                },
            ),
            StackStage::Failed => LvmRequest::Failed(Error::new(self.failure.clone())),
        }
    }

    /// Takes the library's answer to the request of [`Self::next_request`].
    pub fn on_reply(&mut self, reply: LvmReply)
        ensures
            final(self)@ == stack_after(old(self)@, reply),
    {
        if self.stage == StackStage::Created || self.stage == StackStage::Failed {
            return ;
        }
        if self.stage == StackStage::VolumeGroupCreated {
            match reply {
                LvmReply::VolumeGroup(Some(g)) => {
                    if g.name == String::from_str("rootvg") {
                        self.stage = StackStage::Sized;
                        self.lv_size = g.size;
                    } else {
                        self.fail(String::from_str("the reply does not answer the request"));
                    }
                },
                LvmReply::VolumeGroup(None) => {
                    self.fail(String::from_str("the volume group was not found after its creation"));
                },
                LvmReply::Failed(e) => {
                    self.fail(e.message());
                },
                LvmReply::Succeeded => {
                    self.fail(String::from_str("the reply does not answer the request"));
                },
            }
        } else {
            match reply {
                LvmReply::Succeeded => {
                    if self.stage == StackStage::DependenciesChecked {
                        self.library_open = true;
                    }
                    self.stage = match self.stage {
                        StackStage::Start => StackStage::DependenciesChecked,
                        StackStage::DependenciesChecked => StackStage::Initialized,
                        StackStage::Initialized => StackStage::PhysicalVolumeCreated,
                        StackStage::PhysicalVolumeCreated => StackStage::VolumeGroupCreated,
                        _ => StackStage::Created,
                    };
                },
                LvmReply::Failed(e) => {
                    self.fail(e.message());
                },
                LvmReply::VolumeGroup(_) => {
                    self.fail(String::from_str("the reply does not answer the request"));
                },
            }
        }
    }

    /// Whether this build initialised the native library, which must then
    /// be closed when the image is released.
    pub fn opened_library(&self) -> (r: bool)
        ensures
            r == self@.library_open,
    {
        self.library_open
    }

    /// The logical volume, once it has been created.
    pub fn created_volume(&self) -> (r: Option<LogicalVolumeRef>)
        ensures
            r is Some <==> self@.stage == StackStage::Created,
            r matches Some(lv) ==> lv.vg_name@ == volume_group_name() && lv.lv_name@
                == logical_volume_name(),
    {
        if self.stage == StackStage::Created {
            Some(
                LogicalVolumeRef {
                    vg_name: String::from_str("rootvg"),
                    lv_name: String::from_str("rootlv"),
                },
            )
        } else {
            None
        }
    }

    fn fail(&mut self, message: String)
        ensures
            final(self)@ == failed_with(old(self)@, message@),
    {
        self.stage = StackStage::Failed;
        self.failure = message;
    }
}

} // verus!
