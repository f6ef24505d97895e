use vstd::prelude::*;

use crate::step::{failure_of, StepOutcome};

verus! {

/// Why a loop device could not be bound or released.
#[derive(Clone, Debug)]
pub enum BindError {
    /// The file already backs a bound loop device.
    AlreadyAttached { backing_path: String, device_path: String },
    /// The system has no unused loop device.
    NoFreeDevice,
    /// The device could not be released; it is still in use.
    Busy(String),
    /// Any other failure of the system, with its text.
    Os(String),
}

/// `<device><suffix>`: the node of a partition of a loop device, such as
/// `/dev/loop0p1`.
pub open spec fn partition_path_spec(device: Seq<char>, suffix: Seq<char>) -> Seq<char> {
    device + suffix
}

/// Appends a partition suffix (`p1`, `p2`, ...) to a device path.
pub fn get_partition_path(device_path: &str, partition: &str) -> (r: String)
    ensures
        r@ == partition_path_spec(device_path@, partition@),
{
    let mut p = String::from_str(device_path);
    p.append(partition);
    p
}

/// A loop device bound to an image file.
#[derive(Debug)]
pub struct LoopDeviceHandle {
    device_path: String,
    backing_path: String,
    attached: bool,
}

/// Mathematical model of a [`LoopDeviceHandle`].
pub struct LoopHandleView {
    pub device: Seq<char>,
    pub backing: Seq<char>,
    pub attached: bool,
}

impl View for LoopDeviceHandle {
    type V = LoopHandleView;

    closed spec fn view(&self) -> LoopHandleView {
        LoopHandleView {
            device: self.device_path@,
            backing: self.backing_path@,
            attached: self.attached,
        }
    }
}

impl LoopDeviceHandle {
    /// The device node assigned by the system, such as `/dev/loop0`.
    pub fn device_path(&self) -> (r: String)
        ensures
            r@ == self@.device,
    {
        self.device_path.clone()
    }

    /// The image file behind the device.
    pub fn backing_path(&self) -> (r: String)
        ensures
            r@ == self@.backing,
    {
        self.backing_path.clone()
    }

    pub fn is_attached(&self) -> (r: bool)
        ensures
            r == self@.attached,
    {
        self.attached
    }

    /// The node of partition `partition` (such as `p1`) of this device.
    pub fn partition_path(&self, partition: &str) -> (r: String)
        ensures
            r@ == partition_path_spec(self@.device, partition@),
    {
        get_partition_path(self.device_path.as_str(), partition)
    }

    /// The device to unbind, or `None` when the handle is already detached:
    /// detaching a second time does nothing.
    pub fn detach_target(&self) -> (r: Option<String>)
        ensures
            self@.attached ==> (r matches Some(d) && d@ == self@.device),
            !self@.attached ==> r is None,
    {
        if self.attached {
            Some(self.device_path.clone())
        } else {
            None
        }
    }

    /// Takes the outcome of unbinding [`Self::detach_target`]. Returns
    /// whether the device was released now (`false`: it already was).
    pub fn record_detach(&mut self, outcome: StepOutcome) -> (r: Result<bool, BindError>)
        ensures
            final(self)@.device == old(self)@.device,
            final(self)@.backing == old(self)@.backing,
            !old(self)@.attached ==> r == Ok::<bool, BindError>(false) && !final(self)@.attached,
            old(self)@.attached && failure_of(outcome) is None ==> r == Ok::<bool, BindError>(true)
                && !final(self)@.attached,
            old(self)@.attached && failure_of(outcome) is Some ==> (r matches Err(
                BindError::Busy(m),
            ) && failure_of(outcome) == Some(m@) && final(self)@.attached),
    {
        if !self.attached {
            return Ok(false);
        }
        match outcome {
            StepOutcome::Succeeded => {
                self.attached = false;
                Ok(true)
            },
            StepOutcome::Failed(m) => Err(BindError::Busy(m)),
        }
    }
}

/// One binding: an image file and the loop device it backs.
pub struct Binding {
    pub backing: Seq<char>,
    pub device: Seq<char>,
}

/// `path` backs one of the bound devices.
pub open spec fn is_bound(bindings: Seq<Binding>, path: Seq<char>) -> bool {
    exists|i: int| 0 <= i < bindings.len() && (#[trigger] bindings[i]).backing == path
}

/// Keeps track of which image files back a loop device, so that a file is
/// never bound twice.
pub struct LoopBinder {
    backing: Vec<String>,
    devices: Vec<String>,
}

impl View for LoopBinder {
    type V = Seq<Binding>;

    closed spec fn view(&self) -> Seq<Binding> {
        Seq::new(
            self.backing@.len(),
            |i: int| Binding { backing: self.backing@[i]@, device: self.devices@[i]@ },
        )
    }
}

impl LoopBinder {
    /// Both lists have one item per binding, and no file backs two devices.
    pub closed spec fn wf(&self) -> bool {
        &&& self.backing@.len() == self.devices@.len()
        &&& forall|i: int, j: int|
            0 <= i < j < self.backing@.len() ==> #[trigger] self.backing@[i]@
                != #[trigger] self.backing@[j]@
    }

    /// A binder with nothing bound.
    pub fn new() -> (r: LoopBinder)
        ensures
            r.wf(),
            r@ == Seq::<Binding>::empty(),
    {
        let r = LoopBinder { backing: Vec::new(), devices: Vec::new() };
        assert(r@ =~= Seq::<Binding>::empty());
        r
    }

    fn find(&self, image_path: &str) -> (r: Option<usize>)
        requires
            self.wf(),
        ensures
            r matches Some(i) ==> i < self@.len() && self@[i as int].backing == image_path@,
            r is None ==> !is_bound(self@, image_path@),
    {
        let key = String::from_str(image_path);
        let mut i: usize = 0;
        while i < self.backing.len()
            invariant
                self.backing@.len() == self.devices@.len(),
                key@ == image_path@,
                i <= self@.len(),
                forall|j: int| 0 <= j < i ==> (#[trigger] self@[j]).backing != image_path@,
            decreases self.backing.len() - i,
        {
            if self.backing[i] == key {
                return Some(i);
            }
            i = i + 1;
        }
        None
    }

    /// Whether `image_path` backs a bound device.
    pub fn is_bound(&self, image_path: &str) -> (r: bool)
        requires
            self.wf(),
        ensures
            r == is_bound(self@, image_path@),
    {
        self.find(image_path).is_some()
    }

    /// Refuses to bind a file that already backs a device; the caller asks
    /// the system for a device only when this succeeds.
    pub fn check_attach(&self, image_path: &str) -> (r: Result<(), BindError>)
        requires
            self.wf(),
        ensures
            r is Ok <==> !is_bound(self@, image_path@),
            r matches Err(e) ==> (e matches BindError::AlreadyAttached { backing_path, .. }
                && backing_path@ == image_path@),
    {
        match self.find(image_path) {
            Some(i) => Err(
                BindError::AlreadyAttached {
                    backing_path: self.backing[i].clone(),
                    device_path: self.devices[i].clone(),
                },
            ),
            None => Ok(()),
        }
    }

    /// Takes what the system answered when asked to bind `image_path` to
    /// the next free device: the node of that device, or the failure. A file
    /// that is already bound is refused whatever the answer.
    pub fn record_attach(&mut self, image_path: &str, bound: Result<String, BindError>) -> (r:
        Result<LoopDeviceHandle, BindError>)
        requires
            old(self).wf(),
        ensures
            final(self).wf(),
            is_bound(old(self)@, image_path@) ==> (r matches Err(BindError::AlreadyAttached {
                backing_path,
                ..
            }) && backing_path@ == image_path@) && final(self)@ == old(self)@,
            !is_bound(old(self)@, image_path@) && bound is Err ==> (r matches Err(e) && bound
                == Err::<String, BindError>(e)) && final(self)@ == old(self)@,
            !is_bound(old(self)@, image_path@) && bound is Ok ==> (r matches Ok(h) && h@.device
                == bound->Ok_0@ && h@.backing == image_path@ && h@.attached) && final(self)@
                == old(self)@.push(Binding { backing: image_path@, device: bound->Ok_0@ }),
            r is Ok ==> is_bound(final(self)@, image_path@),
    {
        if let Err(e) = self.check_attach(image_path) {
            return Err(e);
        }
        match bound {
            Ok(device) => {
                let ghost before = self@;
                self.backing.push(String::from_str(image_path));
                self.devices.push(device.clone());
                assert(self@ =~= before.push(Binding { backing: image_path@, device: device@ }));
                proof {
                    lemma_bound_file_refused(before, image_path@, device@);
                }
                assert forall|i: int, j: int|
                    0 <= i < j < self.backing@.len() implies #[trigger] self.backing@[i]@
                    != #[trigger] self.backing@[j]@ by {
                    if j == before.len() {
                        assert(before[i].backing == self.backing@[i]@);
                    }
                }
                Ok(
                    LoopDeviceHandle {
                        device_path: device,
                        backing_path: String::from_str(image_path),
                        attached: true,
                    },
                )
            },
            Err(e) => Err(e),
        }
    }

    /// Forgets the binding of a handle that has been detached.
    pub fn release(&mut self, handle: &LoopDeviceHandle)
        requires
            old(self).wf(),
            !handle@.attached,
        ensures
            final(self).wf(),
            !is_bound(final(self)@, handle@.backing),
            !is_bound(old(self)@, handle@.backing) ==> final(self)@ == old(self)@,
            is_bound(old(self)@, handle@.backing) ==> exists|i: int|
                0 <= i < old(self)@.len() && (#[trigger] old(self)@[i]).backing == handle@.backing
                    && final(self)@ == old(self)@.remove(i),
    {
        match self.find(handle.backing_path.as_str()) {
            None => {},
            Some(i) => {
                let ghost before = self@;
                self.backing.remove(i);
                self.devices.remove(i);
                assert(self@ =~= before.remove(i as int));
                assert forall|j: int| 0 <= j < self@.len() implies (#[trigger] self@[j]).backing
                    != handle@.backing by {
                    if j < i {
                        assert(self@[j] == before[j]);
                    } else {
                        assert(self@[j] == before[j + 1]);
                    }
                }
            },
        }
    }
}

/// Once a file has been bound, asking to bind it again is refused with
/// [`BindError::AlreadyAttached`] until its handle is detached and released.
pub proof fn lemma_bound_file_refused(bindings: Seq<Binding>, path: Seq<char>, device: Seq<char>)
    ensures
        is_bound(bindings.push(Binding { backing: path, device }), path),
{
    let after = bindings.push(Binding { backing: path, device });
    assert(after[bindings.len() as int].backing == path);
}

} // verus!
