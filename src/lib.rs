//! Provisioning of a bootable disk image: the partition layout and its MBR
//! sector, the loop device that carries the image, the volume stack built on
//! it, the filesystems, the mounts in dependency order, and the release of
//! all of it in reverse order.
//!
//! The operating system and the native libraries are driven by the caller:
//! the components here decide what to do next and what each answer means.

use vstd::prelude::*;

pub mod configuration;
pub mod filesystem;
pub mod image;
pub mod lifecycle;
pub mod loop_device;
pub mod lvm;
pub mod mbr;
pub mod mount;
pub mod partition;
pub mod paths;
pub mod step;

verus! {

} // verus!
