use pi_image_builder::filesystem::{create, create_image_file_systems, FormatError, FsKind, FsLibrary};
use pi_image_builder::image::{ImageInfo, RuntimeImageInfo, StaticImageInfo, TeardownStep};
use pi_image_builder::lifecycle::{teardown_report, ImageResources};
use pi_image_builder::loop_device::LoopBinder;
use pi_image_builder::lvm::{Error, LVMVGData, LogicalVolumeRef, LvmReply, StackBuilder};
use pi_image_builder::mount::mount_plan;
use pi_image_builder::step::StepOutcome;

fn describe(steps: &[TeardownStep]) -> Vec<String> {
    steps
        .iter()
        .map(|s| match s {
            TeardownStep::Unmount(t) => format!("unmount {}", t),
            TeardownStep::DeactivateLogicalVolume(lv) => format!("deactivate {}/{}", lv.vg_name, lv.lv_name),
            TeardownStep::CloseVolumeLibrary => "close lvm".to_string(),
            TeardownStep::CloseFilesystemLibrary => "close fs".to_string(),
            TeardownStep::DetachLoopDevice(d) => format!("detach {}", d),
        })
        .collect()
}

fn runtime_image() -> RuntimeImageInfo {
    let mut binder = LoopBinder::new();
    let h = binder.record_attach("lady_tel_test.img", Ok("/dev/loop0".to_string())).unwrap();
    RuntimeImageInfo::new("rootvg".to_string(), "rootlv".to_string(), h)
}

#[test]
fn runtime_image_paths() {
    let image = runtime_image();
    assert_eq!(image.root_path(), "/dev/rootvg/rootlv");
    assert_eq!(image.boot_path(), "/dev/loop0p1");
    assert_eq!(image.vg_name(), "rootvg");
    assert_eq!(image.lv_name(), "rootlv");
    assert_eq!(image.device().device_path(), "/dev/loop0");
}

#[test]
fn runtime_image_detaches_once() {
    let mut image = runtime_image();
    assert_eq!(
        describe(&image.detach()),
        vec!["deactivate rootvg/rootlv", "close lvm", "detach /dev/loop0"]
    );
    assert!(image.detach().is_empty());
}

#[test]
fn formats_boot_as_fat32_and_volume_as_ext4() {
    let image = runtime_image();
    let requests = create_image_file_systems(&image);
    assert_eq!(requests.len(), 2);
    assert_eq!(requests[0].target, "/dev/loop0p1");
    assert_eq!(requests[0].kind, FsKind::Fat32);
    assert_eq!(requests[0].options, vec![("-F".to_string(), "32".to_string())]);
    assert_eq!(requests[1].target, "/dev/rootvg/rootlv");
    assert_eq!(requests[1].kind, FsKind::Ext4);
    assert!(requests[1].options.is_empty());
}

#[test]
fn in_memory_image() {
    let mut image = StaticImageInfo::new("/dev/mapper/rootvg-rootlv".to_string(), "/dev/sda1".to_string());
    let requests = create(&image);
    assert_eq!(requests[0].target, "/dev/sda1");
    assert_eq!(requests[1].target, "/dev/mapper/rootvg-rootlv");
    assert!(image.detach().is_empty());
    assert_eq!(image.root_path(), "/dev/mapper/rootvg-rootlv");
}

#[test]
fn filesystem_library_initialises_once() {
    let mut lib = FsLibrary::new();
    assert!(lib.needs_init());
    assert!(matches!(lib.record_init(false), Err(FormatError::InitFailed)));
    assert!(lib.needs_init());
    assert!(!lib.take_close());
    assert!(lib.record_init(true).is_ok());
    assert!(!lib.needs_init());
    // a second initialisation is not an error
    assert!(lib.record_init(false).is_ok());
    assert!(lib.take_close());
    assert!(!lib.take_close());
}

#[test]
fn format_failure_aborts() {
    let lib = FsLibrary::new();
    let image = runtime_image();
    let requests = create_image_file_systems(&image);
    assert!(lib.record_format(&requests[1], true).is_ok());
    match lib.record_format(&requests[1], false) {
        Err(FormatError::FormatFailed { target }) => assert_eq!(target, "/dev/rootvg/rootlv"),
        other => panic!("{:?}", other),
    }
}

#[test]
fn teardown_runs_in_reverse_creation_order_once() {
    let mut res = ImageResources::new();
    for m in mount_plan("/dev/rootvg/rootlv", "/dev/loop0p1", "./fake-root") {
        res.mounts.record(m);
    }
    res.volume = Some(LogicalVolumeRef { vg_name: "rootvg".to_string(), lv_name: "rootlv".to_string() });
    res.volume_library_open = true;
    res.filesystem_library_open = true;
    res.loop_device = Some("/dev/loop0".to_string());
    assert_eq!(
        describe(&res.teardown_plan()),
        vec![
            "unmount ./fake-root/dev",
            "unmount ./fake-root/sys",
            "unmount ./fake-root/proc",
            "unmount ./fake-root/boot",
            "unmount ./fake-root",
            "deactivate rootvg/rootlv",
            "close lvm",
            "close fs",
            "detach /dev/loop0",
        ]
    );
    assert!(res.teardown_plan().is_empty());
}

#[test]
fn teardown_after_partial_build_releases_only_what_exists() {
    let mut res = ImageResources::new();
    res.volume_library_open = true;
    res.loop_device = Some("/dev/loop4".to_string());
    assert_eq!(describe(&res.teardown_plan()), vec!["close lvm", "detach /dev/loop4"]);
    assert!(ImageResources::new().teardown_plan().is_empty());
}

#[test]
fn teardown_report_keeps_every_failure() {
    assert!(teardown_report(&vec![StepOutcome::Succeeded, StepOutcome::Succeeded]).is_ok());
    assert!(teardown_report(&vec![]).is_ok());
    let r = teardown_report(&vec![
        StepOutcome::Failed("umount: target is busy".to_string()),
        StepOutcome::Succeeded,
        StepOutcome::Failed("loop0: Device or resource busy".to_string()),
    ]);
    assert_eq!(
        r.unwrap_err(),
        vec!["umount: target is busy".to_string(), "loop0: Device or resource busy".to_string()]
    );
}

#[test]
fn resources_follow_the_build() {
    let mut res = ImageResources::new();
    let mut binder = LoopBinder::new();
    let handle = binder.record_attach("img", Ok("/dev/loop5".to_string())).unwrap();
    res.record_loop_device(&handle);

    let mut stack = StackBuilder::new("/dev/loop5p2");
    stack.on_reply(LvmReply::Succeeded);
    res.record_volume_stack(&stack);
    assert!(!stack.opened_library());
    assert!(!res.volume_library_open);
    stack.on_reply(LvmReply::Succeeded);
    res.record_volume_stack(&stack);
    assert!(stack.opened_library());
    assert!(res.volume_library_open);
    assert!(res.volume.is_none());
    assert!(stack.created_volume().is_none());

    let mut fs = FsLibrary::new();
    fs.record_init(true).unwrap();
    res.record_filesystem_library(&fs);
    assert!(res.filesystem_library_open);
    assert!(fs.take_close());
    res.record_filesystem_library(&fs);
    assert!(!res.filesystem_library_open);

    // the physical volume cannot be created: the library stays to be closed
    stack.on_reply(LvmReply::Failed(Error::new("no space".to_string())));
    res.record_volume_stack(&stack);
    assert_eq!(describe(&res.teardown_plan()), vec!["close lvm", "detach /dev/loop5"]);
}

#[test]
fn created_volume_is_recorded() {
    let mut stack = StackBuilder::new("/dev/loop0p2");
    for _ in 0..4 {
        stack.on_reply(LvmReply::Succeeded);
    }
    stack.on_reply(LvmReply::VolumeGroup(Some(LVMVGData {
        name: "rootvg".to_string(),
        uuid: "x".to_string(),
        size: 4 * 1024 * 1024,
        free: 0,
        extent_size: 4 * 1024 * 1024,
        extent_count: 1,
        free_count: 0,
        pv_count: 1,
    })));
    stack.on_reply(LvmReply::Succeeded);
    let lv = stack.created_volume().unwrap();
    assert_eq!((lv.vg_name.as_str(), lv.lv_name.as_str()), ("rootvg", "rootlv"));
    let mut res = ImageResources::new();
    res.record_volume_stack(&stack);
    assert_eq!(describe(&res.teardown_plan()), vec!["deactivate rootvg/rootlv", "close lvm"]);
}
