use pi_image_builder::loop_device::{get_partition_path, BindError, LoopBinder};
use pi_image_builder::step::StepOutcome;

#[test]
fn second_attach_of_a_bound_file_is_refused() {
    let mut binder = LoopBinder::new();
    assert!(binder.check_attach("lady_tel_test.img").is_ok());
    let h = binder.record_attach("lady_tel_test.img", Ok("/dev/loop0".to_string())).unwrap();
    assert_eq!(h.device_path(), "/dev/loop0");
    assert_eq!(h.backing_path(), "lady_tel_test.img");
    assert!(h.is_attached());
    assert!(binder.is_bound("lady_tel_test.img"));

    match binder.check_attach("lady_tel_test.img") {
        Err(BindError::AlreadyAttached { backing_path, device_path }) => {
            assert_eq!(backing_path, "lady_tel_test.img");
            assert_eq!(device_path, "/dev/loop0");
        }
        other => panic!("expected AlreadyAttached, got {:?}", other),
    }
    // even when the system would hand out another device
    match binder.record_attach("lady_tel_test.img", Ok("/dev/loop1".to_string())) {
        Err(BindError::AlreadyAttached { device_path, .. }) => assert_eq!(device_path, "/dev/loop0"),
        other => panic!("expected AlreadyAttached, got {:?}", other),
    }
    // another file is still welcome
    let other = binder.record_attach("other.img", Ok("/dev/loop1".to_string())).unwrap();
    assert_eq!(other.device_path(), "/dev/loop1");
}

#[test]
fn system_failures_pass_through_without_binding() {
    let mut binder = LoopBinder::new();
    assert!(matches!(binder.record_attach("a.img", Err(BindError::NoFreeDevice)), Err(BindError::NoFreeDevice)));
    match binder.record_attach("a.img", Err(BindError::Os("permission denied".to_string()))) {
        Err(BindError::Os(m)) => assert_eq!(m, "permission denied"),
        other => panic!("{:?}", other),
    }
    assert!(!binder.is_bound("a.img"));
}

#[test]
fn detach_twice_is_a_no_op() {
    let mut binder = LoopBinder::new();
    let mut h = binder.record_attach("img", Ok("/dev/loop7".to_string())).unwrap();
    assert_eq!(h.detach_target(), Some("/dev/loop7".to_string()));
    assert!(matches!(h.record_detach(StepOutcome::Succeeded), Ok(true)));
    assert!(!h.is_attached());
    assert_eq!(h.detach_target(), None);
    assert!(matches!(h.record_detach(StepOutcome::Succeeded), Ok(false)));
    assert!(matches!(h.record_detach(StepOutcome::Failed("busy".to_string())), Ok(false)));
    binder.release(&h);
    assert!(!binder.is_bound("img"));
    assert!(binder.record_attach("img", Ok("/dev/loop2".to_string())).is_ok());
}

#[test]
fn busy_device_stays_attached() {
    let mut binder = LoopBinder::new();
    let mut h = binder.record_attach("img", Ok("/dev/loop0".to_string())).unwrap();
    match h.record_detach(StepOutcome::Failed("Device or resource busy".to_string())) {
        Err(BindError::Busy(m)) => assert_eq!(m, "Device or resource busy"),
        other => panic!("{:?}", other),
    }
    assert!(h.is_attached());
    assert_eq!(h.detach_target(), Some("/dev/loop0".to_string()));
}

#[test]
fn partition_nodes() {
    assert_eq!(get_partition_path("/dev/loop0", "p2"), "/dev/loop0p2");
    let mut binder = LoopBinder::new();
    let h = binder.record_attach("x.img", Ok("/dev/loop12".to_string())).unwrap();
    assert_eq!(h.partition_path("p1"), "/dev/loop12p1");
}
