use cudyos::initd::early::{InitStep, SystemInit, EBUSY};
use cudyos::initd::error::Error;
use cudyos::initd::util::mount_failure;

fn mounted_point(step: InitStep) -> &'static str {
    match step {
        InitStep::Mount(m) => m.point,
        InitStep::Done(_) => panic!("expected a mount"),
    }
}

#[test]
fn default_init_mounts_six_file_systems() {
    let sys = SystemInit::default();
    let plan: Vec<(&str, &str, &str)> = sys.mounts().iter().map(|m| (m.what, m.point, m.fstype)).collect();
    assert_eq!(
        plan,
        vec![
            ("none", "/dev", "devtmpfs"),
            ("proc", "/proc", "proc"),
            ("sys", "/sys", "sysfs"),
            ("debug", "/sys/kernel/debug", "debugfs"),
            ("tmpfs", "/run", "tmpfs"),
            ("tmpfs", "/tmp", "tmpfs"),
        ]
    );
}

#[test]
fn init_goes_on_past_busy_mount_points() {
    let sys = SystemInit::default();
    assert_eq!(mounted_point(sys.init(0, None)), "/dev");
    assert_eq!(mounted_point(sys.init(1, Some(Ok(())))), "/proc");
    assert_eq!(mounted_point(sys.init(2, Some(Err(mount_failure("/proc", EBUSY))))), "/sys");
    assert!(matches!(sys.init(6, Some(Ok(()))), InitStep::Done(Ok(()))));
}

#[test]
fn init_stops_at_a_failed_mount() {
    let sys = SystemInit::default();
    match sys.init(3, Some(Err(mount_failure("/sys", 1)))) {
        InitStep::Done(Err(Error::FailedToMount { directory, error })) => {
            assert_eq!(directory, "/sys");
            assert_eq!(error, 1);
        }
        _ => panic!("a failed mount ends initialisation"),
    }
    assert!(matches!(
        sys.init(2, Some(Err(Error::PipeCreationFailed))),
        InitStep::Done(Err(Error::PipeCreationFailed))
    ));
    assert!(SystemInit::mount(Err(mount_failure("/dev", EBUSY))).is_ok());
}
