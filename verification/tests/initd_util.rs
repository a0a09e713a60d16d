use cudyos::initd::error::{decimal_text, Error};
use cudyos::initd::util::{
    check_c_strings, create_missing_dir, is_dir, is_symlink, pipe_ends, AutoCloseFD, DirAction,
    ProcessStatus, FD,
};

#[test]
fn test_execve() {
    //        super::execve("/bin/sh", &["/bin/sh"], &[]).unwrap()
}

#[test]
fn pipe_ends_keep_both_descriptors() {
    let (a, b) = pipe_ends([3, 4]).unwrap();
    assert!(a.get() != -1);
    assert!(b.get() != -1);
    assert_eq!(a.get(), 3);
    assert_eq!(b.get(), 4);
}

#[test]
fn pipe_ends_refuse_missing_descriptor() {
    assert!(matches!(pipe_ends([-1, 4]), Err(Error::PipeCreationFailed)));
    assert!(matches!(pipe_ends([3, -1]), Err(Error::PipeCreationFailed)));
}

#[test]
fn process_status_from_exit_codes() {
    assert_eq!(ProcessStatus::from_exit_code(None), ProcessStatus::Alive);
    assert_eq!(ProcessStatus::from_exit_code(Some(3)), ProcessStatus::Dead { status: 3 });
    assert_eq!(ProcessStatus::from_try_wait(None), ProcessStatus::Alive);
    assert_eq!(ProcessStatus::from_try_wait(Some(None)), ProcessStatus::Alive);
    assert_eq!(ProcessStatus::from_try_wait(Some(Some(0))), ProcessStatus::Dead { status: 0 });
    assert!(ProcessStatus::Alive.is_alive());
    assert!(!ProcessStatus::Dead { status: 1 }.is_alive());
}

#[test]
fn file_modes() {
    assert!(is_dir(0o040755));
    assert!(!is_dir(0o100644));
    assert!(is_symlink(0o120777));
    assert!(!is_symlink(0o040755));
}

#[test]
fn close_releases_once() {
    let mut fd = AutoCloseFD::new(5);
    assert_eq!(fd.close(), Some(5));
    assert_eq!(fd.get(), -1);
    assert_eq!(fd.close(), None);
    let mut none = AutoCloseFD::from(-1);
    assert_eq!(none.close(), None);
    assert!(AutoCloseFD::new(7) == AutoCloseFD::from(7));
}

#[test]
fn c_strings_without_nul() {
    assert!(check_c_strings(&["/bin/sh", "-c", "true"]).is_ok());
    assert!(check_c_strings(&[]).is_ok());
    assert!(matches!(
        check_c_strings(&["ok", "bad\0arg"]),
        Err(Error::FailedToConvertStringToCString)
    ));
}

#[test]
fn missing_dir_decisions() {
    let missing = create_missing_dir("/run", Err(Error::from_errno_with_message(2, "failed to stat")));
    assert!(matches!(missing, DirAction::Create));
    let exists = create_missing_dir("/run", Ok(0o040755));
    assert!(matches!(exists, DirAction::Finished(Ok(()))));
    match create_missing_dir("/run", Ok(0o100644)) {
        DirAction::Finished(Err(Error::DirectoryAlreadyExistsAsFile { message, directory })) => {
            assert_eq!(message, "The directory you tried to create already exists as a file");
            assert_eq!(directory, "/run");
        }
        _ => panic!("a file is not a directory"),
    }
    match create_missing_dir("/run", Err(Error::PipeCreationFailed)) {
        DirAction::Finished(Err(Error::PipeCreationFailed)) => {}
        _ => panic!("other errors are passed on"),
    }
}

#[test]
fn errno_descriptions_come_from_strerror() {
    match Error::from_errno(16) {
        Error::Errno { errno, message } => {
            assert_eq!(errno, 16);
            assert_eq!(message, "Device or resource busy");
        }
        _ => panic!("wrong variant"),
    }
    match cudyos::initd::util::mkdir_failure("/tmp", 13) {
        Error::FailedToCreateDirectory { message, directory, errno, error_message } => {
            assert_eq!(message, "Tried to create missing directory");
            assert_eq!(directory, "/tmp");
            assert_eq!(errno, 13);
            assert_eq!(error_message, "Permission denied");
        }
        _ => panic!("wrong variant"),
    }
}

#[test]
fn integers_in_decimal() {
    assert_eq!(decimal_text(0), "0");
    assert_eq!(decimal_text(7), "7");
    assert_eq!(decimal_text(16), "16");
    assert_eq!(decimal_text(-2), "-2");
    assert_eq!(decimal_text(1000), "1000");
    assert_eq!(decimal_text(i32::MAX), "2147483647");
    assert_eq!(decimal_text(i32::MIN), "-2147483648");
}

#[test]
fn error_messages() {
    assert_eq!(Error::from_errno(16).message(), "errno 16: Device or resource busy");
    assert_eq!(
        Error::from_errno_with_message(2, "failed to stat").message(),
        "errno: No such file or directory (2) while failed to stat"
    );
    assert_eq!(
        Error::FailedToCreateDirectory {
            message: "mkdir failed",
            directory: "/proc".to_string(),
            errno: 13,
            error_message: "Permission denied",
        }
        .message(),
        "Failed to create directory /proc, errno: 13, message: mkdir failed"
    );
    assert_eq!(
        Error::DirectoryAlreadyExistsAsFile { message: "not a directory", directory: "/sys".to_string() }
            .message(),
        "Directory already exists. not a directory: /sys"
    );
    assert_eq!(
        Error::FailedToMount { directory: "/dev".to_string(), error: -1 }.message(),
        "Failed to mount at /dev, errno: -1"
    );
    assert_eq!(Error::AllChildrenDied.message(), "All children died");
    assert_eq!(
        Error::FailedToConvertStringToCString.message(),
        "Failed to convert Rust string to FFI compatible CString"
    );
    assert_eq!(Error::TaskDied.message(), "task died");
    assert_eq!(Error::PipeCreationFailed.message(), "Failed to create a pipe(2)");
    let io = std::io::Error::new(std::io::ErrorKind::Other, "boom");
    assert_eq!(Error::IO(io).message(), "IO error: boom");
    let utf8 = String::from_utf8(vec![0xff]).unwrap_err();
    let expected = format!("Failed to convert readlink result to rust string: {:?}", utf8);
    assert_eq!(Error::FailedToConvertReadlinkResultToString { error: utf8 }.message(), expected);
}

#[test]
fn descriptor_from_an_integer() {
    let fd = AutoCloseFD::from(5);
    assert_eq!(fd.get(), 5);
    assert!(AutoCloseFD::from(5) == AutoCloseFD::new(5));
}
