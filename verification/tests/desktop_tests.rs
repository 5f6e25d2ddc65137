use signet::desktop::{LinuxManager, WindowsManager};
use signet::numeric::IntErrorKind;
use signet::process::pid_file_contents;

#[test]
fn linux_start_needs_bundle() {
    let m = LinuxManager;
    assert_eq!(m.start(Some("/opt/signet/daemon")), Ok("/opt/signet/daemon".to_string()));
    assert_eq!(m.start(None), Err("No daemon binary found".to_string()));
}

#[test]
fn linux_stop_reads_signed_pid() {
    let m = LinuxManager;
    assert_eq!(m.stop(" 4242\n"), Ok(4242));
    assert_eq!(m.stop("-5"), Ok(-5));
    assert_eq!(m.stop("x"), Err(IntErrorKind::InvalidDigit));
    assert_eq!(m.stop("  "), Err(IntErrorKind::Empty));
    assert_eq!(m.stop("3000000000"), Err(IntErrorKind::PosOverflow));
    assert_eq!(m.stop(&pid_file_contents(31)), Ok(31));
}

#[test]
fn linux_running_probe() {
    let m = LinuxManager;
    assert_eq!(m.is_running(None), None);
    assert_eq!(m.is_running(Some("12\n")), Some(12));
    assert_eq!(m.is_running(Some("-1")), None);
    assert_eq!(m.is_running(Some("4294967295")), Some(-1));
    assert_eq!(m.is_running(Some("0")), Some(0));
    assert_eq!(m.pid_file_path("/home/u/.agents"), "/home/u/.agents/.daemon/pid");
}

#[test]
fn windows_manager() {
    let m = WindowsManager;
    assert_eq!(m.start(None), Err("No daemon binary found".to_string()));
    assert_eq!(m.start(Some("C:/signet.exe")), Ok("C:/signet.exe".to_string()));
    assert!(!m.is_running());
    assert_eq!(m.pid_file_path("/x"), "/x/.daemon/pid");
}
