use windows_win::host::Host;
use windows_win::Process;
use windows_win::utils::ErrorCode;
use windows_win::sys::{ERROR_INVALID_PARAMETER, ERROR_INVALID_HANDLE};
use windows_win::process::{open, close, terminate, get_id};

#[test]
fn open_unknown_pid_is_invalid_parameter() {
    let mut host = Host::new();
    let res = open(&mut host, 777, 0x0400);
    assert!(res.is_err());
    assert_eq!(res.err().unwrap().raw_code(), ERROR_INVALID_PARAMETER);
    assert_eq!(host.last_error, ERROR_INVALID_PARAMETER);
}

#[test]
fn close_is_single_shot() {
    let mut host = Host::new();
    host.add_process(5, "C:\\a.exe");
    let handle = open(&mut host, 5, 0).unwrap();
    assert_eq!(get_id(&host, handle), 5);
    assert!(close(&mut host, handle).is_ok());
    assert_eq!(get_id(&host, handle), 0);
    let res = close(&mut host, handle);
    assert!(res.is_err());
    assert_eq!(res.err().unwrap().raw_code(), ERROR_INVALID_HANDLE);
}

#[test]
fn process_wrapper_owns_and_releases_its_handle() {
    let mut host = Host::new();
    host.add_process(5, "C:\\a.exe");
    let mut process = Process::open(&mut host, 5, 0x0400).unwrap();
    assert_eq!(process.pid, 5);
    let path = process.exe_path(&mut host).unwrap();
    assert_eq!(path, "C:\\a.exe");
    process.close(&mut host);
    assert_eq!(process.inner, 0);
    // closing again is a no-op by the blank-handle rule
    process.close(&mut host);
}

#[test]
fn process_from_raw_and_into_inner() {
    let mut host = Host::new();
    host.add_process(5, "C:\\a.exe");
    let handle = open(&mut host, 5, 0).unwrap();
    let process = Process::from_raw(&host, handle);
    assert_eq!(process.pid, 5);
    assert_eq!(process.inner(), handle);
    assert_eq!(process.into_inner(), handle);
}

#[test]
fn terminate_needs_the_right_and_kills_once() {
    let mut host = Host::new();
    host.add_process(5, "C:\\a.exe");
    let weak = open(&mut host, 5, 0).unwrap();
    let res = terminate(&mut host, weak, 1);
    assert!(res.is_err());

    let strong = open(&mut host, 5, 0x0001).unwrap();
    assert!(terminate(&mut host, strong, 9).is_ok());
    // the process is gone now; a second termination has nothing to kill
    let res = terminate(&mut host, strong, 9);
    assert!(res.is_err());
    assert_eq!(res.err().unwrap().raw_code(), ERROR_INVALID_PARAMETER);
}

#[test]
fn error_code_keeps_its_raw_code() {
    let e = ErrorCode::new(1400);
    assert_eq!(e.raw_code(), 1400);
    assert_eq!(e, ErrorCode::new(1400));
    assert!(e != ErrorCode::new(6));
    // the rendering is platform text; only its presence is checked
    assert!(e.message().len() > 0);
}

#[test]
fn terminate_wrapper_leaves_the_handle_open_only_on_success() {
    let mut host = Host::new();
    host.add_process(5, "C:\\a.exe");
    host.add_process(6, "C:\\b.exe");

    // success: the owner gave the handle up, it stays open
    let strong = Process::open(&mut host, 5, 0x0001).unwrap();
    let handle = strong.inner;
    assert!(strong.terminate(&mut host, 9).is_ok());
    assert_eq!(get_id(&host, handle), 5);

    // failure: the consumed value's cleanup closes the handle
    let weak = Process::open(&mut host, 6, 0).unwrap();
    let handle = weak.inner;
    let res = weak.terminate(&mut host, 9);
    assert!(res.is_err());
    assert_eq!(get_id(&host, handle), 0);
    assert!(close(&mut host, handle).is_err());
}
