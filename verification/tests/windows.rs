use windows_win::host::Host;
use windows_win::sys::{MSG, POINT, SC_CLOSE, ERROR_INVALID_WINDOW_HANDLE};
use windows_win::{Window, Messages, TimeoutType, TimerBuilder};

use windows_win::window::{
    get_by_class,
    get_by_title,
    get_by_pid,
    is_visible,
    get_text,
    send_get_text,
    send_set_text,
    send_sys_command,
    enum_by_until,
    Builder,
    destroy,
    PidFind,
};

use windows_win::process::{
    open,
    close,
    get_exe_path,
};

#[test]
fn test_get_windows_by_class() {
    let mut host = Host::new();
    host.add_window(0, "IME", "Default IME", 4, 5, false);
    let result = get_by_class(&mut host, "IME", None);
    assert!(result.is_ok());
    let result = result.unwrap();
    assert!(result.len() > 0);
}

#[test]
fn test_get_windows_by_class_no_match_is_empty_success() {
    let mut host = Host::new();
    host.add_window(0, "BUTTON", "ok", 4, 5, true);
    let result = get_by_class(&mut host, "IME", None);
    assert!(result.is_ok());
    assert_eq!(result.unwrap().len(), 0);
}

#[test]
fn test_interact_notepad() {
    let mut host = Host::new();
    host.add_process(1200, "C:\\Windows\\system32\\notepad.exe");
    host.add_window(0, "Notepad", "Untitled - Notepad", 1200, 7, true);

    // open with one set of rights, close again
    let handle = open(&mut host, 1200, 0x0038).unwrap();
    assert!(close(&mut host, handle).is_ok());

    // the executable path comes back whole
    let handle = open(&mut host, 1200, 0x0400).unwrap();
    let result = get_exe_path(&mut host, handle).unwrap();
    assert!(result.starts_with("C:\\Windows\\"));
    assert!(result.ends_with("\\notepad.exe"));
    assert!(close(&mut host, handle).is_ok());

    // a stale error does not break the pid lookup
    host.set_last_error(5);
    let notepad_window = get_by_pid(&mut host, 1200);
    assert!(notepad_window.is_ok());
    let notepad_window = notepad_window.unwrap().unwrap();

    // the title found by handle and by title lookup agree
    let notepad_orig_title = send_get_text(&host, notepad_window).unwrap();
    let by_title = get_by_title(&mut host, notepad_orig_title.as_str(), None).unwrap();
    assert!(by_title.len() > 0);
    assert_eq!(get_text(&mut host, by_title[0]).unwrap(), notepad_orig_title);

    // replacing the title is visible on the next read
    let new_title = "OLOLO notepad";
    assert!(send_set_text(&mut host, notepad_window, new_title));
    let notepad_new_title = send_get_text(&host, notepad_window).unwrap();
    assert!(notepad_new_title != notepad_orig_title);
    assert_eq!(notepad_new_title, new_title);

    // the close system command takes the window down
    assert!(is_visible(&host, notepad_window));
    assert!(send_sys_command(&mut host, notepad_window, SC_CLOSE, 0));
    assert!(!is_visible(&host, notepad_window));
}

#[test]
fn test_window_create() {
    let mut host = Host::new();
    let window = Window::from_builder(Builder::new().class_name("BUTTON").parent_message(), &mut host);
    assert!(window.is_ok());
    let window = window.unwrap();

    host.add_message(MSG {
        hwnd: window.inner(),
        message: 797,
        wParam: 0,
        lParam: 0,
        time: 0,
        pt: POINT { x: 0, y: 0 },
    });

    let msg = Messages::new().window(Some(window.inner())).next(&mut host);
    assert!(msg.is_some());
    let msg = msg.unwrap();
    assert!(msg.is_ok());
    let msg = msg.unwrap();

    assert_eq!(msg.id(), 797);

    assert!(destroy(&mut host, window.into_inner()));
}

#[test]
fn test_window_create_dummy() {
    let mut host = Host::new();
    let window = Builder::new().class_name("BUTTON").create(&mut host);
    assert!(window.is_ok());
    let window = window.unwrap();
    assert!(destroy(&mut host, window));
}

#[test]
fn check_enum_by_with_last_error_will_not_fail() {
    let mut host = Host::new();
    host.add_window(0, "BUTTON", "first", 11, 1, true);
    host.add_window(0, "BUTTON", "second", 12, 1, true);
    host.set_last_error(1);

    // a handler that stops at the very first window
    let mut stopper = PidFind { pid: 11, found: None };
    let result = enum_by_until(&mut host, None, &mut stopper);

    assert!(result.is_ok());

    // a handler that never stops
    let mut walker = PidFind { pid: 9999, found: None };
    let result = enum_by_until(&mut host, None, &mut walker);

    assert!(result.is_ok());
}

#[test]
fn enumeration_skips_children_and_dead_windows() {
    let mut host = Host::new();
    let parent = host.add_window(0, "Frame", "app", 31, 1, true);
    host.add_window(parent, "BUTTON", "ok", 31, 1, true);
    let doomed = host.add_window(0, "Frame", "closing", 32, 1, true);
    destroy(&mut host, doomed);

    let top = get_by_class(&mut host, "Frame", None).unwrap();
    assert_eq!(top.len(), 1);
    assert_eq!(top[0], parent);

    let children = get_by_class(&mut host, "BUTTON", Some(parent)).unwrap();
    assert_eq!(children.len(), 1);

    assert_eq!(get_by_pid(&mut host, 32).unwrap(), None);
}

#[test]
fn window_show_hide_and_clicks() {
    let mut host = Host::new();
    let hwnd = host.add_window(0, "BUTTON", "push", 21, 2, false);
    let window = Window::from_hwnd(hwnd);

    assert!(!window.is_visible(&host));
    // show reports that the window was not visible before
    assert!(window.show(&mut host));
    assert!(window.is_visible(&host));
    // hiding reports that it was visible
    assert!(window.hide_window(&mut host));
    assert!(!window.is_visible(&host));

    let res = window.send_push_button(&mut host, None);
    assert_eq!(res.unwrap(), 0);

    assert_eq!(window.thread_pid(&host), (21, 2));
    assert_eq!(window.class(&mut host).unwrap(), "BUTTON");
    assert_eq!(window.title(&mut host).unwrap(), "push");

    window.destroy(&mut host);
}

#[test]
fn send_message_with_timeout_fails_on_gone_window() {
    let mut host = Host::new();
    let window = Window::from_hwnd(4096);
    // without a timeout the send cannot fail
    assert_eq!(window.send_message(&mut host, 0x0400, 0, 0, None).unwrap(), 0);
    // with one, a gone window is an error
    let res = window.send_message(&mut host, 0x0400, 0, 0, Some(100));
    assert!(res.is_err());
    assert_eq!(res.err().unwrap().raw_code(), ERROR_INVALID_WINDOW_HANDLE);
}

#[test]
fn builder_without_class_is_refused() {
    let mut host = Host::new();
    let res = Builder::new().window_name("untitled").create(&mut host);
    assert!(res.is_err());
    assert_eq!(res.err().unwrap().raw_code(), 1407);
}

#[test]
fn timeout_merge_is_order_blind() {
    // the two orders on a fresh builder
    let a = TimerBuilder::new().single(3).interval(9);
    let b = TimerBuilder::new().interval(9).single(3);
    assert!(matches!(a.timeout, TimeoutType::Both(3, 9)));
    assert!(matches!(b.timeout, TimeoutType::Both(3, 9)));
    // repeating one call overwrites only its own component
    let c = TimerBuilder::new().single(1).interval(9).single(3);
    assert!(matches!(c.timeout, TimeoutType::Both(3, 9)));
    assert_eq!(c.timeout.into_raw(), (3, 9));
    assert_eq!(TimeoutType::Unset.into_raw(), (0, 0));
    assert_eq!(TimeoutType::Single(5).into_raw(), (5, 0));
    assert_eq!(TimeoutType::Interval(8).into_raw(), (0, 8));
}

#[test]
fn find_window_by_class_and_title() {
    let mut host = Host::new();
    host.add_window(0, "Notepad", "notes", 1, 1, true);
    let second = host.add_window(0, "Notepad", "todo", 1, 1, true);

    let by_class = windows_win::window::find(&mut host, "Notepad", None).unwrap();
    assert_eq!(by_class, second - 1);

    let by_both = windows_win::window::find(&mut host, "Notepad", Some("todo")).unwrap();
    assert_eq!(by_both, second);

    let res = windows_win::window::find(&mut host, "Edit", None);
    assert!(res.is_err());
    assert_eq!(res.err().unwrap().raw_code(), ERROR_INVALID_WINDOW_HANDLE);
}

#[test]
fn message_queue_filters_and_removes() {
    let mut host = Host::new();
    let make = |hwnd: usize, id: u32| MSG {
        hwnd,
        message: id,
        wParam: 0,
        lParam: 0,
        time: 0,
        pt: POINT { x: 0, y: 0 },
    };
    host.add_message(make(10, 0x0400));
    host.add_message(make(11, 0x0401));
    host.add_message(make(10, 0x0402));

    // peek without removal keeps the queue whole
    let peeked = windows_win::message::peek(&mut host, Some(11), None, None, None).unwrap();
    assert_eq!(peeked.unwrap().message, 0x0401);
    let peeked = windows_win::message::peek(&mut host, Some(11), None, None, Some(1)).unwrap();
    assert_eq!(peeked.unwrap().message, 0x0401);
    let peeked = windows_win::message::peek(&mut host, Some(11), None, None, Some(1)).unwrap();
    assert!(peeked.is_none());

    // range filter: only identifiers within the bounds are seen
    let got = windows_win::message::get(&mut host, None, Some(0x0402), Some(0x0402)).unwrap();
    assert_eq!(got.message, 0x0402);

    // a blocking reader takes the remaining message
    let mut reader = Messages::new();
    let msg = reader.window(Some(10)).next(&mut host).unwrap().unwrap();
    assert_eq!(msg.id(), 0x0400);
    // dispatching is recorded by the host
    msg.dispatch(&mut host);
    assert_eq!(host.dispatched.len(), 1);
}

#[test]
fn empty_text_never_matches_a_lookup() {
    let mut host = Host::new();
    // a window whose title is empty: its title cannot be read, so it is
    // skipped by title lookups rather than matched by the empty string
    let untitled = host.add_window(0, "Frame", "", 41, 1, true);
    host.add_window(0, "Frame", "named", 41, 1, true);

    let by_empty_title = get_by_title(&mut host, "", None).unwrap();
    assert_eq!(by_empty_title.len(), 0);

    let by_name = get_by_title(&mut host, "named", None).unwrap();
    assert_eq!(by_name.len(), 1);
    assert!(by_name[0] != untitled);

    let by_empty_class = get_by_class(&mut host, "", None).unwrap();
    assert_eq!(by_empty_class.len(), 0);
}

#[test]
fn find_child_starts_past_the_given_handle() {
    let mut host = Host::new();
    let parent = host.add_window(0, "Frame", "app", 51, 1, true);
    let first = host.add_window(parent, "BUTTON", "ok", 51, 1, true);
    let second = host.add_window(parent, "BUTTON", "cancel", 51, 1, true);

    let from_start =
        windows_win::window::find_child(&mut host, "BUTTON", None, Some(parent), None).unwrap();
    assert_eq!(from_start, first);

    let after_first =
        windows_win::window::find_child(&mut host, "BUTTON", None, Some(parent), Some(first))
            .unwrap();
    assert_eq!(after_first, second);

    let past_last =
        windows_win::window::find_child(&mut host, "BUTTON", None, Some(parent), Some(second));
    assert!(past_last.is_err());
    assert_eq!(past_last.err().unwrap().raw_code(), ERROR_INVALID_WINDOW_HANDLE);

    let by_title =
        windows_win::window::find_child(&mut host, "BUTTON", Some("cancel"), Some(parent), None)
            .unwrap();
    assert_eq!(by_title, second);
}
