use windows_win::host::Host;
use windows_win::timer::{self, TimerQueue, TimerFlags, Wait, NoWait};
use windows_win::TimerBuilder;
use windows_win::sys::{ERROR_INVALID_HANDLE, ERROR_ACCESS_DENIED};

#[test]
fn test_performance_counter() {
    let mut host = Host::new();
    let result = timer::query_performance_frequency(&mut host).expect("To get counter");
    assert!(result > 0);

    let result = timer::query_performance_counter(&mut host).expect("To get counter");
    assert!(result > 0);
}

#[test]
fn test_timer_queue() {
    let mut host = Host::new();
    let queue = TimerQueue::new(&mut host).expect("To crate queue");
    queue.delete(&mut host, Wait).expect("To delete queue");

    let queue = TimerQueue::default();
    queue.delete(&mut host, Wait).expect("To delete default queue");

    let queue = TimerQueue::default();
    queue.delete(&mut host, Wait).expect("To delete default queue");

    let queue = TimerQueue::default();
    let timer = queue
        .timer(&mut host, Some(1), 0, 0, 900, TimerFlags::new())
        .expect("To crate timer");
    host.advance(10);
    timer.reset(&mut host, 1, 0).expect("To reset");
    host.advance(10);
    timer.delete(&mut host, Wait).expect("To delete timer");
}

#[test]
fn test_timer_builder() {
    let mut host = Host::new();

    let timer = TimerBuilder::new()
        .rust_callback(7)
        .single(1)
        .interval(900)
        .build(&mut host)
        .expect("To build timer");
    assert_eq!(host.timer_completed(timer.inner), 0);
    host.advance(100);
    host.settle();
    assert_eq!(host.timer_completed(timer.inner), 1);
    timer.delete(&mut host, Wait).expect("To delete timer");

    let timer = TimerBuilder::new()
        .rust_callback(7)
        .single(900)
        .interval(900)
        .build(&mut host)
        .expect("To build timer");
    host.advance(100);
    host.settle();
    assert_eq!(host.timer_completed(timer.inner), 0);
    timer.reset(&mut host, 5, 0).expect("To reset");
    host.advance(100);
    host.settle();
    assert_eq!(host.timer_completed(timer.inner), 1);
    timer.delete(&mut host, Wait).expect("To delete timer");

    let timer = TimerBuilder::new()
        .rust_callback(7)
        .single(0)
        .interval(60)
        .build(&mut host)
        .expect("To build timer");
    host.advance(100);
    host.settle();
    assert_eq!(host.timer_completed(timer.inner), 2);
    timer.delete(&mut host, Wait).expect("To delete timer");

    let timer = TimerBuilder::new().single(1).build(&mut host).expect("To build timer");
    timer.delete(&mut host, Wait).expect("To delete timer");
}

#[test]
fn delete_wait_drains_runs_in_flight() {
    let mut host = Host::new();
    let queue = TimerQueue::new(&mut host).unwrap();
    let timer = queue.timer(&mut host, Some(1), 0, 1, 0, TimerFlags::new()).unwrap();
    host.advance(5);
    assert_eq!(host.timer_pending(timer.inner), 1);
    assert_eq!(host.timer_completed(timer.inner), 0);
    let handle = timer.inner;
    timer.delete(&mut host, Wait).unwrap();
    // the run had observably finished before the deletion returned
    assert_eq!(host.timer_pending(handle), 0);
    assert_eq!(host.timer_completed(handle), 1);
}

#[test]
fn delete_no_wait_returns_with_runs_in_flight() {
    let mut host = Host::new();
    let queue = TimerQueue::new(&mut host).unwrap();
    let timer = queue.timer(&mut host, Some(1), 0, 1, 0, TimerFlags::new()).unwrap();
    host.advance(5);
    let handle = timer.inner;
    timer.delete(&mut host, NoWait).unwrap();
    // the deletion returned while the run was still in flight
    assert_eq!(host.timer_pending(handle), 1);
    assert_eq!(host.timer_completed(handle), 0);
    // the run finishes on its own afterwards
    host.settle();
    assert_eq!(host.timer_pending(handle), 0);
    assert_eq!(host.timer_completed(handle), 1);
}

#[test]
fn reset_of_expired_one_shot_is_ignored() {
    let mut host = Host::new();
    let timer = TimerBuilder::new().rust_callback(3).single(1).build(&mut host).unwrap();
    host.advance(10);
    host.settle();
    assert_eq!(host.timer_completed(timer.inner), 1);
    // the one-shot has fired: resetting reports success and changes nothing
    timer.reset(&mut host, 1, 0).expect("To reset");
    host.advance(10);
    host.settle();
    assert_eq!(host.timer_completed(timer.inner), 1);
    timer.delete(&mut host, Wait).unwrap();
}

#[test]
fn reset_converts_periodic_to_one_shot() {
    let mut host = Host::new();
    let timer = TimerBuilder::new()
        .rust_callback(3)
        .single(1)
        .interval(900)
        .build(&mut host)
        .unwrap();
    host.advance(100);
    host.settle();
    assert_eq!(host.timer_completed(timer.inner), 1);
    timer.reset(&mut host, 1, 0).expect("To reset");
    host.advance(100);
    host.settle();
    assert_eq!(host.timer_completed(timer.inner), 2);
    host.advance(5000);
    host.settle();
    assert_eq!(host.timer_completed(timer.inner), 2);
    timer.delete(&mut host, Wait).unwrap();
}

#[test]
fn implicit_drop_cleanup_neither_panics_nor_waits() {
    let mut host = Host::new();
    let queue = TimerQueue::new(&mut host).unwrap();
    let timer = queue.timer(&mut host, Some(1), 0, 1, 0, TimerFlags::new()).unwrap();
    host.advance(5);
    let handle = timer.inner;
    // what a backend's drop path runs for values never explicitly deleted
    timer.drop_delete(&mut host);
    queue.drop_delete(&mut host);
    drop(timer);
    drop(queue);
    // nothing was waited for ...
    assert_eq!(host.timer_pending(handle), 1);
    // ... and the in-flight run still finishes afterwards
    host.settle();
    assert_eq!(host.timer_completed(handle), 1);
}

#[test]
fn periodic_timer_fires_every_period() {
    let mut host = Host::new();
    let queue = TimerQueue::new(&mut host).unwrap();
    let timer = queue.timer(&mut host, Some(1), 0, 100, 200, TimerFlags::new()).unwrap();
    host.advance(950);
    host.settle();
    // firings at 100, 300, 500, 700, 900
    assert_eq!(host.timer_completed(timer.inner), 5);
    timer.delete(&mut host, Wait).unwrap();
}

#[test]
fn queue_delete_invalidates_its_timers() {
    let mut host = Host::new();
    let queue = TimerQueue::new(&mut host).unwrap();
    let timer = queue.timer(&mut host, Some(1), 0, 1, 100, TimerFlags::new()).unwrap();
    let handle = timer.inner;
    queue.delete(&mut host, Wait).unwrap();
    let res = timer.reset(&mut host, 1, 0);
    assert!(res.is_err());
    assert_eq!(res.err().unwrap().raw_code(), ERROR_INVALID_HANDLE);
    host.advance(1000);
    host.settle();
    assert_eq!(host.timer_completed(handle), 0);
}

#[test]
fn timer_on_deleted_queue_is_refused() {
    let mut host = Host::new();
    let queue = TimerQueue::new(&mut host).unwrap();
    let gone = TimerQueue { handle: queue.handle };
    queue.delete(&mut host, NoWait).unwrap();
    let res = gone.timer(&mut host, Some(1), 0, 1, 0, TimerFlags::new());
    assert!(res.is_err());
    assert_eq!(res.err().unwrap().raw_code(), ERROR_INVALID_HANDLE);
}

#[test]
fn queue_create_failure_carries_the_host_code() {
    let mut host = Host::new();
    host.fail_next_call(ERROR_ACCESS_DENIED);
    let res = TimerQueue::new(&mut host);
    assert!(res.is_err());
    assert_eq!(res.err().unwrap().raw_code(), ERROR_ACCESS_DENIED);
    assert_eq!(host.last_error, ERROR_ACCESS_DENIED);
    // the next creation is clean again
    assert!(TimerQueue::new(&mut host).is_ok());
}

#[test]
fn timer_flags_compose() {
    let flags = TimerFlags::new()
        .on_timer_thread()
        .on_persist()
        .long_fn()
        .only_once()
        .transfer_impersonation();
    assert_eq!(flags.inner, 0x20 | 0x80 | 0x10 | 0x8 | 0x100);
    assert_eq!(TimerFlags::default().inner, 0);
}
