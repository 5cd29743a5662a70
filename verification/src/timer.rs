//! The timer-queue subsystem: queues of scheduled callbacks run on host pool
//! threads, per-timer handles referencing a queue, deletion with a
//! wait/no-wait completion policy, and a reset operation with the documented
//! one-shot caveat.
//!
//! The default queue is the null sentinel handle: it is never created and its
//! deletion is vacuously successful.

use vstd::prelude::*;
use crate::host::{Host, QueueRow, TimerRow, sat_add64, sat_add64_exec, fired_up_to, run_timer};
use crate::utils::{ErrorCode, Result};
use crate::sys::{INVALID_HANDLE_VALUE, ERROR_INVALID_HANDLE, ERROR_NOT_ENOUGH_MEMORY};

verus! {

/// Address of a timer callback, or `None` for no callback.
pub type CallbackType = Option<usize>;

/// Completion policy of a deletion: whether the call waits for in-flight
/// callback runs to finish before it returns.
pub trait CompleteEvent: Sized {
    /// The completion marker this policy hands to the host.
    spec fn spec_handle() -> usize;

    /// Whether deletion under this policy drains in-flight callback runs
    /// before returning.
    spec fn spec_waits() -> bool;

    /// The completion marker this policy hands to the host: the null sentinel
    /// to return at once, the all-bits-set sentinel to wait.
    fn handle() -> (h: usize)
        ensures
            h == Self::spec_handle(),
    ;

    /// Whether deletion under this policy blocks until in-flight callback
    /// runs finish.
    fn waits() -> (w: bool)
        ensures
            w == Self::spec_waits(),
    ;
}

/// Schedules the deletion and returns immediately; callback runs already
/// dispatched may still execute afterwards.
pub struct NoWait;

impl CompleteEvent for NoWait {
    open spec fn spec_handle() -> usize {
        0
    }

    open spec fn spec_waits() -> bool {
        false
    }

    fn handle() -> usize {
        0
    }

    fn waits() -> bool {
        false
    }
}

/// Blocks the deletion until every in-flight callback run has finished.
pub struct Wait;

impl CompleteEvent for Wait {
    open spec fn spec_handle() -> usize {
        INVALID_HANDLE_VALUE
    }

    open spec fn spec_waits() -> bool {
        true
    }

    fn handle() -> usize {
        INVALID_HANDLE_VALUE
    }

    fn waits() -> bool {
        true
    }
}

#[derive(Clone, Copy, Debug, PartialEq, Eq, Structural)]
/// Flag bits a timer is registered with.
pub struct TimerFlags {
    /// The combined `WT_*` bits.
    pub inner: u32,
}

impl TimerFlags {
    /// Default flags: the callback runs on an ordinary pool thread.
    pub fn new() -> (r: Self)
        ensures
            r.inner == 0,
    {
        TimerFlags { inner: 0 }
    }

    /// The callback is invoked by the timer thread itself; only for short
    /// tasks.
    pub fn on_timer_thread(self) -> (r: Self)
        ensures
            r.inner == self.inner | crate::sys::WT_EXECUTEINTIMERTHREAD,
    {
        TimerFlags { inner: self.inner | crate::sys::WT_EXECUTEINTIMERTHREAD }
    }

    /// The callback is queued to a thread that never terminates.
    pub fn on_persist(self) -> (r: Self)
        ensures
            r.inner == self.inner | crate::sys::WT_EXECUTEINPERSISTENTTHREAD,
    {
        TimerFlags { inner: self.inner | crate::sys::WT_EXECUTEINPERSISTENTTHREAD }
    }

    /// The callback can perform a long wait.
    pub fn long_fn(self) -> (r: Self)
        ensures
            r.inner == self.inner | crate::sys::WT_EXECUTELONGFUNCTION,
    {
        TimerFlags { inner: self.inner | crate::sys::WT_EXECUTELONGFUNCTION }
    }

    /// The timer is signaled only once; the period must then stay zero.
    pub fn only_once(self) -> (r: Self)
        ensures
            r.inner == self.inner | crate::sys::WT_EXECUTEONLYONCE,
    {
        TimerFlags { inner: self.inner | crate::sys::WT_EXECUTEONLYONCE }
    }

    /// Callbacks use the current access token.
    pub fn transfer_impersonation(self) -> (r: Self)
        ensures
            r.inner == self.inner | crate::sys::WT_TRANSFER_IMPERSONATION,
    {
        TimerFlags { inner: self.inner | crate::sys::WT_TRANSFER_IMPERSONATION }
    }
}

impl Default for TimerFlags {
    /// The default flags.
    fn default() -> (r: Self)
        ensures
            r.inner == 0,
    {
        TimerFlags { inner: 0 }
    }
}

/// Whether the host has a live queue with the given handle.
pub open spec fn queue_live(h: Host, qh: usize) -> bool {
    exists|i: int| 0 <= i < h.queues@.len() && (#[trigger] h.queues@[i]).handle == qh && h.queues@[i].alive
}

/// Whether the host has a live timer registration with the given handle.
pub open spec fn timer_live(h: Host, th: usize) -> bool {
    exists|i: int| 0 <= i < h.timers@.len() && (#[trigger] h.timers@[i]).handle == th && h.timers@[i].alive
}

/// A timer row after its registration is deleted under the given policy: the
/// registration and schedule end; waiting additionally drains the in-flight
/// runs into the completed count.
pub open spec fn deleted_row(t: TimerRow, wait: bool) -> TimerRow {
    if wait {
        TimerRow {
            alive: false,
            armed: false,
            pending: 0,
            completed: sat_add64(t.completed, t.pending),
            ..t
        }
    } else {
        TimerRow { alive: false, armed: false, ..t }
    }
}

/// A timer row after its owning queue is deleted under the given policy;
/// rows of other queues are untouched.
pub open spec fn queue_deleted_row(t: TimerRow, qh: usize, wait: bool) -> TimerRow {
    if t.queue == qh && t.alive {
        deleted_row(t, wait)
    } else {
        t
    }
}

/// A fresh registration before any dispatch: armed for `now + due_time`,
/// counters at zero.
pub open spec fn new_timer_row(
    queue: usize,
    cb: CallbackType,
    param: usize,
    due_time: u32,
    period: u32,
    flags: u32,
    now: u64,
) -> TimerRow {
    TimerRow {
        handle: 0,
        queue,
        next_due: sat_add64(now, due_time as u64),
        period,
        armed: true,
        alive: true,
        pending: 0,
        completed: 0,
        callback: cb,
        param,
        flags,
    }
}

/// Finds the position of a queue handle in the host's queue table.
fn find_queue(host: &Host, qh: usize) -> (r: Option<usize>)
    ensures
        match r {
            Some(i) => i < host.queues@.len() && host.queues@[i as int].handle == qh,
            None => forall|i: int|
                0 <= i < host.queues@.len() ==> (#[trigger] host.queues@[i]).handle != qh,
        },
{
    let n = host.queues.len();
    let mut i: usize = 0;
    while i < n
        invariant
            n == host.queues@.len(),
            i <= n,
            forall|j: int| 0 <= j < i ==> (#[trigger] host.queues@[j]).handle != qh,
        decreases n - i,
    {
        if host.queues[i].handle == qh {
            return Some(i);
        }
        i += 1;
    }
    None
}

/// Finds the position of a timer handle in the host's timer table.
fn find_timer(host: &Host, th: usize) -> (r: Option<usize>)
    ensures
        match r {
            Some(i) => i < host.timers@.len() && host.timers@[i as int].handle == th,
            None => forall|i: int|
                0 <= i < host.timers@.len() ==> (#[trigger] host.timers@[i]).handle != th,
        },
{
    let n = host.timers.len();
    let mut i: usize = 0;
    while i < n
        invariant
            n == host.timers@.len(),
            i <= n,
            forall|j: int| 0 <= j < i ==> (#[trigger] host.timers@[j]).handle != th,
        decreases n - i,
    {
        if host.timers[i].handle == th {
            return Some(i);
        }
        i += 1;
    }
    None
}

/// A kernel queue of scheduled callbacks, or the process-wide default queue
/// when the handle is the null sentinel.
pub struct TimerQueue {
    /// The queue's handle; `0` names the default queue.
    pub handle: usize,
}

impl Default for TimerQueue {
    /// The process-wide default queue: the null sentinel handle; nothing is
    /// created and deleting it always succeeds vacuously.
    fn default() -> (r: Self)
        ensures
            r.handle == 0,
    {
        TimerQueue { handle: 0 }
    }
}

impl TimerQueue {
    /// Creates a fresh queue on the host. Fails exactly when the host fails
    /// the call or can hand out no further handle.
    pub fn new(host: &mut Host) -> (r: Result<TimerQueue>)
        requires
            old(host).wf(),
        ensures
            final(host).wf(),
            match r {
                Ok(q) => {
                    &&& old(host).fail_next == None::<u32>
                    &&& old(host).can_alloc()
                    &&& q.handle == old(host).next_handle
                    &&& 0 < q.handle
                    &&& final(host).next_handle == old(host).next_handle + 1
                    &&& final(host).queues@ == old(host).queues@.push(
                        QueueRow { handle: q.handle, alive: true },
                    )
                    &&& final(host).timers == old(host).timers
                    &&& Host::same_err(*old(host), *final(host))
                    &&& Host::same_clock(*old(host), *final(host))
                    &&& Host::same_ids(*old(host), *final(host))
                    &&& Host::same_windows(*old(host), *final(host))
                    &&& Host::same_processes(*old(host), *final(host))
                    &&& Host::same_files(*old(host), *final(host))
                    &&& Host::same_messages(*old(host), *final(host))
                },
                Err(e) => {
                    &&& Host::failed_with(*old(host), *final(host), e.spec_code())
                    &&& match old(host).fail_next {
                        Some(c) => e.spec_code() == c,
                        None => !old(host).can_alloc() && e.spec_code()
                            == ERROR_NOT_ENOUGH_MEMORY,
                    }
                },
            },
    {
        match host.take_fault() {
            Some(c) => Err(ErrorCode::new(c)),
            None => {
                if !host.can_alloc_handle() {
                    host.set_last_error(ERROR_NOT_ENOUGH_MEMORY);
                    Err(ErrorCode::new(ERROR_NOT_ENOUGH_MEMORY))
                } else {
                    let h = host.push_queue_row();
                    Ok(TimerQueue { handle: h })
                }
            },
        }
    }

    /// The deletion step shared by `delete` and the backend's drop path.
    /// Returns whether the host reported success.
    fn inner_delete<T: CompleteEvent>(&self, host: &mut Host) -> (ok: bool)
        requires
            old(host).wf(),
        ensures
            final(host).wf(),
            self.handle == 0 ==> ok && *final(host) == *old(host),
            self.handle != 0 ==> match old(host).fail_next {
                Some(c) => !ok && Host::failed_with(*old(host), *final(host), c),
                None => {
                    if queue_live(*old(host), self.handle) {
                        &&& ok
                        &&& exists|i: int|
                            {
                                &&& 0 <= i < old(host).queues@.len()
                                &&& (#[trigger] old(host).queues@[i]).handle == self.handle
                                &&& old(host).queues@[i].alive
                                &&& final(host).queues@ == old(host).queues@.update(
                                    i,
                                    QueueRow { handle: self.handle, alive: false },
                                )
                            }
                        &&& final(host).timers@.len() == old(host).timers@.len()
                        &&& forall|j: int|
                            0 <= j < old(host).timers@.len() ==> final(host).timers@[j]
                                == queue_deleted_row(
                                old(host).timers@[j],
                                self.handle,
                                T::spec_waits(),
                            )
                        &&& Host::same_err(*old(host), *final(host))
                        &&& Host::same_alloc(*old(host), *final(host))
                        &&& Host::same_clock(*old(host), *final(host))
                        &&& Host::same_ids(*old(host), *final(host))
                        &&& Host::same_windows(*old(host), *final(host))
                        &&& Host::same_processes(*old(host), *final(host))
                        &&& Host::same_files(*old(host), *final(host))
                        &&& Host::same_messages(*old(host), *final(host))
                    } else {
                        &&& !ok
                        &&& Host::failed_with(*old(host), *final(host), ERROR_INVALID_HANDLE)
                    }
                },
            },
    {
        if self.handle == 0 {
            return true;
        }
        match host.take_fault() {
            Some(_) => false,
            None => {
                let found = find_queue(host, self.handle);
                match found {
                    None => {
                        host.set_last_error(ERROR_INVALID_HANDLE);
                        false
                    },
                    Some(qi) => {
                        if !host.queues[qi].alive {
                            host.set_last_error(ERROR_INVALID_HANDLE);
                            return false;
                        }
                        let ghost mid = *host;
                        host.queues[qi] = QueueRow { handle: self.handle, alive: false };
                        let wait = T::waits();
                        let n = host.timers.len();
                        let mut j: usize = 0;
                        while j < n
                            invariant
                                mid.wf(),
                                n == host.timers@.len(),
                                n == mid.timers@.len(),
                                j <= n,
                                qi < mid.queues@.len(),
                                mid.queues@[qi as int].handle == self.handle,
                                wait == T::spec_waits(),
                                host.queues@ == mid.queues@.update(
                                    qi as int,
                                    QueueRow { handle: self.handle, alive: false },
                                ),
                                forall|k: int|
                                    0 <= k < j ==> host.timers@[k] == queue_deleted_row(
                                        mid.timers@[k],
                                        self.handle,
                                        T::spec_waits(),
                                    ),
                                forall|k: int| j <= k < n ==> host.timers@[k] == mid.timers@[k],
                                host.last_error == mid.last_error,
                                host.fail_next == mid.fail_next,
                                host.next_handle == mid.next_handle,
                                Host::same_clock(mid, *host),
                                Host::same_ids(mid, *host),
                                Host::same_windows(mid, *host),
                                Host::same_processes(mid, *host),
                                Host::same_files(mid, *host),
                                Host::same_messages(mid, *host),
                            decreases n - j,
                        {
                            let t = host.timers[j];
                            if t.queue == self.handle && t.alive {
                                let mut r = t;
                                r.alive = false;
                                r.armed = false;
                                if wait {
                                    r.completed = sat_add64_exec(t.completed, t.pending);
                                    r.pending = 0;
                                }
                                assert(r == queue_deleted_row(t, self.handle, T::spec_waits()));
                                host.timers[j] = r;
                            }
                            j += 1;
                        }
                        true
                    },
                }
            },
        }
    }

    /// Deletes the queue and consumes it, invalidating every timer the queue
    /// produced. Under [`Wait`] the call does not return before every
    /// in-flight callback run of those timers has finished; under [`NoWait`]
    /// such runs may still execute afterwards. Deleting the default queue is
    /// vacuously successful.
    pub fn delete<T: CompleteEvent>(self, host: &mut Host, _event: T) -> (r: Result<()>)
        requires
            old(host).wf(),
        ensures
            final(host).wf(),
            self.handle == 0 ==> r == Result::<()>::Ok(()) && *final(host) == *old(host),
            self.handle != 0 ==> match old(host).fail_next {
                Some(c) => r == Result::<()>::Err(ErrorCode::new_spec(c)) && Host::failed_with(
                    *old(host),
                    *final(host),
                    c,
                ),
                None => {
                    if queue_live(*old(host), self.handle) {
                        &&& r == Result::<()>::Ok(())
                        &&& exists|i: int|
                            {
                                &&& 0 <= i < old(host).queues@.len()
                                &&& (#[trigger] old(host).queues@[i]).handle == self.handle
                                &&& old(host).queues@[i].alive
                                &&& final(host).queues@ == old(host).queues@.update(
                                    i,
                                    QueueRow { handle: self.handle, alive: false },
                                )
                            }
                        &&& final(host).timers@.len() == old(host).timers@.len()
                        &&& forall|j: int|
                            0 <= j < old(host).timers@.len() ==> final(host).timers@[j]
                                == queue_deleted_row(
                                old(host).timers@[j],
                                self.handle,
                                T::spec_waits(),
                            )
                        &&& Host::same_err(*old(host), *final(host))
                        &&& Host::same_alloc(*old(host), *final(host))
                        &&& Host::same_clock(*old(host), *final(host))
                        &&& Host::same_ids(*old(host), *final(host))
                        &&& Host::same_windows(*old(host), *final(host))
                        &&& Host::same_processes(*old(host), *final(host))
                        &&& Host::same_files(*old(host), *final(host))
                        &&& Host::same_messages(*old(host), *final(host))
                    } else {
                        r == Result::<()>::Err(ErrorCode::new_spec(ERROR_INVALID_HANDLE))
                            && Host::failed_with(*old(host), *final(host), ERROR_INVALID_HANDLE)
                    }
                },
            },
    {
        if self.inner_delete::<T>(host) {
            Ok(())
        } else {
            Err(crate::utils::get_last_error(host))
        }
    }

    /// What the backend's drop path runs when a queue goes out of scope
    /// without an explicit delete: a no-wait deletion whose outcome is
    /// ignored. Total and non-blocking: the queue and its timers end, but no
    /// in-flight callback run is drained — the counts stay as they were.
    pub fn drop_delete(&self, host: &mut Host)
        requires
            old(host).wf(),
        ensures
            final(host).wf(),
            final(host).timers@.len() == old(host).timers@.len(),
            forall|j: int|
                0 <= j < old(host).timers@.len() ==> (#[trigger] final(host).timers@[j]).pending
                    == old(host).timers@[j].pending && final(host).timers@[j].completed == old(
                    host,
                ).timers@[j].completed,
            self.handle == 0 ==> *final(host) == *old(host),
            self.handle != 0 ==> match old(host).fail_next {
                Some(c) => Host::failed_with(*old(host), *final(host), c),
                None => {
                    if queue_live(*old(host), self.handle) {
                        &&& exists|i: int|
                            {
                                &&& 0 <= i < old(host).queues@.len()
                                &&& (#[trigger] old(host).queues@[i]).handle == self.handle
                                &&& old(host).queues@[i].alive
                                &&& final(host).queues@ == old(host).queues@.update(
                                    i,
                                    QueueRow { handle: self.handle, alive: false },
                                )
                            }
                        &&& forall|j: int|
                            0 <= j < old(host).timers@.len() ==> final(host).timers@[j]
                                == queue_deleted_row(old(host).timers@[j], self.handle, false)
                        &&& Host::same_err(*old(host), *final(host))
                        &&& Host::same_alloc(*old(host), *final(host))
                        &&& Host::same_clock(*old(host), *final(host))
                        &&& Host::same_ids(*old(host), *final(host))
                        &&& Host::same_windows(*old(host), *final(host))
                        &&& Host::same_processes(*old(host), *final(host))
                        &&& Host::same_files(*old(host), *final(host))
                        &&& Host::same_messages(*old(host), *final(host))
                    } else {
                        Host::failed_with(*old(host), *final(host), ERROR_INVALID_HANDLE)
                    }
                },
            },
    {
        let ghost pre = *host;
        let ok = self.inner_delete::<NoWait>(host);
        proof {
            if self.handle != 0 && pre.fail_next == None::<u32> && queue_live(pre, self.handle) {
                assert(forall|j: int|
                    0 <= j < pre.timers@.len() ==> (#[trigger] host.timers@[j])
                        == queue_deleted_row(pre.timers@[j], self.handle, false));
            }
        }
    }

    /// Registers a timer on this queue. With `due_time == 0` the first
    /// callback run is dispatched on the registration path itself; with
    /// `period == 0` the timer is one-shot, else periodic. Fails exactly when
    /// the host fails the call, the queue is gone, or no handle is left.
    pub fn timer(
        &self,
        host: &mut Host,
        cb: CallbackType,
        param: usize,
        due_time: u32,
        period: u32,
        flags: TimerFlags,
    ) -> (r: Result<QueueTimer>)
        requires
            old(host).wf(),
        ensures
            final(host).wf(),
            match r {
                Ok(t) => {
                    &&& old(host).fail_next == None::<u32>
                    &&& (self.handle == 0 || queue_live(*old(host), self.handle))
                    &&& old(host).can_alloc()
                    &&& t.queue == self.handle
                    &&& t.inner == old(host).next_handle
                    &&& 0 < t.inner
                    &&& final(host).next_handle == old(host).next_handle + 1
                    &&& final(host).timers@ == old(host).timers@.push(
                        TimerRow {
                            handle: t.inner,
                            ..fired_up_to(
                                new_timer_row(
                                    self.handle,
                                    cb,
                                    param,
                                    due_time,
                                    period,
                                    flags.inner,
                                    old(host).now,
                                ),
                                old(host).now,
                            )
                        },
                    )
                    &&& final(host).queues == old(host).queues
                    &&& Host::same_err(*old(host), *final(host))
                    &&& Host::same_clock(*old(host), *final(host))
                    &&& Host::same_ids(*old(host), *final(host))
                    &&& Host::same_windows(*old(host), *final(host))
                    &&& Host::same_processes(*old(host), *final(host))
                    &&& Host::same_files(*old(host), *final(host))
                    &&& Host::same_messages(*old(host), *final(host))
                },
                Err(e) => {
                    &&& Host::failed_with(*old(host), *final(host), e.spec_code())
                    &&& match old(host).fail_next {
                        Some(c) => e.spec_code() == c,
                        None => {
                            if self.handle != 0 && !queue_live(*old(host), self.handle) {
                                e.spec_code() == ERROR_INVALID_HANDLE
                            } else {
                                !old(host).can_alloc() && e.spec_code()
                                    == ERROR_NOT_ENOUGH_MEMORY
                            }
                        },
                    }
                },
            },
    {
        match host.take_fault() {
            Some(c) => Err(ErrorCode::new(c)),
            None => {
                if self.handle != 0 {
                    let found = find_queue(host, self.handle);
                    let live = match found {
                        Some(qi) => host.queues[qi].alive,
                        None => false,
                    };
                    if !live {
                        host.set_last_error(ERROR_INVALID_HANDLE);
                        return Err(ErrorCode::new(ERROR_INVALID_HANDLE));
                    }
                }
                if !host.can_alloc_handle() {
                    host.set_last_error(ERROR_NOT_ENOUGH_MEMORY);
                    return Err(ErrorCode::new(ERROR_NOT_ENOUGH_MEMORY));
                }
                let now = host.now;
                let row = TimerRow {
                    handle: 0,
                    queue: self.handle,
                    next_due: sat_add64_exec(now, due_time as u64),
                    period,
                    armed: true,
                    alive: true,
                    pending: 0,
                    completed: 0,
                    callback: cb,
                    param,
                    flags: flags.inner,
                };
                assert(row == new_timer_row(
                    self.handle,
                    cb,
                    param,
                    due_time,
                    period,
                    flags.inner,
                    now,
                ));
                let started = run_timer(row, now);
                let h = host.push_timer_row(started);
                Ok(QueueTimer { queue: self.handle, inner: h })
            },
        }
    }
}

/// A timer registered on a queue: it references, but does not own, the
/// queue, and owns only the registration within it.
pub struct QueueTimer {
    /// Handle of the owning queue; `0` for the default queue.
    pub queue: usize,
    /// The timer's own handle.
    pub inner: usize,
}

impl QueueTimer {
    /// Cancels the timer without consuming the value. Under [`Wait`] the
    /// call does not return before every in-flight callback run of this
    /// timer has finished — its completed count reaches its final value
    /// here; under [`NoWait`] in-flight runs may still execute afterwards
    /// and the counts are left as they were. The caller must not use the
    /// timer, nor let the backend's drop path delete it again, after
    /// cancelling.
    pub fn cancel<T: CompleteEvent>(&self, host: &mut Host, _event: T) -> (r: Result<()>)
        requires
            old(host).wf(),
        ensures
            final(host).wf(),
            match old(host).fail_next {
                Some(c) => r == Result::<()>::Err(ErrorCode::new_spec(c)) && Host::failed_with(
                    *old(host),
                    *final(host),
                    c,
                ),
                None => {
                    if timer_live(*old(host), self.inner) {
                        &&& r == Result::<()>::Ok(())
                        &&& exists|i: int|
                            {
                                &&& 0 <= i < old(host).timers@.len()
                                &&& (#[trigger] old(host).timers@[i]).handle == self.inner
                                &&& old(host).timers@[i].alive
                                &&& final(host).timers@ == old(host).timers@.update(
                                    i,
                                    deleted_row(old(host).timers@[i], T::spec_waits()),
                                )
                            }
                        &&& final(host).queues == old(host).queues
                        &&& Host::same_err(*old(host), *final(host))
                        &&& Host::same_alloc(*old(host), *final(host))
                        &&& Host::same_clock(*old(host), *final(host))
                        &&& Host::same_ids(*old(host), *final(host))
                        &&& Host::same_windows(*old(host), *final(host))
                        &&& Host::same_processes(*old(host), *final(host))
                        &&& Host::same_files(*old(host), *final(host))
                        &&& Host::same_messages(*old(host), *final(host))
                    } else {
                        r == Result::<()>::Err(ErrorCode::new_spec(ERROR_INVALID_HANDLE))
                            && Host::failed_with(*old(host), *final(host), ERROR_INVALID_HANDLE)
                    }
                },
            },
    {
        match host.take_fault() {
            Some(c) => Err(ErrorCode::new(c)),
            None => {
                let found = find_timer(host, self.inner);
                match found {
                    None => {
                        host.set_last_error(ERROR_INVALID_HANDLE);
                        Err(ErrorCode::new(ERROR_INVALID_HANDLE))
                    },
                    Some(i) => {
                        let t = host.timers[i];
                        if !t.alive {
                            host.set_last_error(ERROR_INVALID_HANDLE);
                            return Err(ErrorCode::new(ERROR_INVALID_HANDLE));
                        }
                        let mut r = t;
                        r.alive = false;
                        r.armed = false;
                        if T::waits() {
                            r.completed = sat_add64_exec(t.completed, t.pending);
                            r.pending = 0;
                        }
                        assert(r == deleted_row(t, T::spec_waits()));
                        host.timers[i] = r;
                        Ok(())
                    },
                }
            },
        }
    }

    /// Re-schedules the timer. The documented caveat holds: resetting a
    /// one-shot timer that has already fired is silently ignored — success
    /// is reported and nothing changes. With `due_time == 0` a callback run
    /// is dispatched on the reset path itself.
    pub fn reset(&self, host: &mut Host, due_time: u32, period: u32) -> (r: Result<()>)
        requires
            old(host).wf(),
        ensures
            final(host).wf(),
            match old(host).fail_next {
                Some(c) => r == Result::<()>::Err(ErrorCode::new_spec(c)) && Host::failed_with(
                    *old(host),
                    *final(host),
                    c,
                ),
                None => {
                    if timer_live(*old(host), self.inner) {
                        &&& r == Result::<()>::Ok(())
                        &&& exists|i: int|
                            {
                                &&& 0 <= i < old(host).timers@.len()
                                &&& (#[trigger] old(host).timers@[i]).handle == self.inner
                                &&& old(host).timers@[i].alive
                                &&& final(host).timers@ == old(host).timers@.update(
                                    i,
                                    reset_row(old(host).timers@[i], due_time, period, old(host).now),
                                )
                            }
                        &&& final(host).queues == old(host).queues
                        &&& Host::same_err(*old(host), *final(host))
                        &&& Host::same_alloc(*old(host), *final(host))
                        &&& Host::same_clock(*old(host), *final(host))
                        &&& Host::same_ids(*old(host), *final(host))
                        &&& Host::same_windows(*old(host), *final(host))
                        &&& Host::same_processes(*old(host), *final(host))
                        &&& Host::same_files(*old(host), *final(host))
                        &&& Host::same_messages(*old(host), *final(host))
                    } else {
                        r == Result::<()>::Err(ErrorCode::new_spec(ERROR_INVALID_HANDLE))
                            && Host::failed_with(*old(host), *final(host), ERROR_INVALID_HANDLE)
                    }
                },
            },
    {
        match host.take_fault() {
            Some(c) => Err(ErrorCode::new(c)),
            None => {
                let found = find_timer(host, self.inner);
                match found {
                    None => {
                        host.set_last_error(ERROR_INVALID_HANDLE);
                        Err(ErrorCode::new(ERROR_INVALID_HANDLE))
                    },
                    Some(i) => {
                        let t = host.timers[i];
                        if !t.alive {
                            host.set_last_error(ERROR_INVALID_HANDLE);
                            return Err(ErrorCode::new(ERROR_INVALID_HANDLE));
                        }
                        if !t.armed && t.period == 0 {
                            // expired one-shot: the host ignores the update
                            assert(reset_row(t, due_time, period, host.now) == t);
                            proof {
                                assert(host.timers@.update(i as int, t) =~= host.timers@);
                            }
                            return Ok(());
                        }
                        let now = host.now;
                        let mut armed = t;
                        armed.next_due = sat_add64_exec(now, due_time as u64);
                        armed.period = period;
                        armed.armed = true;
                        let r = run_timer(armed, now);
                        assert(r == reset_row(t, due_time, period, now));
                        proof {
                            crate::host::lemma_fired_frame(armed, now);
                            assert(r.handle == t.handle);
                        }
                        host.timers[i] = r;
                        Ok(())
                    },
                }
            },
        }
    }

    /// Deletes the timer and consumes it; see [`QueueTimer::cancel`] for the
    /// completion policies.
    pub fn delete<T: CompleteEvent>(self, host: &mut Host, event: T) -> (r: Result<()>)
        requires
            old(host).wf(),
        ensures
            final(host).wf(),
            match old(host).fail_next {
                Some(c) => r == Result::<()>::Err(ErrorCode::new_spec(c)) && Host::failed_with(
                    *old(host),
                    *final(host),
                    c,
                ),
                None => {
                    if timer_live(*old(host), self.inner) {
                        &&& r == Result::<()>::Ok(())
                        &&& exists|i: int|
                            {
                                &&& 0 <= i < old(host).timers@.len()
                                &&& (#[trigger] old(host).timers@[i]).handle == self.inner
                                &&& old(host).timers@[i].alive
                                &&& final(host).timers@ == old(host).timers@.update(
                                    i,
                                    deleted_row(old(host).timers@[i], T::spec_waits()),
                                )
                            }
                        &&& final(host).queues == old(host).queues
                        &&& Host::same_err(*old(host), *final(host))
                        &&& Host::same_alloc(*old(host), *final(host))
                        &&& Host::same_clock(*old(host), *final(host))
                        &&& Host::same_ids(*old(host), *final(host))
                        &&& Host::same_windows(*old(host), *final(host))
                        &&& Host::same_processes(*old(host), *final(host))
                        &&& Host::same_files(*old(host), *final(host))
                        &&& Host::same_messages(*old(host), *final(host))
                    } else {
                        r == Result::<()>::Err(ErrorCode::new_spec(ERROR_INVALID_HANDLE))
                            && Host::failed_with(*old(host), *final(host), ERROR_INVALID_HANDLE)
                    }
                },
            },
    {
        self.cancel(host, event)
    }

    /// What the backend's drop path runs when a timer goes out of scope
    /// without an explicit delete: a no-wait cancellation whose outcome is
    /// ignored. Total and non-blocking: the registration ends, but no
    /// in-flight callback run is drained — the counts stay as they were.
    pub fn drop_delete(&self, host: &mut Host)
        requires
            old(host).wf(),
        ensures
            final(host).wf(),
            final(host).timers@.len() == old(host).timers@.len(),
            forall|j: int|
                0 <= j < old(host).timers@.len() ==> (#[trigger] final(host).timers@[j]).pending
                    == old(host).timers@[j].pending && final(host).timers@[j].completed == old(
                    host,
                ).timers@[j].completed,
            match old(host).fail_next {
                Some(c) => Host::failed_with(*old(host), *final(host), c),
                None => {
                    if timer_live(*old(host), self.inner) {
                        &&& exists|i: int|
                            {
                                &&& 0 <= i < old(host).timers@.len()
                                &&& (#[trigger] old(host).timers@[i]).handle == self.inner
                                &&& old(host).timers@[i].alive
                                &&& final(host).timers@ == old(host).timers@.update(
                                    i,
                                    deleted_row(old(host).timers@[i], false),
                                )
                            }
                        &&& final(host).queues == old(host).queues
                        &&& Host::same_err(*old(host), *final(host))
                        &&& Host::same_alloc(*old(host), *final(host))
                        &&& Host::same_clock(*old(host), *final(host))
                        &&& Host::same_ids(*old(host), *final(host))
                        &&& Host::same_windows(*old(host), *final(host))
                        &&& Host::same_processes(*old(host), *final(host))
                        &&& Host::same_files(*old(host), *final(host))
                        &&& Host::same_messages(*old(host), *final(host))
                    } else {
                        Host::failed_with(*old(host), *final(host), ERROR_INVALID_HANDLE)
                    }
                },
            },
    {
        let ghost pre = *host;
        let _ = self.cancel(host, NoWait);
    }
}

/// Law: a deletion that waits for completion leaves no callback run in
/// flight and brings the completed count to its final value — every run
/// dispatched before the deletion has finished when it returns; a deletion
/// that does not wait leaves both counts exactly as they were, so runs may
/// still finish afterwards.
pub proof fn lemma_delete_policy(t: TimerRow)
    ensures
        deleted_row(t, true).pending == 0,
        deleted_row(t, true).completed == sat_add64(t.completed, t.pending),
        deleted_row(t, false).pending == t.pending,
        deleted_row(t, false).completed == t.completed,
        !deleted_row(t, true).alive,
        !deleted_row(t, false).alive,
        !deleted_row(t, true).armed,
        !deleted_row(t, false).armed,
{
}

/// A timer row after a reset to `(due_time, period)` at time `now`: an
/// expired one-shot is left untouched; otherwise the schedule is re-armed
/// and anything already due (a zero due time) is dispatched at once.
pub open spec fn reset_row(t: TimerRow, due_time: u32, period: u32, now: u64) -> TimerRow {
    if !t.armed && t.period == 0 {
        t
    } else {
        fired_up_to(
            TimerRow { next_due: sat_add64(now, due_time as u64), period, armed: true, ..t },
            now,
        )
    }
}

/// Retrieves the frequency of the host's performance counter; fixed at boot.
pub fn query_performance_frequency(host: &mut Host) -> (r: Result<i64>)
    requires
        old(host).wf(),
    ensures
        final(host).wf(),
        match r {
            Ok(v) => old(host).fail_next == None::<u32> && v == old(host).perf_frequency
                && *final(host) == *old(host),
            Err(e) => old(host).fail_next == Some(e.spec_code()) && Host::failed_with(
                *old(host),
                *final(host),
                e.spec_code(),
            ),
        },
{
    match host.take_fault() {
        Some(c) => Err(ErrorCode::new(c)),
        None => Ok(host.perf_frequency),
    }
}

/// Retrieves the current value of the host's performance counter.
pub fn query_performance_counter(host: &mut Host) -> (r: Result<i64>)
    requires
        old(host).wf(),
    ensures
        final(host).wf(),
        match r {
            Ok(v) => old(host).fail_next == None::<u32> && v == old(host).perf_counter
                && *final(host) == *old(host),
            Err(e) => old(host).fail_next == Some(e.spec_code()) && Host::failed_with(
                *old(host),
                *final(host),
                e.spec_code(),
            ),
        },
{
    match host.take_fault() {
        Some(c) => Err(ErrorCode::new(c)),
        None => Ok(host.perf_counter),
    }
}

} // verus!
