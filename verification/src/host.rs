//! An explicit model of the native host the wrappers talk to.
//!
//! The host is a plain value: tables of windows, processes, open process
//! handles, file-system entries, search cursors, timer queues and timers, a
//! message queue, a millisecond clock, and the per-thread last-error cell.
//! Every operation of the library takes the host as an argument and its
//! contract states exactly how the host changes, so the wrapper layer's
//! decisions (sentinel checks, the last-error protocol, deletion policies)
//! are machine-checked rather than assumed.
//!
//! Failure injection: a host call that can fail does fail when `fail_next`
//! holds a code; the call consumes the code and stores it in `last_error`,
//! exactly as a failing native call would.

use vstd::prelude::*;
use crate::sys::{MSG, MEMORY_BASIC_INFORMATION};

verus! {

#[derive(Debug)]
/// One window known to the host.
pub struct WindowRow {
    /// The window's handle; nonzero.
    pub handle: usize,
    /// Parent window handle; `0` for a top-level window.
    pub parent: usize,
    /// Name of the window's class.
    pub class: String,
    /// The window's title text.
    pub title: String,
    /// Process that created the window.
    pub pid: u32,
    /// Thread that created the window.
    pub tid: u32,
    /// Whether the window is currently shown.
    pub visible: bool,
    /// Whether the window still exists.
    pub alive: bool,
    /// How many button-click messages the window has absorbed.
    pub clicks: u32,
}

#[derive(Debug)]
/// One process known to the host.
pub struct ProcessRow {
    /// Process identifier; unique among the host's processes.
    pub pid: u32,
    /// Full path of the process's executable.
    pub exe_path: String,
    /// Whether the process is still running.
    pub alive: bool,
    /// Exit code, meaningful once `alive` is false.
    pub exit_code: u32,
    /// First mapped address of the readable span.
    pub mem_base: usize,
    /// Bytes mapped from `mem_base` upward.
    pub mem: Vec<u8>,
    /// Address-space regions, for virtual queries.
    pub regions: Vec<MEMORY_BASIC_INFORMATION>,
}

#[derive(Clone, Copy, Debug, PartialEq, Eq, Structural)]
/// One open process handle.
pub struct HandleRow {
    /// The handle value; nonzero.
    pub handle: usize,
    /// Process the handle refers to.
    pub pid: u32,
    /// Access rights the handle was opened with.
    pub access: u32,
    /// Whether the handle is still open.
    pub open: bool,
}

#[derive(Debug)]
/// One file-system entry visible to searches.
pub struct FileRow {
    /// The entry's name.
    pub name: String,
    /// Attribute bits of the entry.
    pub attributes: u32,
    /// High half of the entry's size.
    pub size_high: u32,
    /// Low half of the entry's size.
    pub size_low: u32,
}

#[derive(Debug)]
/// One open file-search cursor.
pub struct SearchRow {
    /// The cursor's handle; nonzero.
    pub handle: usize,
    /// Pattern the search was opened with.
    pub pattern: String,
    /// Index into the file table from which the next match is sought.
    pub pos: usize,
    /// Whether the cursor is still open.
    pub open: bool,
}

#[derive(Clone, Copy, Debug, PartialEq, Eq, Structural)]
/// One timer queue.
pub struct QueueRow {
    /// The queue's handle; nonzero.
    pub handle: usize,
    /// Whether the queue still exists.
    pub alive: bool,
}

#[derive(Clone, Copy, Debug, PartialEq, Eq, Structural)]
/// One timer registration, together with the observable effect of its
/// callback: the host counts dispatched and completed callback runs.
pub struct TimerRow {
    /// The timer's handle; nonzero.
    pub handle: usize,
    /// Handle of the owning queue; `0` for the default queue.
    pub queue: usize,
    /// Absolute host time of the next firing, while `armed`.
    pub next_due: u64,
    /// Firing period in milliseconds; `0` for a one-shot timer.
    pub period: u32,
    /// Whether a future firing is scheduled.
    pub armed: bool,
    /// Whether the registration still exists.
    pub alive: bool,
    /// Callback runs dispatched to a pool thread and not yet finished.
    pub pending: u64,
    /// Callback runs that have finished.
    pub completed: u64,
    /// Address of the callback, or `None` for no callback.
    pub callback: Option<usize>,
    /// Parameter handed to the callback.
    pub param: usize,
    /// `WT_*` flag bits the timer was registered with.
    pub flags: u32,
}

/// `a + b`, stopping at the top of the counter range.
pub open spec fn sat_add64(a: u64, b: u64) -> u64 {
    if a + b > u64::MAX {
        u64::MAX
    } else {
        (a + b) as u64
    }
}

/// One callback dispatch of an armed, due timer: the run becomes pending and
/// the schedule moves on (a one-shot disarms; a periodic timer re-arms one
/// period later, or disarms at the top of the clock range).
pub open spec fn dispatch_once(t: TimerRow) -> TimerRow {
    let fired = TimerRow { pending: sat_add64(t.pending, 1), ..t };
    if t.period == 0 {
        TimerRow { armed: false, ..fired }
    } else if t.next_due > u64::MAX - t.period {
        TimerRow { armed: false, ..fired }
    } else {
        TimerRow { next_due: (t.next_due + t.period) as u64, ..fired }
    }
}

/// A timer after the host clock has reached `now`: every due firing has been
/// dispatched.
pub open spec fn fired_up_to(t: TimerRow, now: u64) -> TimerRow
    decreases (if t.armed && t.next_due <= now { now + 1 - t.next_due } else { 0 }) as int
{
    if t.armed && t.next_due <= now {
        fired_up_to(dispatch_once(t), now)
    } else {
        t
    }
}

/// A timer once the pool threads have finished every dispatched run.
pub open spec fn settled(t: TimerRow) -> TimerRow {
    TimerRow { pending: 0, completed: sat_add64(t.completed, t.pending), ..t }
}

/// The host.
#[derive(Debug)]
pub struct Host {
    /// The per-thread last-error cell.
    pub last_error: u32,
    /// When set, the next fallible host call fails with this code.
    pub fail_next: Option<u32>,
    /// Next handle value to hand out; all existing handles are below it.
    pub next_handle: usize,
    /// Millisecond clock.
    pub now: u64,
    /// Identifier of the calling process.
    pub current_pid: u32,
    /// Identifier of the calling thread.
    pub current_tid: u32,
    /// Handle of the active window, or `0`.
    pub active_window: usize,
    /// Handle of the console window, or `0`.
    pub console_window: usize,
    /// Frequency of the performance counter; fixed at boot.
    pub perf_frequency: i64,
    /// Current value of the performance counter.
    pub perf_counter: i64,
    /// Window table.
    pub windows: Vec<WindowRow>,
    /// Process table.
    pub processes: Vec<ProcessRow>,
    /// Open process handles.
    pub process_handles: Vec<HandleRow>,
    /// File-system entries visible to searches.
    pub files: Vec<FileRow>,
    /// Open search cursors.
    pub searches: Vec<SearchRow>,
    /// Timer queues.
    pub queues: Vec<QueueRow>,
    /// Timer registrations.
    pub timers: Vec<TimerRow>,
    /// Pending messages of the calling thread.
    pub messages: Vec<MSG>,
    /// Messages handed to window procedures by dispatching.
    pub dispatched: Vec<MSG>,
    /// Messages delivered by direct sends the model gives no meaning to.
    pub sent: Vec<MSG>,
}

impl Host {
    /// Whether a fresh handle can still be handed out.
    pub open spec fn can_alloc(self) -> bool {
        self.next_handle < usize::MAX - 2
    }

    /// Well-formedness: handles are nonzero, below the allocation mark and
    /// unique within their table; process identifiers are unique.
    pub open spec fn wf(self) -> bool {
        &&& 0 < self.next_handle
        &&& forall|i: int|
            0 <= i < self.windows@.len() ==> 0 < (#[trigger] self.windows@[i]).handle
                < self.next_handle
        &&& forall|i: int, j: int|
            0 <= i < j < self.windows@.len() ==> (#[trigger] self.windows@[i]).handle != (
            #[trigger] self.windows@[j]).handle
        &&& forall|i: int, j: int|
            0 <= i < j < self.processes@.len() ==> (#[trigger] self.processes@[i]).pid != (
            #[trigger] self.processes@[j]).pid
        &&& forall|i: int|
            0 <= i < self.process_handles@.len() ==> 0 < (
            #[trigger] self.process_handles@[i]).handle < self.next_handle
        &&& forall|i: int, j: int|
            0 <= i < j < self.process_handles@.len() ==> (
            #[trigger] self.process_handles@[i]).handle != (
            #[trigger] self.process_handles@[j]).handle
        &&& forall|i: int|
            0 <= i < self.searches@.len() ==> 0 < (#[trigger] self.searches@[i]).handle
                < self.next_handle
        &&& forall|i: int, j: int|
            0 <= i < j < self.searches@.len() ==> (#[trigger] self.searches@[i]).handle != (
            #[trigger] self.searches@[j]).handle
        &&& forall|i: int|
            0 <= i < self.queues@.len() ==> 0 < (#[trigger] self.queues@[i]).handle
                < self.next_handle
        &&& forall|i: int, j: int|
            0 <= i < j < self.queues@.len() ==> (#[trigger] self.queues@[i]).handle != (
            #[trigger] self.queues@[j]).handle
        &&& forall|i: int|
            0 <= i < self.timers@.len() ==> 0 < (#[trigger] self.timers@[i]).handle
                < self.next_handle
        &&& forall|i: int, j: int|
            0 <= i < j < self.timers@.len() ==> (#[trigger] self.timers@[i]).handle != (
            #[trigger] self.timers@[j]).handle
    }

    /// The error surface (last-error cell and injected failure) of `pre` and
    /// `post` agree.
    pub open spec fn same_err(pre: Host, post: Host) -> bool {
        post.last_error == pre.last_error && post.fail_next == pre.fail_next
    }

    /// The allocation mark of `pre` and `post` agrees.
    pub open spec fn same_alloc(pre: Host, post: Host) -> bool {
        post.next_handle == pre.next_handle
    }

    /// Clock and performance counter of `pre` and `post` agree.
    pub open spec fn same_clock(pre: Host, post: Host) -> bool {
        post.now == pre.now && post.perf_frequency == pre.perf_frequency && post.perf_counter
            == pre.perf_counter
    }

    /// Caller identity and distinguished windows of `pre` and `post` agree.
    pub open spec fn same_ids(pre: Host, post: Host) -> bool {
        post.current_pid == pre.current_pid && post.current_tid == pre.current_tid
            && post.active_window == pre.active_window && post.console_window == pre.console_window
    }

    /// The window table of `pre` and `post` agrees.
    pub open spec fn same_windows(pre: Host, post: Host) -> bool {
        post.windows == pre.windows
    }

    /// Process table and open process handles of `pre` and `post` agree.
    pub open spec fn same_processes(pre: Host, post: Host) -> bool {
        post.processes == pre.processes && post.process_handles == pre.process_handles
    }

    /// File table and search cursors of `pre` and `post` agree.
    pub open spec fn same_files(pre: Host, post: Host) -> bool {
        post.files == pre.files && post.searches == pre.searches
    }

    /// Timer queues and timers of `pre` and `post` agree.
    pub open spec fn same_timers(pre: Host, post: Host) -> bool {
        post.queues == pre.queues && post.timers == pre.timers
    }

    /// Message queue and delivery logs of `pre` and `post` agree.
    pub open spec fn same_messages(pre: Host, post: Host) -> bool {
        post.messages == pre.messages && post.dispatched == pre.dispatched && post.sent == pre.sent
    }

    /// Everything but the error surface of `pre` and `post` agrees.
    pub open spec fn only_err_changed(pre: Host, post: Host) -> bool {
        &&& Self::same_alloc(pre, post)
        &&& Self::same_clock(pre, post)
        &&& Self::same_ids(pre, post)
        &&& Self::same_windows(pre, post)
        &&& Self::same_processes(pre, post)
        &&& Self::same_files(pre, post)
        &&& Self::same_timers(pre, post)
        &&& Self::same_messages(pre, post)
    }

    /// `post` is `pre` after a failing host call with code `c`: the injected
    /// failure is consumed, the last-error cell holds `c`, nothing else moved.
    pub open spec fn failed_with(pre: Host, post: Host, c: u32) -> bool {
        &&& Self::only_err_changed(pre, post)
        &&& post.fail_next == None::<u32>
        &&& post.last_error == c
    }

    /// A host with nothing in it: no objects, a cleared error cell, the clock
    /// at zero.
    pub fn new() -> (r: Host)
        ensures
            r.wf(),
            r.last_error == 0,
            r.fail_next == None::<u32>,
            r.next_handle == 1,
            r.now == 0,
            r.current_pid == 0,
            r.current_tid == 0,
            r.active_window == 0,
            r.console_window == 0,
            r.perf_frequency == 10000000,
            r.perf_counter == 1,
            r.windows@ =~= Seq::<WindowRow>::empty(),
            r.processes@ =~= Seq::<ProcessRow>::empty(),
            r.process_handles@ =~= Seq::<HandleRow>::empty(),
            r.files@ =~= Seq::<FileRow>::empty(),
            r.searches@ =~= Seq::<SearchRow>::empty(),
            r.queues@ =~= Seq::<QueueRow>::empty(),
            r.timers@ =~= Seq::<TimerRow>::empty(),
            r.messages@ =~= Seq::<MSG>::empty(),
            r.dispatched@ =~= Seq::<MSG>::empty(),
            r.sent@ =~= Seq::<MSG>::empty(),
    {
        Host {
            last_error: 0,
            fail_next: None,
            next_handle: 1,
            now: 0,
            current_pid: 0,
            current_tid: 0,
            active_window: 0,
            console_window: 0,
            perf_frequency: 10000000,
            perf_counter: 1,
            windows: Vec::new(),
            processes: Vec::new(),
            process_handles: Vec::new(),
            files: Vec::new(),
            searches: Vec::new(),
            queues: Vec::new(),
            timers: Vec::new(),
            messages: Vec::new(),
            dispatched: Vec::new(),
            sent: Vec::new(),
        }
    }

    /// Writes the last-error cell, as a failing caller or stale prior work
    /// would.
    pub fn set_last_error(&mut self, code: u32)
        ensures
            final(self).last_error == code,
            final(self).fail_next == old(self).fail_next,
            Self::only_err_changed(*old(self), *final(self)),
            old(self).wf() ==> final(self).wf(),
    {
        self.last_error = code;
    }

    /// Arms the failure injection: the next fallible host call fails with
    /// `code`.
    pub fn fail_next_call(&mut self, code: u32)
        ensures
            final(self).fail_next == Some(code),
            final(self).last_error == old(self).last_error,
            Self::only_err_changed(*old(self), *final(self)),
            old(self).wf() ==> final(self).wf(),
    {
        self.fail_next = Some(code);
    }

    /// Entry step of every fallible host call: consumes an injected failure,
    /// if armed, recording it in the last-error cell.
    pub(crate) fn take_fault(&mut self) -> (r: Option<u32>)
        ensures
            match old(self).fail_next {
                Some(c) => r == Some(c) && Self::failed_with(*old(self), *final(self), c),
                None => r == None::<u32> && *final(self) == *old(self),
            },
            old(self).wf() ==> final(self).wf(),
    {
        match self.fail_next {
            Some(c) => {
                self.fail_next = None;
                self.last_error = c;
                Some(c)
            },
            None => None,
        }
    }

    /// Whether a fresh handle can still be handed out.
    pub fn can_alloc_handle(&self) -> (r: bool)
        ensures
            r == self.can_alloc(),
    {
        self.next_handle < usize::MAX - 2
    }
}

/// Firing a timer changes only its schedule and its pending count.
pub proof fn lemma_fired_frame(t: TimerRow, now: u64)
    ensures
        fired_up_to(t, now).handle == t.handle,
        fired_up_to(t, now).queue == t.queue,
        fired_up_to(t, now).alive == t.alive,
        fired_up_to(t, now).completed == t.completed,
        fired_up_to(t, now).callback == t.callback,
        fired_up_to(t, now).param == t.param,
        fired_up_to(t, now).flags == t.flags,
        fired_up_to(t, now).period == t.period,
    decreases (if t.armed && t.next_due <= now {
        now + 1 - t.next_due
    } else {
        0
    }) as int,
{
    if t.armed && t.next_due <= now {
        lemma_fired_frame(dispatch_once(t), now);
    }
}

/// `a + b`, stopping at the top of the counter range.
pub fn sat_add64_exec(a: u64, b: u64) -> (r: u64)
    ensures
        r == sat_add64(a, b),
{
    if a <= u64::MAX - b {
        a + b
    } else {
        u64::MAX
    }
}

/// Dispatches every firing of `t` that is due at time `now`.
pub(crate) fn run_timer(t: TimerRow, now: u64) -> (r: TimerRow)
    ensures
        r == fired_up_to(t, now),
{
    let mut cur = t;
    while cur.armed && cur.next_due <= now
        invariant
            fired_up_to(cur, now) == fired_up_to(t, now),
        decreases (if cur.armed && cur.next_due <= now {
            now + 1 - cur.next_due
        } else {
            0
        }) as int,
    {
        let mut nxt = cur;
        nxt.pending = sat_add64_exec(nxt.pending, 1);
        if cur.period == 0 {
            nxt.armed = false;
        } else if cur.next_due > u64::MAX - (cur.period as u64) {
            nxt.armed = false;
        } else {
            nxt.next_due = cur.next_due + (cur.period as u64);
        }
        assert(nxt == dispatch_once(cur));
        cur = nxt;
    }
    cur
}

impl Host {
    /// Moves the clock forward by `ms` milliseconds: every firing that comes
    /// due is dispatched to a pool thread and counted as pending. Nothing
    /// completes here; see [`Host::settle`].
    pub fn advance(&mut self, ms: u64)
        requires
            old(self).wf(),
            old(self).now + ms <= u64::MAX,
        ensures
            final(self).wf(),
            final(self).now == old(self).now + ms,
            final(self).timers@.len() == old(self).timers@.len(),
            forall|j: int|
                0 <= j < old(self).timers@.len() ==> final(self).timers@[j] == fired_up_to(
                    old(self).timers@[j],
                    final(self).now,
                ),
            final(self).queues == old(self).queues,
            Self::same_err(*old(self), *final(self)),
            Self::same_alloc(*old(self), *final(self)),
            Self::same_ids(*old(self), *final(self)),
            Self::same_windows(*old(self), *final(self)),
            Self::same_processes(*old(self), *final(self)),
            Self::same_files(*old(self), *final(self)),
            Self::same_messages(*old(self), *final(self)),
            final(self).perf_frequency == old(self).perf_frequency,
            final(self).perf_counter == old(self).perf_counter,
    {
        let ghost pre = *self;
        self.now = self.now + ms;
        let now = self.now;
        let mut i: usize = 0;
        while i < self.timers.len()
            invariant
                pre.wf(),
                i <= self.timers@.len(),
                self.timers@.len() == pre.timers@.len(),
                self.now == now,
                now == pre.now + ms,
                forall|j: int|
                    0 <= j < i ==> self.timers@[j] == fired_up_to(pre.timers@[j], now),
                forall|j: int| i <= j < self.timers@.len() ==> self.timers@[j] == pre.timers@[j],
                self.queues == pre.queues,
                self.last_error == pre.last_error,
                self.fail_next == pre.fail_next,
                self.next_handle == pre.next_handle,
                self.current_pid == pre.current_pid,
                self.current_tid == pre.current_tid,
                self.active_window == pre.active_window,
                self.console_window == pre.console_window,
                self.perf_frequency == pre.perf_frequency,
                self.perf_counter == pre.perf_counter,
                self.windows == pre.windows,
                self.processes == pre.processes,
                self.process_handles == pre.process_handles,
                self.files == pre.files,
                self.searches == pre.searches,
                self.messages == pre.messages,
                self.dispatched == pre.dispatched,
                self.sent == pre.sent,
            decreases self.timers@.len() - i,
        {
            let t = self.timers[i];
            let r = run_timer(t, now);
            proof {
                lemma_fired_frame(pre.timers@[i as int], now);
            }
            self.timers[i] = r;
            i += 1;
        }
        proof {
            assert forall|a: int|
                0 <= a < self.timers@.len() implies 0 < (#[trigger] self.timers@[a]).handle
                < self.next_handle by {
                lemma_fired_frame(pre.timers@[a], now);
            }
            assert forall|a: int, b: int|
                0 <= a < b < self.timers@.len() implies (#[trigger] self.timers@[a]).handle != (
            #[trigger] self.timers@[b]).handle by {
                lemma_fired_frame(pre.timers@[a], now);
                lemma_fired_frame(pre.timers@[b], now);
            }
        }
    }

    /// Lets the pool threads run to quiescence: every dispatched callback
    /// finishes, including runs whose timer or queue is already gone.
    pub fn settle(&mut self)
        requires
            old(self).wf(),
        ensures
            final(self).wf(),
            final(self).timers@.len() == old(self).timers@.len(),
            forall|j: int|
                0 <= j < old(self).timers@.len() ==> final(self).timers@[j] == settled(
                    old(self).timers@[j],
                ),
            final(self).queues == old(self).queues,
            Self::same_err(*old(self), *final(self)),
            Self::same_alloc(*old(self), *final(self)),
            Self::same_clock(*old(self), *final(self)),
            Self::same_ids(*old(self), *final(self)),
            Self::same_windows(*old(self), *final(self)),
            Self::same_processes(*old(self), *final(self)),
            Self::same_files(*old(self), *final(self)),
            Self::same_messages(*old(self), *final(self)),
    {
        let ghost pre = *self;
        let mut i: usize = 0;
        while i < self.timers.len()
            invariant
                pre.wf(),
                i <= self.timers@.len(),
                self.timers@.len() == pre.timers@.len(),
                forall|j: int| 0 <= j < i ==> self.timers@[j] == settled(pre.timers@[j]),
                forall|j: int| i <= j < self.timers@.len() ==> self.timers@[j] == pre.timers@[j],
                self.queues == pre.queues,
                self.last_error == pre.last_error,
                self.fail_next == pre.fail_next,
                self.next_handle == pre.next_handle,
                self.now == pre.now,
                self.current_pid == pre.current_pid,
                self.current_tid == pre.current_tid,
                self.active_window == pre.active_window,
                self.console_window == pre.console_window,
                self.perf_frequency == pre.perf_frequency,
                self.perf_counter == pre.perf_counter,
                self.windows == pre.windows,
                self.processes == pre.processes,
                self.process_handles == pre.process_handles,
                self.files == pre.files,
                self.searches == pre.searches,
                self.messages == pre.messages,
                self.dispatched == pre.dispatched,
                self.sent == pre.sent,
            decreases self.timers@.len() - i,
        {
            let t = self.timers[i];
            let mut r = t;
            r.completed = sat_add64_exec(t.completed, t.pending);
            r.pending = 0;
            assert(r == settled(t));
            self.timers[i] = r;
            i += 1;
        }
    }

    /// Hands out a fresh queue handle and records the queue.
    pub(crate) fn push_queue_row(&mut self) -> (h: usize)
        requires
            old(self).wf(),
            old(self).can_alloc(),
        ensures
            final(self).wf(),
            h == old(self).next_handle,
            0 < h,
            final(self).next_handle == old(self).next_handle + 1,
            final(self).queues@ == old(self).queues@.push(QueueRow { handle: h, alive: true }),
            final(self).timers == old(self).timers,
            Self::same_err(*old(self), *final(self)),
            Self::same_clock(*old(self), *final(self)),
            Self::same_ids(*old(self), *final(self)),
            Self::same_windows(*old(self), *final(self)),
            Self::same_processes(*old(self), *final(self)),
            Self::same_files(*old(self), *final(self)),
            Self::same_messages(*old(self), *final(self)),
    {
        let h = self.next_handle;
        self.queues.push(QueueRow { handle: h, alive: true });
        self.next_handle = h + 1;
        h
    }

    /// Hands out a fresh timer handle and records the registration, with the
    /// handle field overwritten by the fresh value.
    pub(crate) fn push_timer_row(&mut self, row: TimerRow) -> (h: usize)
        requires
            old(self).wf(),
            old(self).can_alloc(),
        ensures
            final(self).wf(),
            h == old(self).next_handle,
            0 < h,
            final(self).next_handle == old(self).next_handle + 1,
            final(self).timers@ == old(self).timers@.push(TimerRow { handle: h, ..row }),
            final(self).queues == old(self).queues,
            Self::same_err(*old(self), *final(self)),
            Self::same_clock(*old(self), *final(self)),
            Self::same_ids(*old(self), *final(self)),
            Self::same_windows(*old(self), *final(self)),
            Self::same_processes(*old(self), *final(self)),
            Self::same_files(*old(self), *final(self)),
            Self::same_messages(*old(self), *final(self)),
    {
        let h = self.next_handle;
        let mut r = row;
        r.handle = h;
        assert(r == (TimerRow { handle: h, ..row }));
        self.timers.push(r);
        self.next_handle = h + 1;
        h
    }

    /// Hands out a fresh search-cursor handle and records the cursor.
    pub(crate) fn push_search_row(&mut self, pattern: String, pos: usize) -> (h: usize)
        requires
            old(self).wf(),
            old(self).can_alloc(),
        ensures
            final(self).wf(),
            h == old(self).next_handle,
            0 < h,
            final(self).next_handle == old(self).next_handle + 1,
            final(self).searches@ == old(self).searches@.push(
                SearchRow { handle: h, pattern, pos, open: true },
            ),
            final(self).files == old(self).files,
            Self::same_err(*old(self), *final(self)),
            Self::same_clock(*old(self), *final(self)),
            Self::same_ids(*old(self), *final(self)),
            Self::same_windows(*old(self), *final(self)),
            Self::same_processes(*old(self), *final(self)),
            Self::same_timers(*old(self), *final(self)),
            Self::same_messages(*old(self), *final(self)),
    {
        let h = self.next_handle;
        self.searches.push(SearchRow { handle: h, pattern, pos, open: true });
        self.next_handle = h + 1;
        h
    }

    /// Hands out a fresh process handle with the given access rights.
    pub(crate) fn push_handle_row(&mut self, pid: u32, access: u32) -> (h: usize)
        requires
            old(self).wf(),
            old(self).can_alloc(),
        ensures
            final(self).wf(),
            h == old(self).next_handle,
            0 < h,
            final(self).next_handle == old(self).next_handle + 1,
            final(self).process_handles@ == old(self).process_handles@.push(
                HandleRow { handle: h, pid, access, open: true },
            ),
            final(self).processes == old(self).processes,
            Self::same_err(*old(self), *final(self)),
            Self::same_clock(*old(self), *final(self)),
            Self::same_ids(*old(self), *final(self)),
            Self::same_windows(*old(self), *final(self)),
            Self::same_files(*old(self), *final(self)),
            Self::same_timers(*old(self), *final(self)),
            Self::same_messages(*old(self), *final(self)),
    {
        let h = self.next_handle;
        self.process_handles.push(HandleRow { handle: h, pid, access, open: true });
        self.next_handle = h + 1;
        h
    }

    /// Hands out a fresh window handle and records the window, with the
    /// handle field overwritten by the fresh value.
    pub(crate) fn push_window_row(&mut self, row: WindowRow) -> (h: usize)
        requires
            old(self).wf(),
            old(self).can_alloc(),
        ensures
            final(self).wf(),
            h == old(self).next_handle,
            0 < h,
            final(self).next_handle == old(self).next_handle + 1,
            final(self).windows@ == old(self).windows@.push(WindowRow { handle: h, ..row }),
            Self::same_err(*old(self), *final(self)),
            Self::same_clock(*old(self), *final(self)),
            Self::same_ids(*old(self), *final(self)),
            Self::same_processes(*old(self), *final(self)),
            Self::same_files(*old(self), *final(self)),
            Self::same_timers(*old(self), *final(self)),
            Self::same_messages(*old(self), *final(self)),
    {
        let h = self.next_handle;
        let mut r = row;
        r.handle = h;
        assert(r == (WindowRow { handle: h, ..row }));
        self.windows.push(r);
        self.next_handle = h + 1;
        h
    }

    /// Adds a window to the host and returns its handle.
    pub fn add_window(
        &mut self,
        parent: usize,
        class: &str,
        title: &str,
        pid: u32,
        tid: u32,
        visible: bool,
    ) -> (h: usize)
        requires
            old(self).wf(),
            old(self).can_alloc(),
        ensures
            final(self).wf(),
            h == old(self).next_handle,
            0 < h,
            final(self).can_alloc() || final(self).next_handle == usize::MAX - 2,
            final(self).next_handle == old(self).next_handle + 1,
            final(self).windows@.len() == old(self).windows@.len() + 1,
            final(self).windows@.drop_last() == old(self).windows@,
            final(self).windows@.last().handle == h,
            final(self).windows@.last().parent == parent,
            final(self).windows@.last().class@ == class@,
            final(self).windows@.last().title@ == title@,
            final(self).windows@.last().pid == pid,
            final(self).windows@.last().tid == tid,
            final(self).windows@.last().visible == visible,
            final(self).windows@.last().alive,
            final(self).windows@.last().clicks == 0,
            Self::same_err(*old(self), *final(self)),
            Self::same_clock(*old(self), *final(self)),
            Self::same_ids(*old(self), *final(self)),
            Self::same_processes(*old(self), *final(self)),
            Self::same_files(*old(self), *final(self)),
            Self::same_timers(*old(self), *final(self)),
            Self::same_messages(*old(self), *final(self)),
    {
        let row = WindowRow {
            handle: 0,
            parent,
            class: class.to_owned(),
            title: title.to_owned(),
            pid,
            tid,
            visible,
            alive: true,
            clicks: 0,
        };
        self.push_window_row(row)
    }

    /// Adds a process to the host. Its identifier must be new.
    pub fn add_process(&mut self, pid: u32, exe_path: &str)
        requires
            old(self).wf(),
            forall|i: int|
                0 <= i < old(self).processes@.len() ==> (#[trigger] old(
                    self,
                ).processes@[i]).pid != pid,
        ensures
            final(self).wf(),
            final(self).processes@.len() == old(self).processes@.len() + 1,
            final(self).processes@.drop_last() == old(self).processes@,
            final(self).processes@.last().pid == pid,
            final(self).processes@.last().exe_path@ == exe_path@,
            final(self).processes@.last().alive,
            final(self).processes@.last().mem_base == 0,
            final(self).processes@.last().mem@.len() == 0,
            final(self).processes@.last().regions@.len() == 0,
            final(self).process_handles == old(self).process_handles,
            Self::same_err(*old(self), *final(self)),
            Self::same_alloc(*old(self), *final(self)),
            Self::same_clock(*old(self), *final(self)),
            Self::same_ids(*old(self), *final(self)),
            Self::same_windows(*old(self), *final(self)),
            Self::same_files(*old(self), *final(self)),
            Self::same_timers(*old(self), *final(self)),
            Self::same_messages(*old(self), *final(self)),
    {
        self.processes.push(
            ProcessRow {
                pid,
                exe_path: exe_path.to_owned(),
                alive: true,
                exit_code: 0,
                mem_base: 0,
                mem: Vec::new(),
                regions: Vec::new(),
            },
        );
    }

    /// Maps `mem` at address `base` in the process with identifier `pid`.
    /// Returns whether such a process exists.
    pub fn set_process_memory(&mut self, pid: u32, base: usize, mem: Vec<u8>) -> (r: bool)
        requires
            old(self).wf(),
        ensures
            final(self).wf(),
            final(self).processes@.len() == old(self).processes@.len(),
            r == (exists|i: int|
                0 <= i < old(self).processes@.len() && (#[trigger] old(self).processes@[i]).pid
                    == pid),
            r ==> exists|i: int|
                {
                    &&& 0 <= i < old(self).processes@.len()
                    &&& (#[trigger] old(self).processes@[i]).pid == pid
                    &&& final(self).processes@ == old(self).processes@.update(
                        i,
                        ProcessRow { mem_base: base, mem, ..old(self).processes@[i] },
                    )
                },
            !r ==> final(self).processes == old(self).processes,
            final(self).process_handles == old(self).process_handles,
            Self::same_err(*old(self), *final(self)),
            Self::same_alloc(*old(self), *final(self)),
            Self::same_clock(*old(self), *final(self)),
            Self::same_ids(*old(self), *final(self)),
            Self::same_windows(*old(self), *final(self)),
            Self::same_files(*old(self), *final(self)),
            Self::same_timers(*old(self), *final(self)),
            Self::same_messages(*old(self), *final(self)),
    {
        let n = self.processes.len();
        let mut i: usize = 0;
        while i < n
            invariant
                old(self).wf(),
                *self == *old(self),
                n == self.processes@.len(),
                i <= n,
                forall|j: int| 0 <= j < i ==> (#[trigger] self.processes@[j]).pid != pid,
            decreases n - i,
        {
            if self.processes[i].pid == pid {
                let row = self.processes.remove(i);
                let updated = ProcessRow { mem_base: base, mem, ..row };
                self.processes.insert(i, updated);
                proof {
                    assert(self.processes@ =~= old(self).processes@.update(
                        i as int,
                        ProcessRow { mem_base: base, mem, ..old(self).processes@[i as int] },
                    ));
                    assert forall|a: int, b: int|
                        0 <= a < b < self.processes@.len() implies (
                    #[trigger] self.processes@[a]).pid != (#[trigger] self.processes@[b]).pid by {
                        assert(self.processes@[a].pid == old(self).processes@[a].pid);
                        assert(self.processes@[b].pid == old(self).processes@[b].pid);
                    }
                }
                return true;
            }
            i += 1;
        }
        false
    }

    /// Appends an address-space region to the process with identifier `pid`.
    /// Returns whether such a process exists.
    pub fn add_process_region(&mut self, pid: u32, region: MEMORY_BASIC_INFORMATION) -> (r: bool)
        requires
            old(self).wf(),
        ensures
            final(self).wf(),
            final(self).processes@.len() == old(self).processes@.len(),
            r == (exists|i: int|
                0 <= i < old(self).processes@.len() && (#[trigger] old(self).processes@[i]).pid
                    == pid),
            r ==> exists|i: int|
                {
                    &&& 0 <= i < old(self).processes@.len()
                    &&& (#[trigger] old(self).processes@[i]).pid == pid
                    &&& final(self).processes@[i].regions@ == old(
                        self,
                    ).processes@[i].regions@.push(region)
                    &&& final(self).processes@ == old(self).processes@.update(
                        i,
                        final(self).processes@[i],
                    )
                },
            !r ==> final(self).processes == old(self).processes,
            final(self).process_handles == old(self).process_handles,
            Self::same_err(*old(self), *final(self)),
            Self::same_alloc(*old(self), *final(self)),
            Self::same_clock(*old(self), *final(self)),
            Self::same_ids(*old(self), *final(self)),
            Self::same_windows(*old(self), *final(self)),
            Self::same_files(*old(self), *final(self)),
            Self::same_timers(*old(self), *final(self)),
            Self::same_messages(*old(self), *final(self)),
    {
        let n = self.processes.len();
        let mut i: usize = 0;
        while i < n
            invariant
                old(self).wf(),
                *self == *old(self),
                n == self.processes@.len(),
                i <= n,
                forall|j: int| 0 <= j < i ==> (#[trigger] self.processes@[j]).pid != pid,
            decreases n - i,
        {
            if self.processes[i].pid == pid {
                let row = self.processes.remove(i);
                let mut regions = row.regions;
                regions.push(region);
                let updated = ProcessRow { regions, ..row };
                self.processes.insert(i, updated);
                proof {
                    assert(self.processes@ =~= old(self).processes@.update(
                        i as int,
                        self.processes@[i as int],
                    ));
                    assert forall|a: int, b: int|
                        0 <= a < b < self.processes@.len() implies (
                    #[trigger] self.processes@[a]).pid != (#[trigger] self.processes@[b]).pid by {
                        assert(self.processes@[a].pid == old(self).processes@[a].pid);
                        assert(self.processes@[b].pid == old(self).processes@[b].pid);
                    }
                }
                return true;
            }
            i += 1;
        }
        false
    }

    /// Adds a file-system entry visible to searches.
    pub fn add_file(&mut self, name: &str, attributes: u32, size_high: u32, size_low: u32)
        requires
            old(self).wf(),
        ensures
            final(self).wf(),
            final(self).files@.len() == old(self).files@.len() + 1,
            final(self).files@.drop_last() == old(self).files@,
            final(self).files@.last().name@ == name@,
            final(self).files@.last().attributes == attributes,
            final(self).files@.last().size_high == size_high,
            final(self).files@.last().size_low == size_low,
            final(self).searches == old(self).searches,
            Self::same_err(*old(self), *final(self)),
            Self::same_alloc(*old(self), *final(self)),
            Self::same_clock(*old(self), *final(self)),
            Self::same_ids(*old(self), *final(self)),
            Self::same_windows(*old(self), *final(self)),
            Self::same_processes(*old(self), *final(self)),
            Self::same_timers(*old(self), *final(self)),
            Self::same_messages(*old(self), *final(self)),
    {
        self.files.push(FileRow { name: name.to_owned(), attributes, size_high, size_low });
    }

    /// Posts a message to the calling thread's queue.
    pub fn add_message(&mut self, msg: MSG)
        requires
            old(self).wf(),
        ensures
            final(self).wf(),
            final(self).messages@ == old(self).messages@.push(msg),
            final(self).dispatched == old(self).dispatched,
            final(self).sent == old(self).sent,
            Self::same_err(*old(self), *final(self)),
            Self::same_alloc(*old(self), *final(self)),
            Self::same_clock(*old(self), *final(self)),
            Self::same_ids(*old(self), *final(self)),
            Self::same_windows(*old(self), *final(self)),
            Self::same_processes(*old(self), *final(self)),
            Self::same_files(*old(self), *final(self)),
            Self::same_timers(*old(self), *final(self)),
    {
        self.messages.push(msg);
    }

    /// How many callback runs of the timer with the given handle have
    /// finished; `0` when no such timer was ever registered.
    pub fn timer_completed(&self, timer: usize) -> (r: u64)
        ensures
            (exists|i: int|
                0 <= i < self.timers@.len() && (#[trigger] self.timers@[i]).handle == timer)
                ==> exists|i: int|
                0 <= i < self.timers@.len() && (#[trigger] self.timers@[i]).handle == timer && r
                    == self.timers@[i].completed,
            (forall|i: int|
                0 <= i < self.timers@.len() ==> (#[trigger] self.timers@[i]).handle != timer) ==> r
                == 0,
    {
        let n = self.timers.len();
        let mut i: usize = 0;
        while i < n
            invariant
                n == self.timers@.len(),
                i <= n,
                forall|j: int| 0 <= j < i ==> (#[trigger] self.timers@[j]).handle != timer,
            decreases n - i,
        {
            if self.timers[i].handle == timer {
                return self.timers[i].completed;
            }
            i += 1;
        }
        0
    }

    /// How many callback runs of the timer with the given handle are
    /// dispatched and unfinished; `0` when no such timer was ever registered.
    pub fn timer_pending(&self, timer: usize) -> (r: u64)
        ensures
            (exists|i: int|
                0 <= i < self.timers@.len() && (#[trigger] self.timers@[i]).handle == timer)
                ==> exists|i: int|
                0 <= i < self.timers@.len() && (#[trigger] self.timers@[i]).handle == timer && r
                    == self.timers@[i].pending,
            (forall|i: int|
                0 <= i < self.timers@.len() ==> (#[trigger] self.timers@[i]).handle != timer) ==> r
                == 0,
    {
        let n = self.timers.len();
        let mut i: usize = 0;
        while i < n
            invariant
                n == self.timers@.len(),
                i <= n,
                forall|j: int| 0 <= j < i ==> (#[trigger] self.timers@[j]).handle != timer,
            decreases n - i,
        {
            if self.timers[i].handle == timer {
                return self.timers[i].pending;
            }
            i += 1;
        }
        0
    }
}

} // verus!
