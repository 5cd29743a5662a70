//! A verified model of a Win32-style native host and the safe wrapper layer
//! a process uses to talk to it: window enumeration through a generic
//! callback trampoline, process and memory access through owned handles,
//! file-search cursors, message retrieval, and a kernel timer queue with
//! wait/no-wait deletion policies.
//!
//! The host is an explicit value ([`host::Host`]), so every decision the
//! wrappers make — which sentinel marks a missing object in each call
//! family, how an interrupted enumeration is told apart from a failed one,
//! what a deletion policy promises about in-flight callbacks — is stated in
//! contracts and machine-checked. A backend that binds the same wrapper
//! logic to a real operating system lives outside the verified library.

pub mod utils;
pub mod sys;
pub mod host;
pub mod timer;
pub mod window;
pub mod file;
pub mod process;
pub mod memory;
pub mod message;

use vstd::prelude::*;
use crate::host::Host;
use crate::utils::{ErrorCode, Result};
use crate::sys::{
    MSG,
    SW_SHOW,
    SW_HIDE,
    ERROR_ACCESS_DENIED,
    ERROR_CANNOT_FIND_WND_CLASS,
    ERROR_INVALID_HANDLE,
    ERROR_INVALID_PARAMETER,
    ERROR_INVALID_WINDOW_HANDLE,
    ERROR_NOT_ENOUGH_MEMORY,
    ERROR_PARTIAL_COPY,
    PROCESS_TERMINATE,
    PROCESS_VM_READ,
    PROCESS_VM_WRITE,
};
use crate::timer::{TimerQueue, QueueTimer, TimerFlags, CallbackType};

verus! {

/// A process, as an owned handle with the identifier it was opened for.
pub struct Process {
    /// Identifier of the process.
    pub pid: u32,
    /// The owned process handle; `0` once closed.
    pub inner: usize,
}

impl Process {
    /// Opens a handle to the process with identifier `pid`, carrying the
    /// requested access rights; see [`process::open`] for the failure cases.
    pub fn open(host: &mut Host, pid: u32, access_rights: u32) -> (r: Result<Process>)
        requires
            old(host).wf(),
        ensures
            final(host).wf(),
            match r {
                Ok(p) => {
                    &&& old(host).fail_next == None::<u32>
                    &&& process::proc_alive(*old(host), pid)
                    &&& old(host).can_alloc()
                    &&& p.pid == pid
                    &&& p.inner == old(host).next_handle
                    &&& process::handle_open(*final(host), p.inner)
                    &&& final(host).process_handles@ == old(host).process_handles@.push(
                        crate::host::HandleRow {
                            handle: p.inner,
                            pid,
                            access: access_rights,
                            open: true,
                        },
                    )
                    &&& final(host).processes == old(host).processes
                    &&& Host::same_err(*old(host), *final(host))
                },
                Err(e) => {
                    &&& Host::failed_with(*old(host), *final(host), e.spec_code())
                    &&& match old(host).fail_next {
                        Some(c) => e.spec_code() == c,
                        None => {
                            if !process::proc_alive(*old(host), pid) {
                                e.spec_code() == ERROR_INVALID_PARAMETER
                            } else {
                                !old(host).can_alloc() && e.spec_code()
                                    == ERROR_NOT_ENOUGH_MEMORY
                            }
                        },
                    }
                },
            },
    {
        match process::open(host, pid, access_rights) {
            Ok(handle) => {
                proof {
                    let n = old(host).process_handles@.len() as int;
                    assert(host.process_handles@[n].handle == handle
                        && host.process_handles@[n].open);
                }
                Ok(Process { pid, inner: handle })
            },
            Err(error) => Err(error),
        }
    }

    /// Adopts an existing handle, asking the host which process it refers
    /// to; the identifier is `0` when the handle is not open.
    pub fn from_raw(host: &Host, handle: usize) -> (r: Process)
        requires
            host.wf(),
        ensures
            r.inner == handle,
            process::handle_open(*host, handle) ==> r.pid == process::handle_row(
                *host,
                handle,
            ).pid,
            !process::handle_open(*host, handle) ==> r.pid == 0,
    {
        Process { pid: process::get_id(host, handle), inner: handle }
    }

    /// The underlying handle; ownership stays here.
    pub fn inner(&self) -> (r: usize)
        ensures
            r == self.inner,
    {
        self.inner
    }

    /// The underlying handle, with ownership: the caller closes it from now
    /// on.
    pub fn into_inner(self) -> (r: usize)
        ensures
            r == self.inner,
    {
        self.inner
    }

    /// The full path of the process's executable; see
    /// [`process::get_exe_path`].
    pub fn exe_path(&self, host: &mut Host) -> (r: Result<String>)
        requires
            old(host).wf(),
        ensures
            final(host).wf(),
            match r {
                Ok(s) => *final(host) == *old(host) && process::handle_open(
                    *old(host),
                    self.inner,
                ) && process::proc_known(
                    *old(host),
                    process::handle_row(*old(host), self.inner).pid,
                ) && s@ == old(host).processes@[process::proc_idx(
                    *old(host),
                    process::handle_row(*old(host), self.inner).pid,
                )].exe_path@,
                Err(e) => {
                    &&& Host::failed_with(*old(host), *final(host), e.spec_code())
                    &&& match old(host).fail_next {
                        Some(c) => e.spec_code() == c,
                        None => (!process::handle_open(*old(host), self.inner)
                            || !process::proc_known(
                            *old(host),
                            process::handle_row(*old(host), self.inner).pid,
                        )) && e.spec_code() == ERROR_INVALID_HANDLE,
                    }
                },
            },
    {
        process::get_exe_path(host, self.inner)
    }

    /// The handle of a window the process created, if it has one; walks the
    /// top-level windows and stops at the first match.
    pub fn window(&self, host: &mut Host) -> (r: Result<Option<usize>>)
        requires
            old(host).wf(),
        ensures
            final(host).wf(),
            Host::only_err_changed(*old(host), *final(host)),
            match old(host).fail_next {
                Some(c) => r == (if c != 0 {
                    Result::<Option<usize>>::Err(ErrorCode::new_spec(c))
                } else {
                    Result::<Option<usize>>::Ok(None)
                }) && final(host).last_error == c,
                None => r == Result::<Option<usize>>::Ok(
                    window::first_pid_window(old(host).windows@, None, self.pid),
                ) && final(host).last_error == 0,
            },
    {
        window::get_by_pid(host, self.pid)
    }

    /// Reads process memory into `storage`, whose length picks the amount;
    /// see [`process::read_memory`] for the failure cases.
    pub fn read_memory(&self, host: &mut Host, base_addr: usize, storage: &mut Vec<u8>) -> (r:
        Result<()>)
        requires
            old(host).wf(),
        ensures
            final(host).wf(),
            final(storage)@.len() == old(storage)@.len(),
            match r {
                Ok(()) => {
                    &&& *final(host) == *old(host)
                    &&& process::handle_open(*old(host), self.inner)
                    &&& {
                        let p = old(host).processes@[process::proc_idx(
                            *old(host),
                            process::handle_row(*old(host), self.inner).pid,
                        )];
                        final(storage)@ == p.mem@.subrange(
                            base_addr - p.mem_base,
                            base_addr - p.mem_base + old(storage)@.len(),
                        )
                    }
                },
                Err(e) => {
                    &&& Host::failed_with(*old(host), *final(host), e.spec_code())
                    &&& final(storage)@ == old(storage)@
                    &&& match old(host).fail_next {
                        Some(c) => e.spec_code() == c,
                        None => {
                            if !process::handle_open(*old(host), self.inner) {
                                e.spec_code() == ERROR_INVALID_HANDLE
                            } else if process::handle_row(*old(host), self.inner).access
                                & PROCESS_VM_READ == 0 {
                                e.spec_code() == ERROR_ACCESS_DENIED
                            } else {
                                !(process::proc_known(
                                    *old(host),
                                    process::handle_row(*old(host), self.inner).pid,
                                ) && process::readable(
                                    old(host).processes@[process::proc_idx(
                                        *old(host),
                                        process::handle_row(*old(host), self.inner).pid,
                                    )],
                                    base_addr,
                                    old(storage)@.len() as int,
                                )) && e.spec_code() == ERROR_PARTIAL_COPY
                            }
                        },
                    }
                },
            },
    {
        process::read_memory(host, self.inner, base_addr, storage)
    }

    /// Writes `data` into process memory; see [`process::write_memory`] for
    /// the failure cases.
    pub fn write_memory(&self, host: &mut Host, base_addr: usize, data: &[u8]) -> (r: Result<()>)
        requires
            old(host).wf(),
        ensures
            final(host).wf(),
            match r {
                Ok(()) => {
                    &&& process::handle_open(*old(host), self.inner)
                    &&& {
                        let pi = process::proc_idx(
                            *old(host),
                            process::handle_row(*old(host), self.inner).pid,
                        );
                        let p = old(host).processes@[pi];
                        let off = base_addr - p.mem_base;
                        &&& final(host).processes@[pi].mem@.len() == p.mem@.len()
                        &&& forall|k: int|
                            0 <= k < p.mem@.len() ==> final(host).processes@[pi].mem@[k] == (
                            if off <= k < off + data@.len() {
                                data@[k - off]
                            } else {
                                p.mem@[k]
                            })
                    }
                    &&& Host::same_err(*old(host), *final(host))
                },
                Err(e) => {
                    &&& Host::failed_with(*old(host), *final(host), e.spec_code())
                    &&& match old(host).fail_next {
                        Some(c) => e.spec_code() == c,
                        None => {
                            if !process::handle_open(*old(host), self.inner) {
                                e.spec_code() == ERROR_INVALID_HANDLE
                            } else if process::handle_row(*old(host), self.inner).access
                                & PROCESS_VM_WRITE == 0 {
                                e.spec_code() == ERROR_ACCESS_DENIED
                            } else {
                                !(process::proc_known(
                                    *old(host),
                                    process::handle_row(*old(host), self.inner).pid,
                                ) && process::readable(
                                    old(host).processes@[process::proc_idx(
                                        *old(host),
                                        process::handle_row(*old(host), self.inner).pid,
                                    )],
                                    base_addr,
                                    data@.len() as int,
                                )) && e.spec_code() == ERROR_PARTIAL_COPY
                            }
                        },
                    }
                },
            },
    {
        process::write_memory(host, self.inner, base_addr, data)
    }

    /// Closes the handle and blanks it. The drop path of a backend treats a
    /// failing close as fatal, so this call asks that the close cannot fail:
    /// the handle is already blank, or it is open and no failure is armed.
    pub fn close(&mut self, host: &mut Host)
        requires
            old(host).wf(),
            old(self).inner == 0 || (old(host).fail_next == None::<u32> && process::handle_open(
                *old(host),
                old(self).inner,
            )),
        ensures
            final(host).wf(),
            final(self).inner == 0,
            final(self).pid == old(self).pid,
            old(self).inner == 0 ==> *final(host) == *old(host),
            old(self).inner != 0 ==> !process::handle_open(*final(host), old(self).inner)
                && Host::same_err(*old(host), *final(host)) && final(host).processes == old(
                host,
            ).processes,
    {
        if self.inner != 0 {
            let ghost pre = *host;
            let res = process::close(host, self.inner);
            proof {
                let i = choose|i: int|
                    0 <= i < pre.process_handles@.len() && (
                    #[trigger] pre.process_handles@[i]).handle == old(self).inner
                        && pre.process_handles@[i].open
                        && host.process_handles@ == pre.process_handles@.update(
                        i,
                        crate::host::HandleRow { open: false, ..pre.process_handles@[i] },
                    );
                if process::handle_open(*host, old(self).inner) {
                    let j = choose|j: int|
                        0 <= j < host.process_handles@.len() && (
                        #[trigger] host.process_handles@[j]).handle == old(self).inner
                            && host.process_handles@[j].open;
                    assert(pre.process_handles@[j].handle == pre.process_handles@[i].handle);
                }
            }
            self.inner = 0;
        }
    }

    /// Forces termination of the process and consumes the value. On success
    /// the handle is deliberately left open, as the owner gave it up; on
    /// failure the consumed value's cleanup closes the handle, since nothing
    /// can close it afterwards. That cleanup close is fatal when it fails,
    /// so this call asks that it cannot: the handle is blank, or it is open.
    pub fn terminate(self, host: &mut Host, exit_code: u32) -> (r: Result<()>)
        requires
            old(host).wf(),
            self.inner == 0 || process::handle_open(*old(host), self.inner),
        ensures
            final(host).wf(),
            match r {
                Ok(()) => {
                    &&& process::handle_open(*old(host), self.inner)
                    &&& !process::proc_alive(
                        *final(host),
                        process::handle_row(*old(host), self.inner).pid,
                    )
                    &&& final(host).process_handles == old(host).process_handles
                    &&& Host::same_err(*old(host), *final(host))
                },
                Err(e) => {
                    &&& final(host).fail_next == None::<u32>
                    &&& final(host).last_error == e.spec_code()
                    &&& match old(host).fail_next {
                        Some(c) => e.spec_code() == c,
                        None => {
                            if self.inner == 0 {
                                e.spec_code() == ERROR_INVALID_HANDLE
                            } else if process::handle_row(*old(host), self.inner).access
                                & PROCESS_TERMINATE == 0 {
                                e.spec_code() == ERROR_ACCESS_DENIED
                            } else {
                                !process::proc_alive(
                                    *old(host),
                                    process::handle_row(*old(host), self.inner).pid,
                                ) && e.spec_code() == ERROR_INVALID_PARAMETER
                            }
                        },
                    }
                    &&& final(host).processes == old(host).processes
                    &&& if self.inner == 0 {
                        final(host).process_handles == old(host).process_handles
                    } else {
                        !process::handle_open(*final(host), self.inner) && exists|i: int|
                            {
                                &&& 0 <= i < old(host).process_handles@.len()
                                &&& (#[trigger] old(host).process_handles@[i]).handle
                                    == self.inner
                                &&& old(host).process_handles@[i].open
                                &&& final(host).process_handles@ == old(
                                    host,
                                ).process_handles@.update(
                                    i,
                                    crate::host::HandleRow {
                                        open: false,
                                        ..old(host).process_handles@[i]
                                    },
                                )
                            }
                    }
                    &&& Host::same_alloc(*old(host), *final(host))
                    &&& Host::same_clock(*old(host), *final(host))
                    &&& Host::same_ids(*old(host), *final(host))
                    &&& Host::same_windows(*old(host), *final(host))
                    &&& Host::same_files(*old(host), *final(host))
                    &&& Host::same_timers(*old(host), *final(host))
                    &&& Host::same_messages(*old(host), *final(host))
                },
            },
    {
        let ghost pre = *host;
        let res = process::terminate(host, self.inner, exit_code);
        match res {
            Ok(()) => {
                proof {
                    let pid = process::handle_row(pre, self.inner).pid;
                    let pi = process::proc_idx(pre, pid);
                    if process::proc_alive(*host, pid) {
                        let j = choose|j: int|
                            0 <= j < host.processes@.len() && (#[trigger] host.processes@[j]).pid
                                == pid && host.processes@[j].alive;
                        assert(pre.processes@[j].pid == pre.processes@[pi].pid);
                    }
                }
                Ok(())
            },
            Err(e) => {
                if self.inner != 0 {
                    let ghost mid = *host;
                    let cres = process::close(host, self.inner);
                    proof {
                        let i = choose|i: int|
                            0 <= i < mid.process_handles@.len() && (
                            #[trigger] mid.process_handles@[i]).handle == self.inner
                                && mid.process_handles@[i].open
                                && host.process_handles@ == mid.process_handles@.update(
                                i,
                                crate::host::HandleRow {
                                    open: false,
                                    ..mid.process_handles@[i]
                                },
                            );
                        if process::handle_open(*host, self.inner) {
                            let j = choose|j: int|
                                0 <= j < host.process_handles@.len() && (
                                #[trigger] host.process_handles@[j]).handle == self.inner
                                    && host.process_handles@[j].open;
                            assert(mid.process_handles@[j].handle
                                == mid.process_handles@[i].handle);
                        }
                    }
                }
                Err(e)
            },
        }
    }
}

/// A queued message, wrapped so that it can be dispatched as a value.
pub struct Msg {
    /// The raw message.
    pub inner: MSG,
}

impl Msg {
    /// Wraps a raw message.
    pub fn new(message: MSG) -> (r: Msg)
        ensures
            r.inner == message,
    {
        Msg { inner: message }
    }

    /// The message identifier.
    pub fn id(&self) -> (r: u32)
        ensures
            r == self.inner.message,
    {
        self.inner.message
    }

    /// The raw message; ownership stays here, so do not dispatch it
    /// yourself.
    pub fn inner(&self) -> (r: MSG)
        ensures
            r == self.inner,
    {
        self.inner
    }

    /// The raw message, with ownership: the caller dispatches it from now
    /// on.
    pub fn into_inner(self) -> (r: MSG)
        ensures
            r == self.inner,
    {
        self.inner
    }

    /// Translates and dispatches the message, consuming it; the host records
    /// the delivery.
    pub fn dispatch(self, host: &mut Host)
        requires
            old(host).wf(),
        ensures
            final(host).wf(),
            final(host).dispatched@ == old(host).dispatched@.push(self.inner),
            final(host).messages == old(host).messages,
            Host::same_err(*old(host), *final(host)),
            Host::same_windows(*old(host), *final(host)),
            Host::same_timers(*old(host), *final(host)),
    {
        let _ = message::translate(&self.inner);
        let _ = message::dispatch(host, &self.inner);
    }
}

/// A configurable reader of the calling thread's message queue: an optional
/// window filter, an optional identifier range, and a blocking or
/// non-blocking mode.
pub struct Messages {
    /// Only messages of this window, when set.
    pub window: Option<usize>,
    /// Lower and upper bound of the message identifiers, when set.
    pub range: (Option<u32>, Option<u32>),
    /// Whether retrieval blocks until a message arrives.
    pub is_block: bool,
}

impl Messages {
    /// A reader with no filtering, blocking.
    pub fn new() -> (r: Messages)
        ensures
            r.window is None,
            r.range == (Option::<u32>::None, Option::<u32>::None),
            r.is_block,
    {
        Messages { window: None, range: (None, None), is_block: true }
    }

    /// Filters for one window.
    pub fn window(&mut self, window: Option<usize>) -> (r: &mut Messages)
        ensures
            *r == (Messages { window, ..*old(self) }),
            *final(self) == *final(r),
    {
        self.window = window;
        self
    }

    /// Sets the lower bound of the identifier range.
    pub fn low(&mut self, low: Option<u32>) -> (r: &mut Messages)
        ensures
            *r == (Messages { range: (low, old(self).range.1), ..*old(self) }),
            *final(self) == *final(r),
    {
        self.range.0 = low;
        self
    }

    /// Sets the upper bound of the identifier range.
    pub fn high(&mut self, high: Option<u32>) -> (r: &mut Messages)
        ensures
            *r == (Messages { range: (old(self).range.0, high), ..*old(self) }),
            *final(self) == *final(r),
    {
        self.range.1 = high;
        self
    }

    /// Makes retrieval blocking.
    pub fn blocking(&mut self) -> (r: &mut Messages)
        ensures
            *r == (Messages { is_block: true, ..*old(self) }),
            *final(self) == *final(r),
    {
        self.is_block = true;
        self
    }

    /// Makes retrieval non-blocking; retrieved messages are removed from the
    /// queue.
    pub fn non_blocking(&mut self) -> (r: &mut Messages)
        ensures
            *r == (Messages { is_block: false, ..*old(self) }),
            *final(self) == *final(r),
    {
        self.is_block = false;
        self
    }

    /// Retrieves the next matching message. In blocking mode the real call
    /// would suspend until one arrives, which the model cannot, so a
    /// matching message — or an injected failure — must be there; in
    /// non-blocking mode an empty queue is `None`.
    pub fn next(&mut self, host: &mut Host) -> (r: Option<Result<Msg>>)
        requires
            old(host).wf(),
            old(self).is_block ==> old(host).fail_next is Some || message::first_msg(
                old(host).messages@,
                old(self).window,
                old(self).range.0,
                old(self).range.1,
                0,
            ) is Some,
        ensures
            final(host).wf(),
            *final(self) == *old(self),
            match old(host).fail_next {
                Some(c) => r == Some(Result::<Msg>::Err(ErrorCode::new_spec(c)))
                    && Host::failed_with(*old(host), *final(host), c),
                None => match message::first_msg(
                    old(host).messages@,
                    old(self).window,
                    old(self).range.0,
                    old(self).range.1,
                    0,
                ) {
                    Some(k) => {
                        &&& r is Some
                        &&& r->0 is Ok
                        &&& r->0->Ok_0.inner == old(host).messages@[k]
                        &&& final(host).messages@ == old(host).messages@.remove(k)
                        &&& Host::same_err(*old(host), *final(host))
                        &&& Host::same_windows(*old(host), *final(host))
                        &&& Host::same_timers(*old(host), *final(host))
                    },
                    None => r is None && *final(host) == *old(host),
                },
            },
    {
        if self.is_block {
            let res = message::get(host, self.window, self.range.0, self.range.1);
            proof {
                if old(host).fail_next is None {
                    let k = message::first_msg(
                        old(host).messages@,
                        old(self).window,
                        old(self).range.0,
                        old(self).range.1,
                        0,
                    )->0;
                    assert(host.messages@ == old(host).messages@.remove(k));
                }
            }
            match res {
                Ok(msg) => Some(Ok(Msg::new(msg))),
                Err(e) => Some(Err(e)),
            }
        } else {
            let res = message::peek(host, self.window, self.range.0, self.range.1, Some(0x0001));
            proof {
                assert(0x0001u32 & crate::sys::PM_REMOVE != 0) by (bit_vector);
            }
            match res {
                Ok(Some(msg)) => Some(Ok(Msg::new(msg))),
                Ok(None) => None,
                Err(error) => Some(Err(error)),
            }
        }
    }
}

/// A window, by handle.
pub struct Window {
    /// The window's handle.
    pub inner: usize,
}

impl Window {
    /// Takes a window by handle.
    pub fn from_hwnd(window: usize) -> (r: Self)
        ensures
            r.inner == window,
    {
        Window { inner: window }
    }

    /// Creates a window from a configured builder; see
    /// [`window::Builder::create`] for the failure cases.
    pub fn from_builder(builder: &window::Builder, host: &mut Host) -> (r: Result<Self>)
        requires
            old(host).wf(),
        ensures
            final(host).wf(),
            match r {
                Ok(w) => {
                    &&& old(host).fail_next == None::<u32>
                    &&& builder.class_name is Some
                    &&& old(host).can_alloc()
                    &&& w.inner == old(host).next_handle
                    &&& final(host).windows@.len() == old(host).windows@.len() + 1
                    &&& final(host).windows@.drop_last() == old(host).windows@
                    &&& final(host).windows@.last().handle == w.inner
                    &&& final(host).windows@.last().class@ == builder.class_name->0@
                    &&& final(host).windows@.last().alive
                    &&& Host::same_err(*old(host), *final(host))
                },
                Err(e) => {
                    &&& Host::failed_with(*old(host), *final(host), e.spec_code())
                    &&& match old(host).fail_next {
                        Some(c) => e.spec_code() == c,
                        None => {
                            if builder.class_name is None {
                                e.spec_code() == ERROR_CANNOT_FIND_WND_CLASS
                            } else {
                                !old(host).can_alloc() && e.spec_code()
                                    == ERROR_NOT_ENOUGH_MEMORY
                            }
                        },
                    }
                },
            },
    {
        match builder.create(host) {
            Ok(win) => Ok(Window::from_hwnd(win)),
            Err(e) => Err(e),
        }
    }

    /// The underlying handle; ownership stays here.
    pub fn inner(&self) -> (r: usize)
        ensures
            r == self.inner,
    {
        self.inner
    }

    /// The underlying handle, with ownership: the caller destroys the window
    /// from now on.
    pub fn into_inner(self) -> (r: usize)
        ensures
            r == self.inner,
    {
        self.inner
    }

    /// Shows the window; true when it was not visible before.
    pub fn show(&self, host: &mut Host) -> (r: bool)
        requires
            old(host).wf(),
        ensures
            final(host).wf(),
            window::window_live(*old(host), self.inner) ==> exists|i: int|
                {
                    &&& 0 <= i < old(host).windows@.len()
                    &&& (#[trigger] old(host).windows@[i]).handle == self.inner
                    &&& old(host).windows@[i].alive
                    &&& r == !old(host).windows@[i].visible
                    &&& final(host).windows@ == old(host).windows@.update(
                        i,
                        crate::host::WindowRow { visible: true, ..old(host).windows@[i] },
                    )
                },
            !window::window_live(*old(host), self.inner) ==> r && final(host).windows == old(
                host,
            ).windows,
            Host::same_err(*old(host), *final(host)),
            Host::same_timers(*old(host), *final(host)),
    {
        !window::show(host, self.inner, SW_SHOW)
    }

    /// Hides the window; true when it was visible before. (The shorter
    /// natural name is reserved by the verifier.)
    pub fn hide_window(&self, host: &mut Host) -> (r: bool)
        requires
            old(host).wf(),
        ensures
            final(host).wf(),
            window::window_live(*old(host), self.inner) ==> exists|i: int|
                {
                    &&& 0 <= i < old(host).windows@.len()
                    &&& (#[trigger] old(host).windows@[i]).handle == self.inner
                    &&& old(host).windows@[i].alive
                    &&& r == old(host).windows@[i].visible
                    &&& final(host).windows@ == old(host).windows@.update(
                        i,
                        crate::host::WindowRow { visible: false, ..old(host).windows@[i] },
                    )
                },
            !window::window_live(*old(host), self.inner) ==> !r && final(host).windows == old(
                host,
            ).windows,
            Host::same_err(*old(host), *final(host)),
            Host::same_timers(*old(host), *final(host)),
    {
        window::show(host, self.inner, SW_HIDE)
    }

    /// Whether the window is live and shown.
    pub fn is_visible(&self, host: &Host) -> (r: bool)
        requires
            host.wf(),
        ensures
            r == (exists|i: int|
                0 <= i < host.windows@.len() && (#[trigger] host.windows@[i]).handle == self.inner
                    && host.windows@[i].alive && host.windows@[i].visible),
    {
        window::is_visible(host, self.inner)
    }

    /// The window's class name; see [`window::get_class`].
    pub fn class(&self, host: &mut Host) -> (r: Result<String>)
        requires
            old(host).wf(),
        ensures
            final(host).wf(),
            match r {
                Ok(s) => *final(host) == *old(host) && exists|i: int|
                    {
                        &&& 0 <= i < old(host).windows@.len()
                        &&& (#[trigger] old(host).windows@[i]).handle == self.inner
                        &&& old(host).windows@[i].alive
                        &&& s@ == old(host).windows@[i].class@
                    },
                Err(e) => {
                    &&& Host::only_err_changed(*old(host), *final(host))
                    &&& match old(host).fail_next {
                        Some(c) => e.spec_code() == c && Host::failed_with(
                            *old(host),
                            *final(host),
                            c,
                        ),
                        None => {
                            &&& *final(host) == *old(host)
                            &&& if !window::window_live(*old(host), self.inner) {
                                e.spec_code() == ERROR_INVALID_WINDOW_HANDLE
                            } else {
                                // the failing read convention: nothing was
                                // written, the stale code is reported
                                e.spec_code() == old(host).last_error && exists|i: int|
                                    {
                                        &&& 0 <= i < old(host).windows@.len()
                                        &&& (#[trigger] old(host).windows@[i]).handle
                                            == self.inner
                                        &&& old(host).windows@[i].alive
                                        &&& old(host).windows@[i].class@.len() == 0
                                    }
                            }
                        },
                    }
                },
            },
    {
        window::get_class(host, self.inner)
    }

    /// The window's title; see [`window::get_text`].
    pub fn title(&self, host: &mut Host) -> (r: Result<String>)
        requires
            old(host).wf(),
        ensures
            final(host).wf(),
            match r {
                Ok(s) => *final(host) == *old(host) && exists|i: int|
                    {
                        &&& 0 <= i < old(host).windows@.len()
                        &&& (#[trigger] old(host).windows@[i]).handle == self.inner
                        &&& old(host).windows@[i].alive
                        &&& s@ == old(host).windows@[i].title@
                    },
                Err(e) => {
                    &&& Host::only_err_changed(*old(host), *final(host))
                    &&& match old(host).fail_next {
                        Some(c) => e.spec_code() == c && Host::failed_with(
                            *old(host),
                            *final(host),
                            c,
                        ),
                        None => {
                            &&& *final(host) == *old(host)
                            &&& if !window::window_live(*old(host), self.inner) {
                                e.spec_code() == ERROR_INVALID_WINDOW_HANDLE
                            } else {
                                // the failing read convention: nothing was
                                // written, the stale code is reported
                                e.spec_code() == old(host).last_error && exists|i: int|
                                    {
                                        &&& 0 <= i < old(host).windows@.len()
                                        &&& (#[trigger] old(host).windows@[i]).handle
                                            == self.inner
                                        &&& old(host).windows@[i].alive
                                        &&& old(host).windows@[i].title@.len() == 0
                                    }
                            }
                        },
                    }
                },
            },
    {
        window::get_text(host, self.inner)
    }

    /// The identifiers of the process and the thread that created the
    /// window; `(0, 0)` when the window is gone.
    pub fn thread_pid(&self, host: &Host) -> (r: (u32, u32))
        requires
            host.wf(),
        ensures
            window::window_live(*host, self.inner) ==> exists|i: int|
                {
                    &&& 0 <= i < host.windows@.len()
                    &&& (#[trigger] host.windows@[i]).handle == self.inner
                    &&& host.windows@[i].alive
                    &&& r == (host.windows@[i].pid, host.windows@[i].tid)
                },
            !window::window_live(*host, self.inner) ==> r == (0u32, 0u32),
    {
        window::get_thread_process_id(host, self.inner)
    }

    /// Sends a message to the window; see [`window::send_message`].
    pub fn send_message(
        &self,
        host: &mut Host,
        msg_type: u32,
        w_param: usize,
        l_param: isize,
        timeout: Option<u32>,
    ) -> (r: Result<isize>)
        requires
            old(host).wf(),
        ensures
            final(host).wf(),
            match timeout {
                None => {
                    &&& r is Ok
                    &&& r->Ok_0 == 0isize
                    &&& if window::window_live(*old(host), self.inner) {
                        Host::same_err(*old(host), *final(host)) && window::sent_post(
                            *old(host),
                            *final(host),
                            self.inner,
                            msg_type,
                            w_param,
                            l_param,
                        )
                    } else {
                        *final(host) == *old(host)
                    }
                },
                Some(_) => match old(host).fail_next {
                    Some(c) => r == Result::<isize>::Err(ErrorCode::new_spec(c))
                        && Host::failed_with(*old(host), *final(host), c),
                    None => {
                        if window::window_live(*old(host), self.inner) {
                            r is Ok && r->Ok_0 == 0isize && Host::same_err(
                                *old(host),
                                *final(host),
                            ) && window::sent_post(
                                *old(host),
                                *final(host),
                                self.inner,
                                msg_type,
                                w_param,
                                l_param,
                            )
                        } else {
                            r == Result::<isize>::Err(
                                ErrorCode::new_spec(ERROR_INVALID_WINDOW_HANDLE),
                            ) && Host::failed_with(
                                *old(host),
                                *final(host),
                                ERROR_INVALID_WINDOW_HANDLE,
                            )
                        }
                    },
                },
            },
    {
        window::send_message(host, self.inner, msg_type, w_param, l_param, timeout)
    }

    /// Sends the button-click message to the window; a live window counts
    /// the click. See [`window::send_push_button`].
    pub fn send_push_button(&self, host: &mut Host, timeout: Option<u32>) -> (r: Result<isize>)
        requires
            old(host).wf(),
        ensures
            final(host).wf(),
            match timeout {
                None => {
                    &&& r is Ok
                    &&& r->Ok_0 == 0isize
                    &&& if window::window_live(*old(host), self.inner) {
                        Host::same_err(*old(host), *final(host)) && window::sent_post(
                            *old(host),
                            *final(host),
                            self.inner,
                            window::BM_CLICK,
                            0,
                            0,
                        )
                    } else {
                        *final(host) == *old(host)
                    }
                },
                Some(_) => match old(host).fail_next {
                    Some(c) => r == Result::<isize>::Err(ErrorCode::new_spec(c))
                        && Host::failed_with(*old(host), *final(host), c),
                    None => {
                        if window::window_live(*old(host), self.inner) {
                            r is Ok && r->Ok_0 == 0isize && Host::same_err(
                                *old(host),
                                *final(host),
                            ) && window::sent_post(
                                *old(host),
                                *final(host),
                                self.inner,
                                window::BM_CLICK,
                                0,
                                0,
                            )
                        } else {
                            r == Result::<isize>::Err(
                                ErrorCode::new_spec(ERROR_INVALID_WINDOW_HANDLE),
                            ) && Host::failed_with(
                                *old(host),
                                *final(host),
                                ERROR_INVALID_WINDOW_HANDLE,
                            )
                        }
                    },
                },
            },
    {
        window::send_push_button(host, self.inner, timeout)
    }

    /// Replaces the window's title text; true when a live window took it.
    pub fn send_set_text(&self, host: &mut Host, text: &str) -> (r: bool)
        requires
            old(host).wf(),
        ensures
            final(host).wf(),
            r == window::window_live(*old(host), self.inner),
            final(host).windows@.len() == old(host).windows@.len(),
            r ==> exists|i: int|
                {
                    &&& 0 <= i < old(host).windows@.len()
                    &&& (#[trigger] old(host).windows@[i]).handle == self.inner
                    &&& old(host).windows@[i].alive
                    &&& final(host).windows@[i].title@ == text@
                    &&& final(host).windows@[i].handle == old(host).windows@[i].handle
                    &&& final(host).windows@[i].parent == old(host).windows@[i].parent
                    &&& final(host).windows@[i].class == old(host).windows@[i].class
                    &&& final(host).windows@[i].pid == old(host).windows@[i].pid
                    &&& final(host).windows@[i].tid == old(host).windows@[i].tid
                    &&& final(host).windows@[i].visible == old(host).windows@[i].visible
                    &&& final(host).windows@[i].alive == old(host).windows@[i].alive
                    &&& final(host).windows@[i].clicks == old(host).windows@[i].clicks
                    &&& forall|j: int|
                        0 <= j < old(host).windows@.len() && j != i
                            ==> final(host).windows@[j] == old(host).windows@[j]
                },
            !r ==> final(host).windows == old(host).windows,
            Host::same_err(*old(host), *final(host)),
            Host::same_alloc(*old(host), *final(host)),
            Host::same_clock(*old(host), *final(host)),
            Host::same_ids(*old(host), *final(host)),
            Host::same_processes(*old(host), *final(host)),
            Host::same_files(*old(host), *final(host)),
            Host::same_timers(*old(host), *final(host)),
            Host::same_messages(*old(host), *final(host)),
    {
        window::send_set_text(host, self.inner, text)
    }

    /// Reads the window's title text; `None` when the window is gone or the
    /// title is empty.
    pub fn send_get_text(&self, host: &Host) -> (r: Option<String>)
        requires
            host.wf(),
        ensures
            match r {
                Some(s) => exists|i: int|
                    {
                        &&& 0 <= i < host.windows@.len()
                        &&& (#[trigger] host.windows@[i]).handle == self.inner
                        &&& host.windows@[i].alive
                        &&& host.windows@[i].title@.len() > 0
                        &&& s@ == host.windows@[i].title@
                    },
                None => !window::window_live(*host, self.inner) || exists|i: int|
                    {
                        &&& 0 <= i < host.windows@.len()
                        &&& (#[trigger] host.windows@[i]).handle == self.inner
                        &&& host.windows@[i].alive
                        &&& host.windows@[i].title@.len() == 0
                    },
            },
    {
        window::send_get_text(host, self.inner)
    }

    /// Sends a system command to the window; a close command destroys it.
    /// See [`window::send_sys_command`].
    pub fn send_sys_command(&self, host: &mut Host, cmd_type: usize, l_param: isize) -> (r: bool)
        requires
            old(host).wf(),
        ensures
            final(host).wf(),
            r,
            window::window_live(*old(host), self.inner) ==> window::sent_post(
                *old(host),
                *final(host),
                self.inner,
                crate::sys::WM_SYSCOMMAND,
                cmd_type,
                l_param,
            ),
            !window::window_live(*old(host), self.inner) ==> *final(host) == *old(host),
    {
        window::send_sys_command(host, self.inner, cmd_type, l_param)
    }

    /// Destroys the window and consumes the value; nothing else of the host
    /// moves.
    pub fn destroy(self, host: &mut Host)
        requires
            old(host).wf(),
        ensures
            final(host).wf(),
            !window::window_live(*final(host), self.inner),
            if window::window_live(*old(host), self.inner) {
                exists|i: int|
                    {
                        &&& 0 <= i < old(host).windows@.len()
                        &&& (#[trigger] old(host).windows@[i]).handle == self.inner
                        &&& old(host).windows@[i].alive
                        &&& final(host).windows@ == old(host).windows@.update(
                            i,
                            crate::host::WindowRow {
                                alive: false,
                                visible: false,
                                ..old(host).windows@[i]
                            },
                        )
                    }
            } else {
                final(host).windows == old(host).windows
            },
            Host::same_err(*old(host), *final(host)),
            Host::same_alloc(*old(host), *final(host)),
            Host::same_clock(*old(host), *final(host)),
            Host::same_ids(*old(host), *final(host)),
            Host::same_processes(*old(host), *final(host)),
            Host::same_files(*old(host), *final(host)),
            Host::same_timers(*old(host), *final(host)),
            Host::same_messages(*old(host), *final(host)),
    {
        let ghost pre = *host;
        let r = window::destroy(host, self.inner);
        proof {
            if window::window_live(*host, self.inner) {
                let j = choose|j: int|
                    0 <= j < host.windows@.len() && (#[trigger] host.windows@[j]).handle
                        == self.inner && host.windows@[j].alive;
                if window::window_live(pre, self.inner) {
                    let i = choose|i: int|
                        {
                            &&& 0 <= i < pre.windows@.len()
                            &&& (#[trigger] pre.windows@[i]).handle == self.inner
                            &&& pre.windows@[i].alive
                            &&& host.windows@ == pre.windows@.update(
                                i,
                                crate::host::WindowRow {
                                    alive: false,
                                    visible: false,
                                    ..pre.windows@[i]
                                },
                            )
                        };
                    assert(pre.windows@[j].handle == pre.windows@[i].handle);
                }
            }
        }
    }
}


/// The model address of the fixed adapter that lets a plain function stand
/// where the host expects its callback signature.
pub const RUST_CALLBACK_TRAMPOLINE: usize = usize::MAX - 4;

/// The timeout a timer builder has gathered so far: nothing, a one-shot
/// delay, a repetition interval, or both.
#[derive(Clone, Copy, Debug, PartialEq, Eq, Structural)]
pub enum TimeoutType {
    /// Nothing chosen yet.
    Unset,
    /// Fire once after this many milliseconds.
    Single(u32),
    /// Fire every this many milliseconds.
    Interval(u32),
    /// Fire once after the first value, then every second value.
    Both(u32, u32),
}

impl TimeoutType {
    /// The `(due_time, period)` pair the timeout resolves to.
    pub open spec fn spec_into_raw(self) -> (u32, u32) {
        match self {
            TimeoutType::Unset => (0, 0),
            TimeoutType::Single(delay) => (delay, 0),
            TimeoutType::Interval(interval) => (0, interval),
            TimeoutType::Both(delay, interval) => (delay, interval),
        }
    }

    /// Resolves the timeout into the `(due_time, period)` pair a
    /// registration takes.
    pub fn into_raw(self) -> (r: (u32, u32))
        ensures
            r == self.spec_into_raw(),
    {
        match self {
            TimeoutType::Unset => (0, 0),
            TimeoutType::Single(delay) => (delay, 0),
            TimeoutType::Interval(interval) => (0, interval),
            TimeoutType::Both(delay, interval) => (delay, interval),
        }
    }
}

/// A one-shot delay merged in: it replaces the one-shot component and keeps
/// an interval already chosen.
pub open spec fn merge_single(t: TimeoutType, delay: u32) -> TimeoutType {
    match t {
        TimeoutType::Interval(interval) => TimeoutType::Both(delay, interval),
        TimeoutType::Both(_, interval) => TimeoutType::Both(delay, interval),
        _ => TimeoutType::Single(delay),
    }
}

/// An interval merged in: it replaces the interval component and keeps a
/// one-shot delay already chosen.
pub open spec fn merge_interval(t: TimeoutType, interval: u32) -> TimeoutType {
    match t {
        TimeoutType::Single(delay) => TimeoutType::Both(delay, interval),
        TimeoutType::Both(delay, _) => TimeoutType::Both(delay, interval),
        _ => TimeoutType::Interval(interval),
    }
}

/// Law: choosing a one-shot delay `a` and an interval `b` yields
/// `Both(a, b)` in either order, from every starting state.
pub proof fn lemma_single_interval_merge(t: TimeoutType, a: u32, b: u32)
    ensures
        merge_interval(merge_single(t, a), b) == TimeoutType::Both(a, b),
        merge_single(merge_interval(t, b), a) == TimeoutType::Both(a, b),
{
}

/// A timer builder: a callback, an optional queue (else the default queue),
/// a timeout gathered from one-shot and interval settings, and flags. The
/// same timer can act as a one-shot and as an interval timer: when both are
/// set it fires once after the delay and then repeats with the interval.
pub struct TimerBuilder {
    /// Queue to register on; `None` for the default queue.
    pub queue: Option<usize>,
    /// Model address of the callback, or `None` for no callback.
    pub callback: CallbackType,
    /// Parameter handed to the callback.
    pub param: usize,
    /// Timeout gathered so far.
    pub timeout: TimeoutType,
    /// Flag bits for the registration.
    pub flags: TimerFlags,
}

impl TimerBuilder {
    /// A builder with no callback, the default queue, no timeout and the
    /// default flags.
    pub fn new() -> (r: Self)
        ensures
            r.queue is None,
            r.callback is None,
            r.param == 0,
            r.timeout == TimeoutType::Unset,
            r.flags.inner == 0,
    {
        TimerBuilder {
            queue: None,
            callback: None,
            param: 0,
            timeout: TimeoutType::Unset,
            flags: TimerFlags::new(),
        }
    }

    /// Sets a host-signature callback by model address, with an optional
    /// parameter.
    pub fn raw_callback(self, cb: CallbackType, param: Option<usize>) -> (r: Self)
        ensures
            r == (TimerBuilder {
                callback: cb,
                param: (match param {
                    Some(p) => p,
                    None => 0,
                }),
                ..self
            }),
    {
        TimerBuilder {
            callback: cb,
            param: match param {
                Some(p) => p,
                None => 0,
            },
            ..self
        }
    }

    /// Sets a plain function as the callback, by model address: the fixed
    /// adapter carries it under the host's callback signature.
    pub fn rust_callback(self, cb: usize) -> (r: Self)
        ensures
            r == (TimerBuilder {
                callback: Some(RUST_CALLBACK_TRAMPOLINE),
                param: cb,
                ..self
            }),
    {
        TimerBuilder { callback: Some(RUST_CALLBACK_TRAMPOLINE), param: cb, ..self }
    }

    /// Registers on the given queue instead of the default one.
    pub fn queue(self, queue: &TimerQueue) -> (r: Self)
        ensures
            r == (TimerBuilder { queue: Some(queue.handle), ..self }),
    {
        TimerBuilder { queue: Some(queue.handle), ..self }
    }

    /// Makes the timer fire once after `delay` milliseconds; an interval
    /// already chosen is kept.
    pub fn single(self, delay: u32) -> (r: Self)
        ensures
            r == (TimerBuilder { timeout: merge_single(self.timeout, delay), ..self }),
    {
        let timeout = match self.timeout {
            TimeoutType::Interval(interval) => TimeoutType::Both(delay, interval),
            TimeoutType::Both(_, interval) => TimeoutType::Both(delay, interval),
            _ => TimeoutType::Single(delay),
        };
        TimerBuilder { timeout, ..self }
    }

    /// Makes the timer fire every `interval` milliseconds; a one-shot delay
    /// already chosen is kept.
    pub fn interval(self, interval: u32) -> (r: Self)
        ensures
            r == (TimerBuilder { timeout: merge_interval(self.timeout, interval), ..self }),
    {
        let timeout = match self.timeout {
            TimeoutType::Single(delay) => TimeoutType::Both(delay, interval),
            TimeoutType::Both(delay, _) => TimeoutType::Both(delay, interval),
            _ => TimeoutType::Interval(interval),
        };
        TimerBuilder { timeout, ..self }
    }

    /// Sets the registration flags.
    pub fn flags(self, flags: TimerFlags) -> (r: Self)
        ensures
            r == (TimerBuilder { flags, ..self }),
    {
        TimerBuilder { flags, ..self }
    }

    /// Registers the timer: the gathered timeout resolves to a `(due_time,
    /// period)` pair and the registration goes to the chosen queue, or to
    /// the default queue. See [`TimerQueue::timer`] for the failure cases.
    pub fn build(self, host: &mut Host) -> (r: Result<QueueTimer>)
        requires
            old(host).wf(),
        ensures
            final(host).wf(),
            match r {
                Ok(t) => {
                    &&& old(host).fail_next == None::<u32>
                    &&& (match self.queue {
                        Some(q) => q == 0 || timer::queue_live(*old(host), q),
                        None => true,
                    })
                    &&& old(host).can_alloc()
                    &&& t.queue == (match self.queue {
                        Some(q) => q,
                        None => 0,
                    })
                    &&& t.inner == old(host).next_handle
                    &&& final(host).timers@ == old(host).timers@.push(
                        crate::host::TimerRow {
                            handle: t.inner,
                            ..crate::host::fired_up_to(
                                timer::new_timer_row(
                                    (match self.queue {
                                        Some(q) => q,
                                        None => 0,
                                    }),
                                    self.callback,
                                    self.param,
                                    self.timeout.spec_into_raw().0,
                                    self.timeout.spec_into_raw().1,
                                    self.flags.inner,
                                    old(host).now,
                                ),
                                old(host).now,
                            )
                        },
                    )
                    &&& final(host).next_handle == old(host).next_handle + 1
                    &&& final(host).queues == old(host).queues
                    &&& Host::same_err(*old(host), *final(host))
                    &&& Host::same_clock(*old(host), *final(host))
                    &&& Host::same_ids(*old(host), *final(host))
                    &&& Host::same_windows(*old(host), *final(host))
                    &&& Host::same_processes(*old(host), *final(host))
                    &&& Host::same_files(*old(host), *final(host))
                    &&& Host::same_messages(*old(host), *final(host))
                },
                Err(e) => {
                    &&& Host::failed_with(*old(host), *final(host), e.spec_code())
                    &&& match old(host).fail_next {
                        Some(c) => e.spec_code() == c,
                        None => {
                            let qh = match self.queue {
                                Some(q) => q,
                                None => 0,
                            };
                            if qh != 0 && !timer::queue_live(*old(host), qh) {
                                e.spec_code() == ERROR_INVALID_HANDLE
                            } else {
                                !old(host).can_alloc() && e.spec_code()
                                    == ERROR_NOT_ENOUGH_MEMORY
                            }
                        },
                    }
                },
            },
    {
        let queue = TimerQueue {
            handle: match self.queue {
                Some(q) => q,
                None => 0,
            },
        };
        let (delay, period) = self.timeout.into_raw();
        queue.timer(host, self.callback, self.param, delay, period, self.flags)
    }
}

} // verus!
