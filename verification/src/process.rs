//! Process handles and cross-process memory access.
//!
//! A handle is opened on a process identifier with explicit access rights;
//! reads and writes check the matching right and the mapped range, and every
//! failure carries the host's last-error code.

use vstd::prelude::*;
use crate::host::{Host, HandleRow, ProcessRow};
use crate::utils::{ErrorCode, Result};
use crate::sys::{
    ERROR_ACCESS_DENIED,
    ERROR_INVALID_HANDLE,
    ERROR_INVALID_PARAMETER,
    ERROR_NOT_ENOUGH_MEMORY,
    ERROR_PARTIAL_COPY,
    PROCESS_TERMINATE,
    PROCESS_VM_READ,
    PROCESS_VM_WRITE,
};

verus! {

/// Whether the host has a live process with the given identifier.
pub open spec fn proc_alive(h: Host, pid: u32) -> bool {
    exists|i: int|
        0 <= i < h.processes@.len() && (#[trigger] h.processes@[i]).pid == pid
            && h.processes@[i].alive
}

/// Whether the host has an open process handle with the given value.
pub open spec fn handle_open(h: Host, ph: usize) -> bool {
    exists|i: int|
        0 <= i < h.process_handles@.len() && (#[trigger] h.process_handles@[i]).handle == ph
            && h.process_handles@[i].open
}

/// The open handle row with the given value; meaningful when `handle_open`.
pub open spec fn handle_row(h: Host, ph: usize) -> HandleRow {
    h.process_handles@[choose|i: int|
        0 <= i < h.process_handles@.len() && (#[trigger] h.process_handles@[i]).handle == ph
            && h.process_handles@[i].open]
}

/// Position of the process row with the given identifier; meaningful when
/// one exists.
pub open spec fn proc_idx(h: Host, pid: u32) -> int {
    choose|i: int| 0 <= i < h.processes@.len() && (#[trigger] h.processes@[i]).pid == pid
}

/// Whether the host has a process row with the given identifier, live or
/// not.
pub open spec fn proc_known(h: Host, pid: u32) -> bool {
    exists|i: int| 0 <= i < h.processes@.len() && (#[trigger] h.processes@[i]).pid == pid
}

/// Finds the position of a process handle in the host's handle table.
pub(crate) fn find_handle(host: &Host, ph: usize) -> (r: Option<usize>)
    ensures
        match r {
            Some(i) => i < host.process_handles@.len() && host.process_handles@[i as int].handle
                == ph,
            None => forall|i: int|
                0 <= i < host.process_handles@.len() ==> (
                #[trigger] host.process_handles@[i]).handle != ph,
        },
{
    let n = host.process_handles.len();
    let mut i: usize = 0;
    while i < n
        invariant
            n == host.process_handles@.len(),
            i <= n,
            forall|j: int| 0 <= j < i ==> (#[trigger] host.process_handles@[j]).handle != ph,
        decreases n - i,
    {
        if host.process_handles[i].handle == ph {
            return Some(i);
        }
        i += 1;
    }
    None
}

/// Finds the position of a process identifier in the host's process table.
pub(crate) fn find_proc(host: &Host, pid: u32) -> (r: Option<usize>)
    ensures
        match r {
            Some(i) => i < host.processes@.len() && host.processes@[i as int].pid == pid,
            None => forall|i: int|
                0 <= i < host.processes@.len() ==> (#[trigger] host.processes@[i]).pid != pid,
        },
{
    let n = host.processes.len();
    let mut i: usize = 0;
    while i < n
        invariant
            n == host.processes@.len(),
            i <= n,
            forall|j: int| 0 <= j < i ==> (#[trigger] host.processes@[j]).pid != pid,
        decreases n - i,
    {
        if host.processes[i].pid == pid {
            return Some(i);
        }
        i += 1;
    }
    None
}

/// A handle table holds at most one row per value, so a closed row at the
/// value's position rules out an open one anywhere. The open row, where one
/// exists, is `handle_row`.
pub(crate) proof fn lemma_handle_unique(h: Host, ph: usize, i: int)
    requires
        h.wf(),
        0 <= i < h.process_handles@.len(),
        h.process_handles@[i].handle == ph,
    ensures
        h.process_handles@[i].open ==> handle_open(h, ph) && handle_row(h, ph)
            == h.process_handles@[i],
        !h.process_handles@[i].open ==> !handle_open(h, ph),
{
    if h.process_handles@[i].open {
        assert(handle_open(h, ph));
        let j = choose|j: int|
            0 <= j < h.process_handles@.len() && (#[trigger] h.process_handles@[j]).handle == ph
                && h.process_handles@[j].open;
        assert(h.process_handles@[j] == h.process_handles@[i]);
    } else {
        if handle_open(h, ph) {
            let j = choose|j: int|
                0 <= j < h.process_handles@.len() && (#[trigger] h.process_handles@[j]).handle
                    == ph && h.process_handles@[j].open;
            assert(h.process_handles@[j] == h.process_handles@[i]);
        }
    }
}

/// A process table holds at most one row per identifier.
pub(crate) proof fn lemma_proc_unique(h: Host, pid: u32, i: int)
    requires
        h.wf(),
        0 <= i < h.processes@.len(),
        h.processes@[i].pid == pid,
    ensures
        proc_known(h, pid),
        proc_idx(h, pid) == i,
{
    assert(proc_known(h, pid));
    let j = proc_idx(h, pid);
    if j != i {
        assert(h.processes@[j].pid == h.processes@[i].pid);
    }
}

/// Opens a handle to the live process with identifier `pid`, carrying the
/// requested access rights. Fails exactly when the host fails the call, no
/// such process runs, or no handle is left.
pub fn open(host: &mut Host, pid: u32, access_rights: u32) -> (r: Result<usize>)
    requires
        old(host).wf(),
    ensures
        final(host).wf(),
        match r {
            Ok(h) => {
                &&& old(host).fail_next == None::<u32>
                &&& proc_alive(*old(host), pid)
                &&& old(host).can_alloc()
                &&& h == old(host).next_handle
                &&& 0 < h
                &&& final(host).next_handle == old(host).next_handle + 1
                &&& final(host).process_handles@ == old(host).process_handles@.push(
                    HandleRow { handle: h, pid, access: access_rights, open: true },
                )
                &&& final(host).processes == old(host).processes
                &&& Host::same_err(*old(host), *final(host))
                &&& Host::same_clock(*old(host), *final(host))
                &&& Host::same_ids(*old(host), *final(host))
                &&& Host::same_windows(*old(host), *final(host))
                &&& Host::same_files(*old(host), *final(host))
                &&& Host::same_timers(*old(host), *final(host))
                &&& Host::same_messages(*old(host), *final(host))
            },
            Err(e) => {
                &&& Host::failed_with(*old(host), *final(host), e.spec_code())
                &&& match old(host).fail_next {
                    Some(c) => e.spec_code() == c,
                    None => {
                        if !proc_alive(*old(host), pid) {
                            e.spec_code() == ERROR_INVALID_PARAMETER
                        } else {
                            !old(host).can_alloc() && e.spec_code() == ERROR_NOT_ENOUGH_MEMORY
                        }
                    },
                }
            },
        },
{
    match host.take_fault() {
        Some(c) => Err(ErrorCode::new(c)),
        None => {
            let found = find_proc(host, pid);
            let alive = match found {
                Some(i) => host.processes[i].alive,
                None => false,
            };
            if !alive {
                proof {
                    if let Some(i) = found {
                        if proc_alive(*host, pid) {
                            let j = choose|j: int|
                                0 <= j < host.processes@.len() && (
                                #[trigger] host.processes@[j]).pid == pid
                                    && host.processes@[j].alive;
                            assert(host.processes@[j].pid == host.processes@[i as int].pid);
                        }
                    }
                }
                host.set_last_error(ERROR_INVALID_PARAMETER);
                return Err(ErrorCode::new(ERROR_INVALID_PARAMETER));
            }
            if !host.can_alloc_handle() {
                host.set_last_error(ERROR_NOT_ENOUGH_MEMORY);
                return Err(ErrorCode::new(ERROR_NOT_ENOUGH_MEMORY));
            }
            let h = host.push_handle_row(pid, access_rights);
            Ok(h)
        },
    }
}

/// Closes an open process handle. Fails exactly when the host fails the
/// call or the handle is not open.
pub fn close(host: &mut Host, process: usize) -> (r: Result<()>)
    requires
        old(host).wf(),
    ensures
        final(host).wf(),
        match old(host).fail_next {
            Some(c) => r == Result::<()>::Err(ErrorCode::new_spec(c)) && Host::failed_with(
                *old(host),
                *final(host),
                c,
            ),
            None => {
                if handle_open(*old(host), process) {
                    &&& r == Result::<()>::Ok(())
                    &&& exists|i: int|
                        {
                            &&& 0 <= i < old(host).process_handles@.len()
                            &&& (#[trigger] old(host).process_handles@[i]).handle == process
                            &&& old(host).process_handles@[i].open
                            &&& final(host).process_handles@ == old(
                                host,
                            ).process_handles@.update(
                                i,
                                HandleRow { open: false, ..old(host).process_handles@[i] },
                            )
                        }
                    &&& final(host).processes == old(host).processes
                    &&& Host::same_err(*old(host), *final(host))
                    &&& Host::same_alloc(*old(host), *final(host))
                    &&& Host::same_clock(*old(host), *final(host))
                    &&& Host::same_ids(*old(host), *final(host))
                    &&& Host::same_windows(*old(host), *final(host))
                    &&& Host::same_files(*old(host), *final(host))
                    &&& Host::same_timers(*old(host), *final(host))
                    &&& Host::same_messages(*old(host), *final(host))
                } else {
                    r == Result::<()>::Err(ErrorCode::new_spec(ERROR_INVALID_HANDLE))
                        && Host::failed_with(*old(host), *final(host), ERROR_INVALID_HANDLE)
                }
            },
        },
{
    match host.take_fault() {
        Some(c) => Err(ErrorCode::new(c)),
        None => {
            let found = find_handle(host, process);
            match found {
                None => {
                    host.set_last_error(ERROR_INVALID_HANDLE);
                    Err(ErrorCode::new(ERROR_INVALID_HANDLE))
                },
                Some(i) => {
                    let row = host.process_handles[i];
                    proof {
                        lemma_handle_unique(*host, process, i as int);
                    }
                    if !row.open {
                        host.set_last_error(ERROR_INVALID_HANDLE);
                        return Err(ErrorCode::new(ERROR_INVALID_HANDLE));
                    }
                    host.process_handles[i] = HandleRow { open: false, ..row };
                    Ok(())
                },
            }
        },
    }
}

/// The identifier of the process an open handle refers to; `0` for a handle
/// that is not open.
pub fn get_id(host: &Host, process: usize) -> (r: u32)
    requires
        host.wf(),
    ensures
        handle_open(*host, process) ==> r == handle_row(*host, process).pid,
        !handle_open(*host, process) ==> r == 0,
{
    let found = find_handle(host, process);
    match found {
        None => 0,
        Some(i) => {
            let row = host.process_handles[i];
            proof {
                lemma_handle_unique(*host, process, i as int);
            }
            if row.open {
                row.pid
            } else {
                0
            }
        },
    }
}

/// Retrieves the full path of the executable behind an open process handle.
/// Fails exactly when the host fails the call or the handle is not open.
pub fn get_exe_path(host: &mut Host, process: usize) -> (r: Result<String>)
    requires
        old(host).wf(),
    ensures
        final(host).wf(),
        match old(host).fail_next {
            Some(c) => r is Err && r->Err_0 == ErrorCode::new_spec(c) && Host::failed_with(
                *old(host),
                *final(host),
                c,
            ),
            None => {
                if handle_open(*old(host), process) && proc_known(
                    *old(host),
                    handle_row(*old(host), process).pid,
                ) {
                    &&& *final(host) == *old(host)
                    &&& r is Ok
                    &&& r->Ok_0@ == old(host).processes@[proc_idx(
                        *old(host),
                        handle_row(*old(host), process).pid,
                    )].exe_path@
                } else {
                    r is Err && r->Err_0 == ErrorCode::new_spec(ERROR_INVALID_HANDLE)
                        && Host::failed_with(*old(host), *final(host), ERROR_INVALID_HANDLE)
                }
            },
        },
{
    match host.take_fault() {
        Some(c) => Err(ErrorCode::new(c)),
        None => {
            let found = find_handle(host, process);
            match found {
                None => {
                    host.set_last_error(ERROR_INVALID_HANDLE);
                    Err(ErrorCode::new(ERROR_INVALID_HANDLE))
                },
                Some(i) => {
                    let row = host.process_handles[i];
                    proof {
                        lemma_handle_unique(*host, process, i as int);
                    }
                    if !row.open {
                        host.set_last_error(ERROR_INVALID_HANDLE);
                        return Err(ErrorCode::new(ERROR_INVALID_HANDLE));
                    }
                    let pfound = find_proc(host, row.pid);
                    match pfound {
                        None => {
                            host.set_last_error(ERROR_INVALID_HANDLE);
                            Err(ErrorCode::new(ERROR_INVALID_HANDLE))
                        },
                        Some(pi) => {
                            proof {
                                lemma_proc_unique(*host, row.pid, pi as int);
                            }
                            Ok(host.processes[pi].exe_path.clone())
                        },
                    }
                },
            }
        },
    }
}

/// Whether `len` bytes at `base` lie within the process's mapped span.
pub open spec fn readable(p: ProcessRow, base: usize, len: int) -> bool {
    p.mem_base <= base && base - p.mem_base + len <= p.mem@.len()
}

/// Reads process memory into `storage`, whose length picks the amount to
/// read. Fails exactly when the host fails the call, the handle is not open,
/// it lacks the read right, or the span is not mapped; `storage` is
/// untouched on failure.
pub fn read_memory(host: &mut Host, process: usize, base_addr: usize, storage: &mut Vec<u8>) -> (r:
    Result<()>)
    requires
        old(host).wf(),
    ensures
        final(host).wf(),
        final(storage)@.len() == old(storage)@.len(),
        match old(host).fail_next {
            Some(c) => r == Result::<()>::Err(ErrorCode::new_spec(c)) && Host::failed_with(
                *old(host),
                *final(host),
                c,
            ) && final(storage)@ == old(storage)@,
            None => {
                if !handle_open(*old(host), process) {
                    r == Result::<()>::Err(ErrorCode::new_spec(ERROR_INVALID_HANDLE))
                        && Host::failed_with(*old(host), *final(host), ERROR_INVALID_HANDLE)
                        && final(storage)@ == old(storage)@
                } else if handle_row(*old(host), process).access & PROCESS_VM_READ == 0 {
                    r == Result::<()>::Err(ErrorCode::new_spec(ERROR_ACCESS_DENIED))
                        && Host::failed_with(*old(host), *final(host), ERROR_ACCESS_DENIED)
                        && final(storage)@ == old(storage)@
                } else if proc_known(*old(host), handle_row(*old(host), process).pid) && readable(
                    old(host).processes@[proc_idx(
                        *old(host),
                        handle_row(*old(host), process).pid,
                    )],
                    base_addr,
                    old(storage)@.len() as int,
                ) {
                    &&& r == Result::<()>::Ok(())
                    &&& *final(host) == *old(host)
                    &&& {
                        let p = old(host).processes@[proc_idx(
                            *old(host),
                            handle_row(*old(host), process).pid,
                        )];
                        final(storage)@ == p.mem@.subrange(
                            base_addr - p.mem_base,
                            base_addr - p.mem_base + old(storage)@.len(),
                        )
                    }
                } else {
                    r == Result::<()>::Err(ErrorCode::new_spec(ERROR_PARTIAL_COPY))
                        && Host::failed_with(*old(host), *final(host), ERROR_PARTIAL_COPY)
                        && final(storage)@ == old(storage)@
                }
            },
        },
{
    match host.take_fault() {
        Some(c) => Err(ErrorCode::new(c)),
        None => {
            let found = find_handle(host, process);
            let row = match found {
                None => {
                    host.set_last_error(ERROR_INVALID_HANDLE);
                    return Err(ErrorCode::new(ERROR_INVALID_HANDLE));
                },
                Some(i) => {
                    let row = host.process_handles[i];
                    proof {
                        lemma_handle_unique(*host, process, i as int);
                    }
                    if !row.open {
                        host.set_last_error(ERROR_INVALID_HANDLE);
                        return Err(ErrorCode::new(ERROR_INVALID_HANDLE));
                    }
                    row
                },
            };
            if row.access & PROCESS_VM_READ == 0 {
                host.set_last_error(ERROR_ACCESS_DENIED);
                return Err(ErrorCode::new(ERROR_ACCESS_DENIED));
            }
            let pfound = find_proc(host, row.pid);
            let pi = match pfound {
                None => {
                    host.set_last_error(ERROR_PARTIAL_COPY);
                    return Err(ErrorCode::new(ERROR_PARTIAL_COPY));
                },
                Some(pi) => {
                    proof {
                        lemma_proc_unique(*host, row.pid, pi as int);
                    }
                    pi
                },
            };
            let mem_base = host.processes[pi].mem_base;
            let mem_len = host.processes[pi].mem.len();
            let want = storage.len();
            if base_addr < mem_base || base_addr - mem_base > mem_len || want > mem_len - (
            base_addr - mem_base) {
                host.set_last_error(ERROR_PARTIAL_COPY);
                return Err(ErrorCode::new(ERROR_PARTIAL_COPY));
            }
            let off = base_addr - mem_base;
            let mut i: usize = 0;
            while i < want
                invariant
                    i <= want,
                    want == storage@.len(),
                    *host == *old(host),
                    old(host).wf(),
                    pi < host.processes@.len(),
                    mem_len == host.processes@[pi as int].mem@.len(),
                    off + want <= mem_len,
                    forall|k: int|
                        0 <= k < i ==> storage@[k] == host.processes@[pi as int].mem@[off + k],
                decreases want - i,
            {
                let b = host.processes[pi].mem[off + i];
                storage[i] = b;
                i += 1;
            }
            proof {
                let p = host.processes@[pi as int];
                assert(storage@ =~= p.mem@.subrange(
                    base_addr - p.mem_base,
                    base_addr - p.mem_base + old(storage)@.len(),
                ));
            }
            Ok(())
        },
    }
}

/// Writes `data` into process memory. Fails exactly when the host fails the
/// call, the handle is not open, it lacks the write right, or the span is
/// not mapped.
pub fn write_memory(host: &mut Host, process: usize, base_addr: usize, data: &[u8]) -> (r: Result<
    (),
>)
    requires
        old(host).wf(),
    ensures
        final(host).wf(),
        match old(host).fail_next {
            Some(c) => r == Result::<()>::Err(ErrorCode::new_spec(c)) && Host::failed_with(
                *old(host),
                *final(host),
                c,
            ),
            None => {
                if !handle_open(*old(host), process) {
                    r == Result::<()>::Err(ErrorCode::new_spec(ERROR_INVALID_HANDLE))
                        && Host::failed_with(*old(host), *final(host), ERROR_INVALID_HANDLE)
                } else if handle_row(*old(host), process).access & PROCESS_VM_WRITE == 0 {
                    r == Result::<()>::Err(ErrorCode::new_spec(ERROR_ACCESS_DENIED))
                        && Host::failed_with(*old(host), *final(host), ERROR_ACCESS_DENIED)
                } else if proc_known(*old(host), handle_row(*old(host), process).pid) && readable(
                    old(host).processes@[proc_idx(
                        *old(host),
                        handle_row(*old(host), process).pid,
                    )],
                    base_addr,
                    data@.len() as int,
                ) {
                    &&& r == Result::<()>::Ok(())
                    &&& {
                        let pi = proc_idx(*old(host), handle_row(*old(host), process).pid);
                        let p = old(host).processes@[pi];
                        let off = base_addr - p.mem_base;
                        &&& final(host).processes@.len() == old(host).processes@.len()
                        &&& final(host).processes@[pi].mem@.len() == p.mem@.len()
                        &&& forall|k: int|
                            0 <= k < p.mem@.len() ==> final(host).processes@[pi].mem@[k] == (
                            if off <= k < off + data@.len() {
                                data@[k - off]
                            } else {
                                p.mem@[k]
                            })
                        &&& final(host).processes@[pi].pid == p.pid
                        &&& final(host).processes@[pi].exe_path == p.exe_path
                        &&& final(host).processes@[pi].alive == p.alive
                        &&& final(host).processes@[pi].exit_code == p.exit_code
                        &&& final(host).processes@[pi].mem_base == p.mem_base
                        &&& final(host).processes@[pi].regions == p.regions
                        &&& forall|j: int|
                            0 <= j < old(host).processes@.len() && j != pi
                                ==> final(host).processes@[j] == old(host).processes@[j]
                    }
                    &&& final(host).process_handles == old(host).process_handles
                    &&& Host::same_err(*old(host), *final(host))
                    &&& Host::same_alloc(*old(host), *final(host))
                    &&& Host::same_clock(*old(host), *final(host))
                    &&& Host::same_ids(*old(host), *final(host))
                    &&& Host::same_windows(*old(host), *final(host))
                    &&& Host::same_files(*old(host), *final(host))
                    &&& Host::same_timers(*old(host), *final(host))
                    &&& Host::same_messages(*old(host), *final(host))
                } else {
                    r == Result::<()>::Err(ErrorCode::new_spec(ERROR_PARTIAL_COPY))
                        && Host::failed_with(*old(host), *final(host), ERROR_PARTIAL_COPY)
                }
            },
        },
{
    match host.take_fault() {
        Some(c) => Err(ErrorCode::new(c)),
        None => {
            let found = find_handle(host, process);
            let row = match found {
                None => {
                    host.set_last_error(ERROR_INVALID_HANDLE);
                    return Err(ErrorCode::new(ERROR_INVALID_HANDLE));
                },
                Some(i) => {
                    let row = host.process_handles[i];
                    proof {
                        lemma_handle_unique(*host, process, i as int);
                    }
                    if !row.open {
                        host.set_last_error(ERROR_INVALID_HANDLE);
                        return Err(ErrorCode::new(ERROR_INVALID_HANDLE));
                    }
                    row
                },
            };
            if row.access & PROCESS_VM_WRITE == 0 {
                host.set_last_error(ERROR_ACCESS_DENIED);
                return Err(ErrorCode::new(ERROR_ACCESS_DENIED));
            }
            let pfound = find_proc(host, row.pid);
            let pi = match pfound {
                None => {
                    host.set_last_error(ERROR_PARTIAL_COPY);
                    return Err(ErrorCode::new(ERROR_PARTIAL_COPY));
                },
                Some(pi) => {
                    proof {
                        lemma_proc_unique(*host, row.pid, pi as int);
                    }
                    pi
                },
            };
            let mem_base = host.processes[pi].mem_base;
            let mem_len = host.processes[pi].mem.len();
            let want = data.len();
            if base_addr < mem_base || base_addr - mem_base > mem_len || want > mem_len - (
            base_addr - mem_base) {
                host.set_last_error(ERROR_PARTIAL_COPY);
                return Err(ErrorCode::new(ERROR_PARTIAL_COPY));
            }
            let off = base_addr - mem_base;
            let mut prow = host.processes.remove(pi);
            let ghost pre_row = prow;
            let mut i: usize = 0;
            while i < want
                invariant
                    i <= want,
                    want == data@.len(),
                    mem_len == prow.mem@.len(),
                    off + want <= mem_len,
                    prow.mem@.len() == pre_row.mem@.len(),
                    forall|k: int|
                        0 <= k < prow.mem@.len() ==> prow.mem@[k] == (if off <= k < off + i {
                            data@[k - off]
                        } else {
                            pre_row.mem@[k]
                        }),
                    prow.pid == pre_row.pid,
                    prow.exe_path == pre_row.exe_path,
                    prow.alive == pre_row.alive,
                    prow.exit_code == pre_row.exit_code,
                    prow.mem_base == pre_row.mem_base,
                    prow.regions == pre_row.regions,
                decreases want - i,
            {
                let b = data[i];
                prow.mem[off + i] = b;
                i += 1;
            }
            host.processes.insert(pi, prow);
            proof {
                assert(forall|j: int|
                    0 <= j < old(host).processes@.len() && j != pi ==> host.processes@[j] == old(
                        host,
                    ).processes@[j]);
            }
            Ok(())
        },
    }
}

/// Forces termination of the process behind an open handle carrying the
/// terminate right; the process keeps no chance to clean up. Fails exactly
/// when the host fails the call, the handle is not open or lacks the right,
/// or the process is already gone.
pub fn terminate(host: &mut Host, process: usize, code: u32) -> (r: Result<()>)
    requires
        old(host).wf(),
    ensures
        final(host).wf(),
        match old(host).fail_next {
            Some(c) => r == Result::<()>::Err(ErrorCode::new_spec(c)) && Host::failed_with(
                *old(host),
                *final(host),
                c,
            ),
            None => {
                if !handle_open(*old(host), process) {
                    r == Result::<()>::Err(ErrorCode::new_spec(ERROR_INVALID_HANDLE))
                        && Host::failed_with(*old(host), *final(host), ERROR_INVALID_HANDLE)
                } else if handle_row(*old(host), process).access & PROCESS_TERMINATE == 0 {
                    r == Result::<()>::Err(ErrorCode::new_spec(ERROR_ACCESS_DENIED))
                        && Host::failed_with(*old(host), *final(host), ERROR_ACCESS_DENIED)
                } else if proc_alive(*old(host), handle_row(*old(host), process).pid) {
                    &&& r == Result::<()>::Ok(())
                    &&& {
                        let pi = proc_idx(*old(host), handle_row(*old(host), process).pid);
                        let p = old(host).processes@[pi];
                        final(host).processes@ == old(host).processes@.update(
                            pi,
                            ProcessRow { alive: false, exit_code: code, ..p },
                        )
                    }
                    &&& final(host).process_handles == old(host).process_handles
                    &&& Host::same_err(*old(host), *final(host))
                    &&& Host::same_alloc(*old(host), *final(host))
                    &&& Host::same_clock(*old(host), *final(host))
                    &&& Host::same_ids(*old(host), *final(host))
                    &&& Host::same_windows(*old(host), *final(host))
                    &&& Host::same_files(*old(host), *final(host))
                    &&& Host::same_timers(*old(host), *final(host))
                    &&& Host::same_messages(*old(host), *final(host))
                } else {
                    r == Result::<()>::Err(ErrorCode::new_spec(ERROR_INVALID_PARAMETER))
                        && Host::failed_with(*old(host), *final(host), ERROR_INVALID_PARAMETER)
                }
            },
        },
{
    match host.take_fault() {
        Some(c) => Err(ErrorCode::new(c)),
        None => {
            let found = find_handle(host, process);
            let row = match found {
                None => {
                    host.set_last_error(ERROR_INVALID_HANDLE);
                    return Err(ErrorCode::new(ERROR_INVALID_HANDLE));
                },
                Some(i) => {
                    let row = host.process_handles[i];
                    proof {
                        lemma_handle_unique(*host, process, i as int);
                    }
                    if !row.open {
                        host.set_last_error(ERROR_INVALID_HANDLE);
                        return Err(ErrorCode::new(ERROR_INVALID_HANDLE));
                    }
                    row
                },
            };
            if row.access & PROCESS_TERMINATE == 0 {
                host.set_last_error(ERROR_ACCESS_DENIED);
                return Err(ErrorCode::new(ERROR_ACCESS_DENIED));
            }
            let pfound = find_proc(host, row.pid);
            match pfound {
                None => {
                    host.set_last_error(ERROR_INVALID_PARAMETER);
                    Err(ErrorCode::new(ERROR_INVALID_PARAMETER))
                },
                Some(pi) => {
                    proof {
                        lemma_proc_unique(*host, row.pid, pi as int);
                    }
                    if !host.processes[pi].alive {
                        proof {
                            if proc_alive(*host, row.pid) {
                                let j = choose|j: int|
                                    0 <= j < host.processes@.len() && (
                                    #[trigger] host.processes@[j]).pid == row.pid
                                        && host.processes@[j].alive;
                                assert(host.processes@[j].pid == host.processes@[pi as int].pid);
                            }
                        }
                        host.set_last_error(ERROR_INVALID_PARAMETER);
                        return Err(ErrorCode::new(ERROR_INVALID_PARAMETER));
                    }
                    let prow = host.processes.remove(pi);
                    let updated = ProcessRow { alive: false, exit_code: code, ..prow };
                    host.processes.insert(pi, updated);
                    proof {
                        assert(host.processes@ =~= old(host).processes@.update(
                            pi as int,
                            ProcessRow {
                                alive: false,
                                exit_code: code,
                                ..old(host).processes@[pi as int]
                            },
                        ));
                        assert forall|a: int, b: int|
                            0 <= a < b < host.processes@.len() implies (
                        #[trigger] host.processes@[a]).pid != (
                        #[trigger] host.processes@[b]).pid by {
                            assert(host.processes@[a].pid == old(host).processes@[a].pid);
                            assert(host.processes@[b].pid == old(host).processes@[b].pid);
                        }
                    }
                    Ok(())
                },
            }
        },
    }
}

} // verus!
