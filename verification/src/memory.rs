//! Virtual-memory region queries against an open process handle.

use vstd::prelude::*;
use crate::host::Host;
use crate::process::{handle_open, handle_row, proc_idx, proc_known, find_handle, find_proc, lemma_handle_unique, lemma_proc_unique};
use crate::utils::{ErrorCode, Result};
use crate::sys::{
    ERROR_INVALID_HANDLE,
    ERROR_INVALID_PARAMETER,
    MEMORY_BASIC_INFORMATION,
    MEM_COMMIT,
    MEM_FREE,
    MEM_RESERVE,
};

verus! {

/// A region of another process's address space.
pub struct Info(pub MEMORY_BASIC_INFORMATION);

impl Info {
    /// The region's first address; memory can be read from here up to the
    /// base plus the region size.
    pub fn base_addr(&self) -> (r: usize)
        ensures
            r == self.0.BaseAddress,
    {
        self.0.BaseAddress
    }

    /// First address of the allocation the region belongs to.
    pub fn alloc_base(&self) -> (r: usize)
        ensures
            r == self.0.AllocationBase,
    {
        self.0.AllocationBase
    }

    /// The region's size in bytes.
    pub fn size(&self) -> (r: usize)
        ensures
            r == self.0.RegionSize,
    {
        self.0.RegionSize
    }

    /// Whether the region is committed — in use and backed.
    pub fn is_commit(&self) -> (r: bool)
        ensures
            r == (self.0.State == MEM_COMMIT),
    {
        self.0.State == MEM_COMMIT
    }

    /// Whether the region is free.
    pub fn is_free(&self) -> (r: bool)
        ensures
            r == (self.0.State == MEM_FREE),
    {
        self.0.State == MEM_FREE
    }

    /// Whether the region is reserved without backing storage.
    pub fn is_reserved(&self) -> (r: bool)
        ensures
            r == (self.0.State == MEM_RESERVE),
    {
        self.0.State == MEM_RESERVE
    }
}

/// A found region contains the address that was asked about.
pub proof fn lemma_region_at_contains(
    regions: Seq<MEMORY_BASIC_INFORMATION>,
    base: usize,
    from: int,
)
    requires
        region_at(regions, base, from) is Some,
    ensures
        ({
            let k = region_at(regions, base, from)->0;
            &&& 0 <= k < regions.len()
            &&& regions[k].BaseAddress <= base
            &&& base < regions[k].BaseAddress + regions[k].RegionSize
        }),
    decreases regions.len() - from,
{
    if !(from < 0 || from >= regions.len()) {
        if !(regions[from].BaseAddress <= base && base < regions[from].BaseAddress
            + regions[from].RegionSize) {
            lemma_region_at_contains(regions, base, from + 1);
        }
    }
}

/// Position of the first region of `regions` that contains `base`.
pub open spec fn region_at(regions: Seq<MEMORY_BASIC_INFORMATION>, base: usize, from: int) -> Option<
    int,
>
    decreases regions.len() - from,
{
    if from < 0 || from >= regions.len() {
        None
    } else if regions[from].BaseAddress <= base && base < regions[from].BaseAddress
        + regions[from].RegionSize {
        Some(from)
    } else {
        region_at(regions, base, from + 1)
    }
}

/// Retrieves the region of the process's address space that contains `base`.
/// Fails exactly when the host fails the call, the handle is not open, or no
/// region contains the address.
pub fn virtual_query_ex(host: &mut Host, handle: usize, base: usize) -> (r: Result<Info>)
    requires
        old(host).wf(),
    ensures
        final(host).wf(),
        match old(host).fail_next {
            Some(c) => r is Err && r->Err_0 == ErrorCode::new_spec(c) && Host::failed_with(
                *old(host),
                *final(host),
                c,
            ),
            None => {
                if !handle_open(*old(host), handle) {
                    r is Err && r->Err_0 == ErrorCode::new_spec(ERROR_INVALID_HANDLE)
                        && Host::failed_with(*old(host), *final(host), ERROR_INVALID_HANDLE)
                } else if proc_known(*old(host), handle_row(*old(host), handle).pid) && region_at(
                    old(host).processes@[proc_idx(
                        *old(host),
                        handle_row(*old(host), handle).pid,
                    )].regions@,
                    base,
                    0,
                ) is Some {
                    &&& *final(host) == *old(host)
                    &&& r is Ok
                    &&& {
                        let regions = old(host).processes@[proc_idx(
                            *old(host),
                            handle_row(*old(host), handle).pid,
                        )].regions@;
                        r->Ok_0.0 == regions[region_at(regions, base, 0)->0]
                    }
                } else {
                    r is Err && r->Err_0 == ErrorCode::new_spec(ERROR_INVALID_PARAMETER)
                        && Host::failed_with(*old(host), *final(host), ERROR_INVALID_PARAMETER)
                }
            },
        },
{
    match host.take_fault() {
        Some(c) => Err(ErrorCode::new(c)),
        None => {
            let found = find_handle(host, handle);
            let row = match found {
                None => {
                    host.set_last_error(ERROR_INVALID_HANDLE);
                    return Err(ErrorCode::new(ERROR_INVALID_HANDLE));
                },
                Some(i) => {
                    let row = host.process_handles[i];
                    proof {
                        lemma_handle_unique(*host, handle, i as int);
                    }
                    if !row.open {
                        host.set_last_error(ERROR_INVALID_HANDLE);
                        return Err(ErrorCode::new(ERROR_INVALID_HANDLE));
                    }
                    row
                },
            };
            let pfound = find_proc(host, row.pid);
            match pfound {
                None => {
                    host.set_last_error(ERROR_INVALID_PARAMETER);
                    Err(ErrorCode::new(ERROR_INVALID_PARAMETER))
                },
                Some(pi) => {
                    proof {
                        lemma_proc_unique(*host, row.pid, pi as int);
                    }
                    let n = host.processes[pi].regions.len();
                    let mut k: usize = 0;
                    while k < n
                        invariant
                            old(host).wf(),
                            old(host).fail_next == None::<u32>,
                            *host == *old(host),
                            handle_open(*old(host), handle),
                            proc_known(*old(host), handle_row(*old(host), handle).pid),
                            pi < host.processes@.len(),
                            pi as int == proc_idx(*old(host), handle_row(*old(host), handle).pid),
                            n == host.processes@[pi as int].regions@.len(),
                            k <= n,
                            region_at(host.processes@[pi as int].regions@, base, 0) == region_at(
                                host.processes@[pi as int].regions@,
                                base,
                                k as int,
                            ),
                        decreases n - k,
                    {
                        let region = host.processes[pi].regions[k];
                        if region.BaseAddress <= base && base - region.BaseAddress
                            < region.RegionSize {
                            proof {
                                assert(region_at(
                                    host.processes@[pi as int].regions@,
                                    base,
                                    k as int,
                                ) == Some(k as int));
                            }
                            return Ok(Info(region));
                        }
                        k += 1;
                    }
                    host.set_last_error(ERROR_INVALID_PARAMETER);
                    Err(ErrorCode::new(ERROR_INVALID_PARAMETER))
                },
            }
        },
    }
}

/// A cursor over the memory regions of a process, from the lowest address
/// upward.
pub struct Virtual {
    /// The open process handle queried.
    pub handle: usize,
    /// Next address to ask about.
    pub addr: usize,
}

impl Virtual {
    /// Starts a cursor over the regions of the process behind `handle`; the
    /// handle is assumed open, else nothing can be retrieved.
    pub fn new(handle: usize) -> (r: Virtual)
        ensures
            r.handle == handle,
            r.addr == 0,
    {
        Virtual { handle, addr: 0 }
    }

    /// Hands back the region at the cursor and moves the cursor past it;
    /// `None` once no region contains the cursor's address, and from then
    /// on.
    pub fn next(&mut self, host: &mut Host) -> (r: Option<Info>)
        requires
            old(host).wf(),
        ensures
            final(host).wf(),
            final(self).handle == old(self).handle,
            match r {
                Some(info) => {
                    &&& old(host).fail_next == None::<u32>
                    &&& *final(host) == *old(host)
                    &&& info.0.BaseAddress <= old(self).addr
                    &&& old(self).addr < info.0.BaseAddress + info.0.RegionSize
                    &&& final(self).addr == (if old(self).addr + info.0.RegionSize > usize::MAX {
                        usize::MAX
                    } else {
                        (old(self).addr + info.0.RegionSize) as usize
                    })
                    &&& (final(self).addr > old(self).addr || final(self).addr == usize::MAX)
                },
                None => *final(self) == *old(self),
            },
    {
        let res = virtual_query_ex(host, self.handle, self.addr);
        match res {
            Ok(info) => {
                proof {
                    let regions = old(host).processes@[proc_idx(
                        *old(host),
                        handle_row(*old(host), self.handle).pid,
                    )].regions@;
                    lemma_region_at_contains(regions, old(self).addr, 0);
                }
                let size = info.0.RegionSize;
                if size > usize::MAX - self.addr {
                    self.addr = usize::MAX;
                } else {
                    self.addr = self.addr + size;
                }
                Some(info)
            },
            Err(_) => None,
        }
    }
}

} // verus!
