//! Retrieval and dispatch of the calling thread's queued messages.

use vstd::prelude::*;
use crate::host::Host;
use crate::utils::{ErrorCode, Result};
use crate::sys::{MSG, PM_REMOVE};

verus! {

/// Whether a queued message passes the window and identifier-range filter:
/// with both bounds absent or zero every identifier passes, as the host's
/// retrieval convention has it.
pub open spec fn msg_matches(
    m: MSG,
    window: Option<usize>,
    range_low: Option<u32>,
    range_high: Option<u32>,
) -> bool {
    &&& match window {
        None => true,
        Some(w) => m.hwnd == w,
    }
    &&& {
        let lo = match range_low {
            None => 0u32,
            Some(l) => l,
        };
        let hi = match range_high {
            None => 0u32,
            Some(h) => h,
        };
        lo == 0 && hi == 0 || lo <= m.message && m.message <= hi
    }
}

/// Position of the first queued message that passes the filter.
pub open spec fn first_msg(
    msgs: Seq<MSG>,
    window: Option<usize>,
    range_low: Option<u32>,
    range_high: Option<u32>,
    from: int,
) -> Option<int>
    decreases msgs.len() - from,
{
    if from < 0 || from >= msgs.len() {
        None
    } else if msg_matches(msgs[from], window, range_low, range_high) {
        Some(from)
    } else {
        first_msg(msgs, window, range_low, range_high, from + 1)
    }
}

/// Finds the first queued message that passes the filter.
fn scan_messages(
    host: &Host,
    window: Option<usize>,
    range_low: Option<u32>,
    range_high: Option<u32>,
) -> (r: Option<usize>)
    ensures
        match r {
            Some(k) => k < host.messages@.len() && first_msg(
                host.messages@,
                window,
                range_low,
                range_high,
                0,
            ) == Some(k as int),
            None => first_msg(host.messages@, window, range_low, range_high, 0) is None,
        },
{
    let n = host.messages.len();
    let mut k: usize = 0;
    while k < n
        invariant
            k <= n,
            n == host.messages@.len(),
            first_msg(host.messages@, window, range_low, range_high, 0) == first_msg(
                host.messages@,
                window,
                range_low,
                range_high,
                k as int,
            ),
        decreases n - k,
    {
        let m = host.messages[k];
        let win_ok = match window {
            None => true,
            Some(w) => m.hwnd == w,
        };
        let lo = match range_low {
            None => 0u32,
            Some(l) => l,
        };
        let hi = match range_high {
            None => 0u32,
            Some(h) => h,
        };
        if win_ok && (lo == 0 && hi == 0 || lo <= m.message && m.message <= hi) {
            return Some(k);
        }
        k += 1;
    }
    None
}

/// Retrieves, removing it, the first queued message that passes the filter.
/// The real retrieval blocks until a message arrives; this model cannot
/// suspend, so a matching message — or an injected failure — must be there.
pub fn get(
    host: &mut Host,
    window: Option<usize>,
    range_low: Option<u32>,
    range_high: Option<u32>,
) -> (r: Result<MSG>)
    requires
        old(host).wf(),
        old(host).fail_next is Some || first_msg(
            old(host).messages@,
            window,
            range_low,
            range_high,
            0,
        ) is Some,
    ensures
        final(host).wf(),
        match old(host).fail_next {
            Some(c) => r is Err && r->Err_0 == ErrorCode::new_spec(c) && Host::failed_with(
                *old(host),
                *final(host),
                c,
            ),
            None => {
                let k = first_msg(old(host).messages@, window, range_low, range_high, 0)->0;
                &&& r is Ok
                &&& r->Ok_0 == old(host).messages@[k]
                &&& final(host).messages@ == old(host).messages@.remove(k)
                &&& final(host).dispatched == old(host).dispatched
                &&& final(host).sent == old(host).sent
                &&& Host::same_err(*old(host), *final(host))
                &&& Host::same_alloc(*old(host), *final(host))
                &&& Host::same_clock(*old(host), *final(host))
                &&& Host::same_ids(*old(host), *final(host))
                &&& Host::same_windows(*old(host), *final(host))
                &&& Host::same_processes(*old(host), *final(host))
                &&& Host::same_files(*old(host), *final(host))
                &&& Host::same_timers(*old(host), *final(host))
            },
        },
{
    match host.take_fault() {
        Some(c) => Err(ErrorCode::new(c)),
        None => {
            let found = scan_messages(host, window, range_low, range_high);
            match found {
                None => {
                    // unreachable under the precondition: a blocking
                    // retrieval is only modeled with a message present
                    proof {
                        assert(false);
                    }
                    Err(ErrorCode::new(0))
                },
                Some(k) => {
                    let m = host.messages.remove(k);
                    Ok(m)
                },
            }
        },
    }
}

/// Retrieves the first queued message that passes the filter, without
/// blocking: `None` when nothing matches. The message is removed exactly
/// when `handle_type` carries the remove flag.
pub fn peek(
    host: &mut Host,
    window: Option<usize>,
    range_low: Option<u32>,
    range_high: Option<u32>,
    handle_type: Option<u32>,
) -> (r: Result<Option<MSG>>)
    requires
        old(host).wf(),
    ensures
        final(host).wf(),
        match old(host).fail_next {
            Some(c) => r is Err && r->Err_0 == ErrorCode::new_spec(c) && Host::failed_with(
                *old(host),
                *final(host),
                c,
            ),
            None => match first_msg(old(host).messages@, window, range_low, range_high, 0) {
                None => r == Result::<Option<MSG>>::Ok(None) && *final(host) == *old(host),
                Some(k) => {
                    &&& r is Ok
                    &&& r->Ok_0 == Some(old(host).messages@[k])
                    &&& final(host).messages@ == (if (match handle_type {
                        None => 0u32,
                        Some(t) => t,
                    }) & PM_REMOVE != 0 {
                        old(host).messages@.remove(k)
                    } else {
                        old(host).messages@
                    })
                    &&& final(host).dispatched == old(host).dispatched
                    &&& final(host).sent == old(host).sent
                    &&& Host::same_err(*old(host), *final(host))
                    &&& Host::same_alloc(*old(host), *final(host))
                    &&& Host::same_clock(*old(host), *final(host))
                    &&& Host::same_ids(*old(host), *final(host))
                    &&& Host::same_windows(*old(host), *final(host))
                    &&& Host::same_processes(*old(host), *final(host))
                    &&& Host::same_files(*old(host), *final(host))
                    &&& Host::same_timers(*old(host), *final(host))
                },
            },
        },
{
    match host.take_fault() {
        Some(c) => Err(ErrorCode::new(c)),
        None => {
            let found = scan_messages(host, window, range_low, range_high);
            match found {
                None => Ok(None),
                Some(k) => {
                    let remove = match handle_type {
                        None => 0u32,
                        Some(t) => t,
                    } & PM_REMOVE != 0;
                    if remove {
                        let m = host.messages.remove(k);
                        Ok(Some(m))
                    } else {
                        let m = host.messages[k];
                        Ok(Some(m))
                    }
                },
            }
        },
    }
}

/// Translates virtual-key messages into character messages. The model keeps
/// no key state, so no translation ever happens and nothing is posted.
pub fn translate(msg: &MSG) -> (r: bool)
    ensures
        r == false,
{
    false
}

/// Dispatches a message to its window procedure; the host records the
/// delivery.
pub fn dispatch(host: &mut Host, msg: &MSG) -> (r: isize)
    requires
        old(host).wf(),
    ensures
        final(host).wf(),
        r == 0,
        final(host).dispatched@ == old(host).dispatched@.push(*msg),
        final(host).messages == old(host).messages,
        final(host).sent == old(host).sent,
        Host::same_err(*old(host), *final(host)),
        Host::same_alloc(*old(host), *final(host)),
        Host::same_clock(*old(host), *final(host)),
        Host::same_ids(*old(host), *final(host)),
        Host::same_windows(*old(host), *final(host)),
        Host::same_processes(*old(host), *final(host)),
        Host::same_files(*old(host), *final(host)),
        Host::same_timers(*old(host), *final(host)),
{
    host.dispatched.push(*msg);
    0
}

} // verus!
