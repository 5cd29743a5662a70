//! Window operations, built on the generic enumeration trampoline.
//!
//! The trampoline adapts the host's "enumerate windows, call back on each"
//! primitive to an arbitrary caller handler, in two flavors: visit all, and
//! visit until the handler signals stop. The until flavor must disambiguate
//! "the handler stopped the walk" from "the walk failed": the host reports
//! both with the same failing return, so the last-error cell is cleared to
//! the zero sentinel before the walk and consulted after it. Omitting that
//! step would turn every deliberate early stop under a stale error into a
//! false failure.

use vstd::prelude::*;
use crate::host::{Host, WindowRow};
use crate::utils::{ErrorCode, Result};
use crate::sys::{ERROR_INVALID_WINDOW_HANDLE, MSG, POINT, CREATESTRUCTW};

verus! {

/// Whether the walk over `parent`'s scope visits `w`: live windows only;
/// without a parent the top-level windows, with one its direct children.
pub open spec fn selected(w: WindowRow, parent: Option<usize>) -> bool {
    w.alive && match parent {
        None => w.parent == 0,
        Some(p) => w.parent == p,
    }
}

/// A handler the enumeration trampoline drives: one visited window at a
/// time, with a stop signal. Its observable state is the spec-level model;
/// each visit steps the model by `step_m` and stops the walk when `stops_m`
/// held of the model before the visit.
pub trait EnumCallback: Sized {
    /// Spec-level state of the handler.
    type M;

    /// The handler's current model.
    spec fn model(self) -> Self::M;

    /// The model after visiting `w`.
    spec fn step_m(m: Self::M, w: WindowRow) -> Self::M;

    /// Whether visiting `w` in state `m` signals stop.
    spec fn stops_m(m: Self::M, w: WindowRow) -> bool;

    /// Visits one window.
    fn on_window(&mut self, w: &WindowRow) -> (stop: bool)
        ensures
            final(self).model() == Self::step_m(old(self).model(), *w),
            stop == Self::stops_m(old(self).model(), *w),
    ;
}

/// The model after an unconditional walk over the first `i` windows of `ws`.
pub open spec fn fold_m<T: EnumCallback>(
    m: T::M,
    ws: Seq<WindowRow>,
    parent: Option<usize>,
    i: int,
) -> T::M
    decreases i,
{
    if i <= 0 {
        m
    } else {
        let prev = fold_m::<T>(m, ws, parent, i - 1);
        if selected(ws[i - 1], parent) {
            T::step_m(prev, ws[i - 1])
        } else {
            prev
        }
    }
}

/// The model after an early-exit walk over `ws`, and whether the walk was
/// stopped by the handler.
pub open spec fn run_until<T: EnumCallback>(
    m: T::M,
    ws: Seq<WindowRow>,
    parent: Option<usize>,
) -> (T::M, bool)
    decreases ws.len(),
{
    if ws.len() == 0 {
        (m, false)
    } else if !selected(ws[0], parent) {
        run_until::<T>(m, ws.drop_first(), parent)
    } else {
        let stepped = T::step_m(m, ws[0]);
        if T::stops_m(m, ws[0]) {
            (stepped, true)
        } else {
            run_until::<T>(stepped, ws.drop_first(), parent)
        }
    }
}

/// Walks every window in scope and hands each to the handler, with no way
/// to stop early. Fails exactly when the host fails the walk.
pub fn enum_by<T: EnumCallback>(host: &mut Host, parent: Option<usize>, cmp_func: &mut T) -> (r:
    Result<()>)
    requires
        old(host).wf(),
    ensures
        final(host).wf(),
        match old(host).fail_next {
            Some(c) => {
                &&& r == Result::<()>::Err(ErrorCode::new_spec(c))
                &&& Host::failed_with(*old(host), *final(host), c)
                &&& *final(cmp_func) == *old(cmp_func)
            },
            None => {
                &&& r == Result::<()>::Ok(())
                &&& *final(host) == *old(host)
                &&& final(cmp_func).model() == fold_m::<T>(
                    old(cmp_func).model(),
                    old(host).windows@,
                    parent,
                    old(host).windows@.len() as int,
                )
            },
        },
{
    match host.take_fault() {
        Some(c) => Err(ErrorCode::new(c)),
        None => {
            let ghost m0 = cmp_func.model();
            let n = host.windows.len();
            let mut i: usize = 0;
            while i < n
                invariant
                    old(host).wf(),
                    old(host).fail_next == None::<u32>,
                    *host == *old(host),
                    n == host.windows@.len(),
                    i <= n,
                    cmp_func.model() == fold_m::<T>(m0, host.windows@, parent, i as int),
                decreases n - i,
            {
                let w = &host.windows[i];
                let sel = w.alive && match parent {
                    None => w.parent == 0,
                    Some(p) => w.parent == p,
                };
                if sel {
                    cmp_func.on_window(w);
                }
                i += 1;
            }
            Ok(())
        },
    }
}

/// Walks the windows in scope until the handler signals stop. The last-error
/// cell is cleared to the zero sentinel before the walk, so a deliberate
/// stop — which the host reports like a failure — is told apart from a real
/// failure by the cell staying zero; a stopped walk is success.
pub fn enum_by_until<T: EnumCallback>(
    host: &mut Host,
    parent: Option<usize>,
    cmp_func: &mut T,
) -> (r: Result<()>)
    requires
        old(host).wf(),
    ensures
        final(host).wf(),
        Host::only_err_changed(*old(host), *final(host)),
        final(host).fail_next == None::<u32>,
        match old(host).fail_next {
            Some(c) => {
                &&& *final(cmp_func) == *old(cmp_func)
                &&& final(host).last_error == c
                &&& r == (if c != 0 {
                    Result::<()>::Err(ErrorCode::new_spec(c))
                } else {
                    Result::<()>::Ok(())
                })
            },
            None => {
                &&& r == Result::<()>::Ok(())
                &&& final(host).last_error == 0
                &&& final(cmp_func).model() == run_until::<T>(
                    old(cmp_func).model(),
                    old(host).windows@,
                    parent,
                ).0
            },
        },
{
    host.set_last_error(0);
    match host.take_fault() {
        Some(c) => {
            let e = crate::utils::get_last_error(host);
            if e.raw_code() != 0 {
                Err(e)
            } else {
                Ok(())
            }
        },
        None => {
            let ghost m0 = cmp_func.model();
            let ghost ws = host.windows@;
            proof {
                assert(ws.skip(0) =~= ws);
            }
            let n = host.windows.len();
            let mut i: usize = 0;
            while i < n
                invariant
                    old(host).wf(),
                    old(host).fail_next == None::<u32>,
                    host.wf(),
                    Host::only_err_changed(*old(host), *host),
                    host.fail_next == None::<u32>,
                    host.last_error == 0,
                    ws == host.windows@,
                    ws == old(host).windows@,
                    m0 == old(cmp_func).model(),
                    n == host.windows@.len(),
                    i <= n,
                    run_until::<T>(m0, ws, parent) == run_until::<T>(
                        cmp_func.model(),
                        ws.skip(i as int),
                        parent,
                    ),
                decreases n - i,
            {
                proof {
                    assert(ws.skip(i as int).len() > 0);
                    assert(ws.skip(i as int)[0] == ws[i as int]);
                    assert(ws.skip(i as int).drop_first() =~= ws.skip(i as int + 1));
                }
                let w = &host.windows[i];
                let sel = w.alive && match parent {
                    None => w.parent == 0,
                    Some(p) => w.parent == p,
                };
                if sel {
                    let ghost m_pre = cmp_func.model();
                    let stop = cmp_func.on_window(w);
                    proof {
                        assert(selected(ws[i as int], parent));
                        assert(run_until::<T>(m_pre, ws.skip(i as int), parent) == (
                        if T::stops_m(m_pre, ws[i as int]) {
                            (T::step_m(m_pre, ws[i as int]), true)
                        } else {
                            run_until::<T>(
                                T::step_m(m_pre, ws[i as int]),
                                ws.skip(i as int + 1),
                                parent,
                            )
                        }));
                    }
                    if stop {
                        return Ok(());
                    }
                }
                i += 1;
            }
            proof {
                assert(ws.skip(n as int) =~= Seq::<WindowRow>::empty());
            }
            Ok(())
        },
    }
}

/// The decision at the end of an interrupted walk, from the native return
/// and the last-error cell read after it (the cell having been cleared to
/// zero before the walk): a failing return with the cell still zero is an
/// intentional stop by the handler, not an error.
pub fn until_outcome(returned_zero: bool, last_error_after: u32) -> (r: Result<()>)
    ensures
        r == (if returned_zero && last_error_after != 0 {
            Result::<()>::Err(ErrorCode::new_spec(last_error_after))
        } else {
            Result::<()>::Ok(())
        }),
{
    if returned_zero && last_error_after != 0 {
        Err(ErrorCode::new(last_error_after))
    } else {
        Ok(())
    }
}

/// Handler that stops at the first in-scope window of a given process and
/// remembers its handle.
pub struct PidFind {
    /// Process identifier looked for.
    pub pid: u32,
    /// Handle of the first match, once seen.
    pub found: Option<usize>,
}

impl EnumCallback for PidFind {
    type M = (u32, Option<usize>);

    open spec fn model(self) -> (u32, Option<usize>) {
        (self.pid, self.found)
    }

    open spec fn step_m(m: (u32, Option<usize>), w: WindowRow) -> (u32, Option<usize>) {
        if w.pid == m.0 {
            (m.0, Some(w.handle))
        } else {
            m
        }
    }

    open spec fn stops_m(m: (u32, Option<usize>), w: WindowRow) -> bool {
        w.pid == m.0
    }

    fn on_window(&mut self, w: &WindowRow) -> (stop: bool) {
        if w.pid == self.pid {
            self.found = Some(w.handle);
            true
        } else {
            false
        }
    }
}

/// Handle of the first window of `ws` in scope whose process is `pid`.
pub open spec fn first_pid_window(ws: Seq<WindowRow>, parent: Option<usize>, pid: u32) -> Option<
    usize,
>
    decreases ws.len(),
{
    if ws.len() == 0 {
        None
    } else if selected(ws[0], parent) && ws[0].pid == pid {
        Some(ws[0].handle)
    } else {
        first_pid_window(ws.drop_first(), parent, pid)
    }
}

proof fn lemma_pid_run(ws: Seq<WindowRow>, parent: Option<usize>, pid: u32)
    ensures
        run_until::<PidFind>((pid, Option::<usize>::None), ws, parent).0.1 == first_pid_window(
            ws,
            parent,
            pid,
        ),
    decreases ws.len(),
{
    if ws.len() != 0 {
        lemma_pid_run(ws.drop_first(), parent, pid);
    }
}

/// Retrieves the handle of a window created by the process with identifier
/// `pid`, walking the top-level windows and stopping at the first match.
/// Success even when the handler stops the walk, whatever the last-error
/// cell held before the call.
pub fn get_by_pid(host: &mut Host, pid: u32) -> (r: Result<Option<usize>>)
    requires
        old(host).wf(),
    ensures
        final(host).wf(),
        Host::only_err_changed(*old(host), *final(host)),
        match old(host).fail_next {
            Some(c) => r == (if c != 0 {
                Result::<Option<usize>>::Err(ErrorCode::new_spec(c))
            } else {
                Result::<Option<usize>>::Ok(None)
            }) && final(host).last_error == c,
            None => r == Result::<Option<usize>>::Ok(
                first_pid_window(old(host).windows@, None, pid),
            ) && final(host).last_error == 0,
        },
{
    let mut finder = PidFind { pid, found: None };
    let res = enum_by_until(host, None, &mut finder);
    proof {
        lemma_pid_run(old(host).windows@, None, pid);
    }
    match res {
        Err(e) => Err(e),
        Ok(()) => Ok(finder.found),
    }
}

/// Handler that collects the handles of in-scope windows whose readable
/// class or title equals a given text; a window whose compared text is empty
/// is skipped, since by the failing-read convention that text cannot be
/// read.
pub struct TextCollect {
    /// Whether the title (true) or the class (false) is compared.
    pub by_title: bool,
    /// The text looked for.
    pub text: String,
    /// Handles collected so far.
    pub found: Vec<usize>,
}

/// The field of `w` a text collector compares against.
pub open spec fn collected_text(w: WindowRow, by_title: bool) -> Seq<char> {
    if by_title {
        w.title@
    } else {
        w.class@
    }
}

impl EnumCallback for TextCollect {
    type M = (bool, Seq<char>, Seq<usize>);

    open spec fn model(self) -> (bool, Seq<char>, Seq<usize>) {
        (self.by_title, self.text@, self.found@)
    }

    open spec fn step_m(m: (bool, Seq<char>, Seq<usize>), w: WindowRow) -> (
        bool,
        Seq<char>,
        Seq<usize>,
    ) {
        if collected_text(w, m.0).len() > 0 && collected_text(w, m.0) == m.1 {
            (m.0, m.1, m.2.push(w.handle))
        } else {
            m
        }
    }

    open spec fn stops_m(m: (bool, Seq<char>, Seq<usize>), w: WindowRow) -> bool {
        false
    }

    fn on_window(&mut self, w: &WindowRow) -> (stop: bool) {
        let same = if self.by_title {
            !w.title.as_str().is_empty() && self.text == w.title
        } else {
            !w.class.as_str().is_empty() && self.text == w.class
        };
        if same {
            self.found.push(w.handle);
        }
        false
    }
}

/// Handles of the first `i` windows of `ws` in scope whose compared text is
/// nonempty — readable — and equals `text`, in walk order.
pub open spec fn matching_handles(
    ws: Seq<WindowRow>,
    parent: Option<usize>,
    by_title: bool,
    text: Seq<char>,
    i: int,
) -> Seq<usize>
    decreases i,
{
    if i <= 0 {
        Seq::empty()
    } else {
        let prev = matching_handles(ws, parent, by_title, text, i - 1);
        if selected(ws[i - 1], parent) && collected_text(ws[i - 1], by_title).len() > 0
            && collected_text(ws[i - 1], by_title) == text {
            prev.push(ws[i - 1].handle)
        } else {
            prev
        }
    }
}

proof fn lemma_collect_fold(
    ws: Seq<WindowRow>,
    parent: Option<usize>,
    by_title: bool,
    text: Seq<char>,
    found: Seq<usize>,
    i: int,
)
    requires
        0 <= i <= ws.len(),
    ensures
        fold_m::<TextCollect>((by_title, text, found), ws, parent, i) == (
            by_title,
            text,
            found + matching_handles(ws, parent, by_title, text, i),
        ),
    decreases i,
{
    if i <= 0 {
        assert(found + matching_handles(ws, parent, by_title, text, i) =~= found);
    } else {
        lemma_collect_fold(ws, parent, by_title, text, found, i - 1);
        let prev = matching_handles(ws, parent, by_title, text, i - 1);
        if selected(ws[i - 1], parent) && collected_text(ws[i - 1], by_title).len() > 0
            && collected_text(ws[i - 1], by_title) == text {
            assert(found + prev.push(ws[i - 1].handle) =~= (found + prev).push(ws[i - 1].handle));
        }
    }
}

/// Retrieves the handles of every window in scope whose readable class is
/// `class_name`: top-level windows, or the direct children of `parent`.
/// Zero matches is success with an empty list, never an error. A window
/// whose class is empty is skipped — by the failing-read convention that
/// class cannot be read — so an empty sought text matches nothing.
pub fn get_by_class(host: &mut Host, class_name: &str, parent: Option<usize>) -> (r: Result<
    Vec<usize>,
>)
    requires
        old(host).wf(),
    ensures
        final(host).wf(),
        match old(host).fail_next {
            Some(c) => {
                &&& r == Result::<Vec<usize>>::Err(ErrorCode::new_spec(c))
                &&& Host::failed_with(*old(host), *final(host), c)
            },
            None => {
                &&& *final(host) == *old(host)
                &&& r is Ok
                &&& r->Ok_0@ == matching_handles(
                    old(host).windows@,
                    parent,
                    false,
                    class_name@,
                    old(host).windows@.len() as int,
                )
            },
        },
{
    let mut collector = TextCollect { by_title: false, text: class_name.to_owned(), found: Vec::new() };
    let res = enum_by(host, parent, &mut collector);
    proof {
        lemma_collect_fold(
            old(host).windows@,
            parent,
            false,
            class_name@,
            Seq::empty(),
            old(host).windows@.len() as int,
        );
        assert(Seq::<usize>::empty() + matching_handles(
            old(host).windows@,
            parent,
            false,
            class_name@,
            old(host).windows@.len() as int,
        ) =~= matching_handles(
            old(host).windows@,
            parent,
            false,
            class_name@,
            old(host).windows@.len() as int,
        ));
    }
    match res {
        Err(e) => Err(e),
        Ok(()) => Ok(collector.found),
    }
}

/// Retrieves the handles of every window in scope whose readable title is
/// `name`. Zero matches is success with an empty list, never an error; as
/// with the class lookup, a window whose title is empty is skipped, so an
/// empty sought text matches nothing.
pub fn get_by_title(host: &mut Host, name: &str, parent: Option<usize>) -> (r: Result<Vec<usize>>)
    requires
        old(host).wf(),
    ensures
        final(host).wf(),
        match old(host).fail_next {
            Some(c) => {
                &&& r == Result::<Vec<usize>>::Err(ErrorCode::new_spec(c))
                &&& Host::failed_with(*old(host), *final(host), c)
            },
            None => {
                &&& *final(host) == *old(host)
                &&& r is Ok
                &&& r->Ok_0@ == matching_handles(
                    old(host).windows@,
                    parent,
                    true,
                    name@,
                    old(host).windows@.len() as int,
                )
            },
        },
{
    let mut collector = TextCollect { by_title: true, text: name.to_owned(), found: Vec::new() };
    let res = enum_by(host, parent, &mut collector);
    proof {
        lemma_collect_fold(
            old(host).windows@,
            parent,
            true,
            name@,
            Seq::empty(),
            old(host).windows@.len() as int,
        );
        assert(Seq::<usize>::empty() + matching_handles(
            old(host).windows@,
            parent,
            true,
            name@,
            old(host).windows@.len() as int,
        ) =~= matching_handles(
            old(host).windows@,
            parent,
            true,
            name@,
            old(host).windows@.len() as int,
        ));
    }
    match res {
        Err(e) => Err(e),
        Ok(()) => Ok(collector.found),
    }
}

/// If there is no window in scope with the given class, a class lookup
/// collects nothing: success with the empty list follows.
pub proof fn lemma_no_match_collects_nothing(
    ws: Seq<WindowRow>,
    parent: Option<usize>,
    by_title: bool,
    text: Seq<char>,
    i: int,
)
    requires
        forall|j: int|
            0 <= j < ws.len() && selected(#[trigger] ws[j], parent) ==> collected_text(
                ws[j],
                by_title,
            ) != text,
        i <= ws.len(),
    ensures
        matching_handles(ws, parent, by_title, text, i) == Seq::<usize>::empty(),
    decreases i,
{
    if i > 0 {
        lemma_no_match_collects_nothing(ws, parent, by_title, text, i - 1);
    }
}

/// Button-click message.
pub const BM_CLICK: u32 = 0x00F5;

/// Whether the host has a live window with the given handle.
pub open spec fn window_live(h: Host, hwnd: usize) -> bool {
    exists|i: int|
        0 <= i < h.windows@.len() && (#[trigger] h.windows@[i]).handle == hwnd
            && h.windows@[i].alive
}

/// Finds the position of a window handle in the host's window table.
pub(crate) fn find_window(host: &Host, hwnd: usize) -> (r: Option<usize>)
    ensures
        match r {
            Some(i) => i < host.windows@.len() && host.windows@[i as int].handle == hwnd,
            None => forall|i: int|
                0 <= i < host.windows@.len() ==> (#[trigger] host.windows@[i]).handle != hwnd,
        },
{
    let n = host.windows.len();
    let mut i: usize = 0;
    while i < n
        invariant
            n == host.windows@.len(),
            i <= n,
            forall|j: int| 0 <= j < i ==> (#[trigger] host.windows@[j]).handle != hwnd,
        decreases n - i,
    {
        if host.windows[i].handle == hwnd {
            return Some(i);
        }
        i += 1;
    }
    None
}

/// Determines whether the window is live and shown.
pub fn is_visible(host: &Host, window: usize) -> (r: bool)
    requires
        host.wf(),
    ensures
        r == (exists|i: int|
            0 <= i < host.windows@.len() && (#[trigger] host.windows@[i]).handle == window
                && host.windows@[i].alive && host.windows@[i].visible),
{
    let found = find_window(host, window);
    match found {
        Some(i) => {
            let w = &host.windows[i];
            if w.alive && w.visible {
                proof {
                    assert(host.windows@[i as int].handle == window && host.windows@[i as int].alive
                        && host.windows@[i as int].visible);
                }
                true
            } else {
                proof {
                    if exists|j: int|
                        0 <= j < host.windows@.len() && (#[trigger] host.windows@[j]).handle
                            == window && host.windows@[j].alive && host.windows@[j].visible {
                        let j = choose|j: int|
                            0 <= j < host.windows@.len() && (#[trigger] host.windows@[j]).handle
                                == window && host.windows@[j].alive && host.windows@[j].visible;
                        assert(host.windows@[j] == host.windows@[i as int]);
                    }
                }
                false
            }
        },
        None => false,
    }
}

/// Retrieves the window's class name. Fails exactly when the host fails the
/// call, when the window is gone, or when the name is empty — the host then
/// writes nothing and the stale last-error code is reported, as the failing
/// read convention has it.
pub fn get_class(host: &mut Host, window: usize) -> (r: Result<String>)
    requires
        old(host).wf(),
    ensures
        final(host).wf(),
        match old(host).fail_next {
            Some(c) => r == Result::<String>::Err(ErrorCode::new_spec(c)) && Host::failed_with(
                *old(host),
                *final(host),
                c,
            ),
            None => {
                &&& *final(host) == *old(host)
                &&& if !window_live(*old(host), window) {
                    r == Result::<String>::Err(ErrorCode::new_spec(ERROR_INVALID_WINDOW_HANDLE))
                } else {
                    exists|i: int|
                        {
                            &&& 0 <= i < old(host).windows@.len()
                            &&& (#[trigger] old(host).windows@[i]).handle == window
                            &&& old(host).windows@[i].alive
                            &&& if old(host).windows@[i].class@.len() == 0 {
                                r == Result::<String>::Err(
                                    ErrorCode::new_spec(old(host).last_error),
                                )
                            } else {
                                r is Ok && r->Ok_0@ == old(host).windows@[i].class@
                            }
                        }
                }
            },
        },
{
    match host.take_fault() {
        Some(c) => Err(ErrorCode::new(c)),
        None => {
            let found = find_window(host, window);
            match found {
                None => Err(ErrorCode::new(ERROR_INVALID_WINDOW_HANDLE)),
                Some(i) => {
                    let w = &host.windows[i];
                    if !w.alive {
                        proof {
                            lemma_dead_window(*host, window, i as int);
                        }
                        Err(ErrorCode::new(ERROR_INVALID_WINDOW_HANDLE))
                    } else if w.class.as_str().is_empty() {
                        Err(crate::utils::get_last_error(host))
                    } else {
                        Ok(w.class.clone())
                    }
                },
            }
        },
    }
}

/// Retrieves the window's title. The failing read convention of `get_class`
/// applies: an empty title reports the stale last-error code.
pub fn get_text(host: &mut Host, window: usize) -> (r: Result<String>)
    requires
        old(host).wf(),
    ensures
        final(host).wf(),
        match old(host).fail_next {
            Some(c) => r == Result::<String>::Err(ErrorCode::new_spec(c)) && Host::failed_with(
                *old(host),
                *final(host),
                c,
            ),
            None => {
                &&& *final(host) == *old(host)
                &&& if !window_live(*old(host), window) {
                    r == Result::<String>::Err(ErrorCode::new_spec(ERROR_INVALID_WINDOW_HANDLE))
                } else {
                    exists|i: int|
                        {
                            &&& 0 <= i < old(host).windows@.len()
                            &&& (#[trigger] old(host).windows@[i]).handle == window
                            &&& old(host).windows@[i].alive
                            &&& if old(host).windows@[i].title@.len() == 0 {
                                r == Result::<String>::Err(
                                    ErrorCode::new_spec(old(host).last_error),
                                )
                            } else {
                                r is Ok && r->Ok_0@ == old(host).windows@[i].title@
                            }
                        }
                }
            },
        },
{
    match host.take_fault() {
        Some(c) => Err(ErrorCode::new(c)),
        None => {
            let found = find_window(host, window);
            match found {
                None => Err(ErrorCode::new(ERROR_INVALID_WINDOW_HANDLE)),
                Some(i) => {
                    let w = &host.windows[i];
                    if !w.alive {
                        proof {
                            lemma_dead_window(*host, window, i as int);
                        }
                        Err(ErrorCode::new(ERROR_INVALID_WINDOW_HANDLE))
                    } else if w.title.as_str().is_empty() {
                        Err(crate::utils::get_last_error(host))
                    } else {
                        Ok(w.title.clone())
                    }
                },
            }
        },
    }
}

/// A window table holds at most one row per handle, so a dead row at the
/// handle's position rules out a live one anywhere.
proof fn lemma_dead_window(h: Host, window: usize, i: int)
    requires
        h.wf(),
        0 <= i < h.windows@.len(),
        h.windows@[i].handle == window,
        !h.windows@[i].alive,
    ensures
        !window_live(h, window),
{
    if window_live(h, window) {
        let j = choose|j: int|
            0 <= j < h.windows@.len() && (#[trigger] h.windows@[j]).handle == window
                && h.windows@[j].alive;
        assert(h.windows@[j] == h.windows@[i]);
    }
}

/// Retrieves the identifiers of the process and the thread that created the
/// window, in that order; `(0, 0)` when the window is gone.
pub fn get_thread_process_id(host: &Host, window: usize) -> (r: (u32, u32))
    requires
        host.wf(),
    ensures
        window_live(*host, window) ==> exists|i: int|
            {
                &&& 0 <= i < host.windows@.len()
                &&& (#[trigger] host.windows@[i]).handle == window
                &&& host.windows@[i].alive
                &&& r == (host.windows@[i].pid, host.windows@[i].tid)
            },
        !window_live(*host, window) ==> r == (0u32, 0u32),
{
    let found = find_window(host, window);
    match found {
        None => (0, 0),
        Some(i) => {
            let w = &host.windows[i];
            if w.alive {
                (w.pid, w.tid)
            } else {
                proof {
                    lemma_dead_window(*host, window, i as int);
                }
                (0, 0)
            }
        },
    }
}

/// Shows or hides the window per the `SW_*` command and returns whether it
/// was visible before; `false` when the window is gone.
pub fn show(host: &mut Host, window: usize, cmd: i32) -> (r: bool)
    requires
        old(host).wf(),
    ensures
        final(host).wf(),
        Host::same_err(*old(host), *final(host)),
        Host::same_alloc(*old(host), *final(host)),
        Host::same_clock(*old(host), *final(host)),
        Host::same_ids(*old(host), *final(host)),
        Host::same_processes(*old(host), *final(host)),
        Host::same_files(*old(host), *final(host)),
        Host::same_timers(*old(host), *final(host)),
        Host::same_messages(*old(host), *final(host)),
        if window_live(*old(host), window) {
            exists|i: int|
                {
                    &&& 0 <= i < old(host).windows@.len()
                    &&& (#[trigger] old(host).windows@[i]).handle == window
                    &&& old(host).windows@[i].alive
                    &&& r == old(host).windows@[i].visible
                    &&& final(host).windows@ == old(host).windows@.update(
                        i,
                        WindowRow {
                            visible: cmd != crate::sys::SW_HIDE,
                            ..old(host).windows@[i]
                        },
                    )
                }
        } else {
            !r && final(host).windows == old(host).windows
        },
{
    let found = find_window(host, window);
    match found {
        None => false,
        Some(i) => {
            let was = {
                let w = &host.windows[i];
                if !w.alive {
                    proof {
                        lemma_dead_window(*host, window, i as int);
                    }
                    return false;
                }
                w.visible
            };
            let row = self_show_row(host, i, cmd != crate::sys::SW_HIDE);
            was
        },
    }
}

/// Replaces the window row at `i` with the same row at a new visibility.
fn self_show_row(host: &mut Host, i: usize, visible: bool)
    requires
        old(host).wf(),
        i < old(host).windows@.len(),
    ensures
        final(host).wf(),
        final(host).windows@ == old(host).windows@.update(
            i as int,
            WindowRow { visible, ..old(host).windows@[i as int] },
        ),
        Host::same_err(*old(host), *final(host)),
        Host::same_alloc(*old(host), *final(host)),
        Host::same_clock(*old(host), *final(host)),
        Host::same_ids(*old(host), *final(host)),
        Host::same_processes(*old(host), *final(host)),
        Host::same_files(*old(host), *final(host)),
        Host::same_timers(*old(host), *final(host)),
        Host::same_messages(*old(host), *final(host)),
{
    let row = host.windows.remove(i);
    let updated = WindowRow { visible, ..row };
    host.windows.insert(i, updated);
    proof {
        assert(host.windows@ =~= old(host).windows@.update(
            i as int,
            WindowRow { visible, ..old(host).windows@[i as int] },
        ));
    }
}

/// Destroys the window; returns whether a live window was there to destroy.
pub fn destroy(host: &mut Host, window: usize) -> (r: bool)
    requires
        old(host).wf(),
    ensures
        final(host).wf(),
        Host::same_err(*old(host), *final(host)),
        Host::same_alloc(*old(host), *final(host)),
        Host::same_clock(*old(host), *final(host)),
        Host::same_ids(*old(host), *final(host)),
        Host::same_processes(*old(host), *final(host)),
        Host::same_files(*old(host), *final(host)),
        Host::same_timers(*old(host), *final(host)),
        Host::same_messages(*old(host), *final(host)),
        r == window_live(*old(host), window),
        if window_live(*old(host), window) {
            exists|i: int|
                {
                    &&& 0 <= i < old(host).windows@.len()
                    &&& (#[trigger] old(host).windows@[i]).handle == window
                    &&& old(host).windows@[i].alive
                    &&& final(host).windows@ == old(host).windows@.update(
                        i,
                        WindowRow {
                            alive: false,
                            visible: false,
                            ..old(host).windows@[i]
                        },
                    )
                }
        } else {
            final(host).windows == old(host).windows
        },
{
    let found = find_window(host, window);
    match found {
        None => false,
        Some(i) => {
            {
                let w = &host.windows[i];
                if !w.alive {
                    proof {
                        lemma_dead_window(*host, window, i as int);
                    }
                    return false;
                }
            }
            let row = host.windows.remove(i);
            let updated = WindowRow { alive: false, visible: false, ..row };
            host.windows.insert(i, updated);
            proof {
                assert(host.windows@ =~= old(host).windows@.update(
                    i as int,
                    WindowRow {
                        alive: false,
                        visible: false,
                        ..old(host).windows@[i as int]
                    },
                ));
            }
            true
        },
    }
}

/// The handle of the active window attached to the calling thread.
pub fn get_active(host: &Host) -> (r: usize)
    ensures
        r == host.active_window,
{
    host.active_window
}

/// The handle of the console window of the calling process.
pub fn get_console(host: &Host) -> (r: usize)
    ensures
        r == host.console_window,
{
    host.console_window
}

/// One more click, stopping at the top of the counter range.
pub open spec fn one_more_click(c: u32) -> u32 {
    if c == u32::MAX {
        c
    } else {
        (c + 1) as u32
    }
}

/// Whether the model gives `msg_type` with `w_param` a meaning of its own;
/// every other message is only delivered and logged.
pub open spec fn msg_modeled(msg_type: u32, w_param: usize) -> bool {
    msg_type == BM_CLICK || (msg_type == crate::sys::WM_SYSCOMMAND && w_param
        == crate::sys::SC_CLOSE)
}

/// A window row after absorbing a modeled message: a click is counted; a
/// close system command destroys the window.
pub open spec fn msg_row_after(row: WindowRow, msg_type: u32, w_param: usize) -> WindowRow {
    if msg_type == BM_CLICK {
        WindowRow { clicks: one_more_click(row.clicks), ..row }
    } else if msg_type == crate::sys::WM_SYSCOMMAND && w_param == crate::sys::SC_CLOSE {
        WindowRow { alive: false, visible: false, ..row }
    } else {
        row
    }
}

/// The log entry of an unmodeled message delivery.
pub open spec fn sent_msg(window: usize, msg_type: u32, w_param: usize, l_param: isize) -> MSG {
    MSG {
        hwnd: window,
        message: msg_type,
        wParam: w_param,
        lParam: l_param,
        time: 0,
        pt: POINT { x: 0, y: 0 },
    }
}

/// What delivering `msg_type` to a live `window` did to the host: a modeled
/// message changes its row, any other is appended to the delivery log.
pub open spec fn sent_post(
    pre: Host,
    post: Host,
    window: usize,
    msg_type: u32,
    w_param: usize,
    l_param: isize,
) -> bool {
    &&& exists|i: int|
        {
            &&& 0 <= i < pre.windows@.len()
            &&& (#[trigger] pre.windows@[i]).handle == window
            &&& pre.windows@[i].alive
            &&& if msg_modeled(msg_type, w_param) {
                post.windows@ == pre.windows@.update(
                    i,
                    msg_row_after(pre.windows@[i], msg_type, w_param),
                ) && Host::same_messages(pre, post)
            } else {
                post.windows == pre.windows && post.sent@ == pre.sent@.push(
                    sent_msg(window, msg_type, w_param, l_param),
                ) && post.messages == pre.messages && post.dispatched == pre.dispatched
            }
        }
    &&& Host::same_alloc(pre, post)
    &&& Host::same_clock(pre, post)
    &&& Host::same_ids(pre, post)
    &&& Host::same_processes(pre, post)
    &&& Host::same_files(pre, post)
    &&& Host::same_timers(pre, post)
}

/// Delivers a message to a live window; `None` when the window is gone.
fn send_core(host: &mut Host, window: usize, msg_type: u32, w_param: usize, l_param: isize) -> (r:
    Option<isize>)
    requires
        old(host).wf(),
    ensures
        final(host).wf(),
        match r {
            None => !window_live(*old(host), window) && *final(host) == *old(host),
            Some(v) => {
                &&& window_live(*old(host), window)
                &&& v == 0
                &&& Host::same_err(*old(host), *final(host))
                &&& sent_post(*old(host), *final(host), window, msg_type, w_param, l_param)
            },
        },
{
    let found = find_window(host, window);
    match found {
        None => None,
        Some(i) => {
            {
                let w = &host.windows[i];
                if !w.alive {
                    proof {
                        lemma_dead_window(*host, window, i as int);
                    }
                    return None;
                }
            }
            if msg_type == BM_CLICK {
                let row = host.windows.remove(i);
                let clicks = if row.clicks < u32::MAX {
                    row.clicks + 1
                } else {
                    row.clicks
                };
                let updated = WindowRow { clicks, ..row };
                host.windows.insert(i, updated);
                proof {
                    assert(host.windows@ =~= old(host).windows@.update(
                        i as int,
                        msg_row_after(old(host).windows@[i as int], msg_type, w_param),
                    ));
                }
                Some(0)
            } else if msg_type == crate::sys::WM_SYSCOMMAND && w_param == crate::sys::SC_CLOSE {
                let row = host.windows.remove(i);
                let updated = WindowRow { alive: false, visible: false, ..row };
                host.windows.insert(i, updated);
                proof {
                    assert(host.windows@ =~= old(host).windows@.update(
                        i as int,
                        msg_row_after(old(host).windows@[i as int], msg_type, w_param),
                    ));
                }
                Some(0)
            } else {
                host.sent.push(
                    MSG {
                        hwnd: window,
                        message: msg_type,
                        wParam: w_param,
                        lParam: l_param,
                        time: 0,
                        pt: POINT { x: 0, y: 0 },
                    },
                );
                Some(0)
            }
        },
    }
}

/// Sends a message to a window and waits for it to be absorbed. Without a
/// timeout the send cannot fail: a gone window merely answers zero. With a
/// timeout the send fails when the host fails the call or the window is
/// gone.
pub fn send_message(
    host: &mut Host,
    window: usize,
    msg_type: u32,
    w_param: usize,
    l_param: isize,
    timeout: Option<u32>,
) -> (r: Result<isize>)
    requires
        old(host).wf(),
    ensures
        final(host).wf(),
        match timeout {
            None => {
                &&& r is Ok
                &&& r->Ok_0 == 0isize
                &&& if window_live(*old(host), window) {
                    Host::same_err(*old(host), *final(host)) && sent_post(
                        *old(host),
                        *final(host),
                        window,
                        msg_type,
                        w_param,
                        l_param,
                    )
                } else {
                    *final(host) == *old(host)
                }
            },
            Some(_) => match old(host).fail_next {
                Some(c) => r == Result::<isize>::Err(ErrorCode::new_spec(c)) && Host::failed_with(
                    *old(host),
                    *final(host),
                    c,
                ),
                None => {
                    if window_live(*old(host), window) {
                        r is Ok && r->Ok_0 == 0isize && Host::same_err(
                            *old(host),
                            *final(host),
                        ) && sent_post(
                            *old(host),
                            *final(host),
                            window,
                            msg_type,
                            w_param,
                            l_param,
                        )
                    } else {
                        r == Result::<isize>::Err(
                            ErrorCode::new_spec(ERROR_INVALID_WINDOW_HANDLE),
                        ) && Host::failed_with(
                            *old(host),
                            *final(host),
                            ERROR_INVALID_WINDOW_HANDLE,
                        )
                    }
                },
            },
        },
{
    match timeout {
        None => match send_core(host, window, msg_type, w_param, l_param) {
            None => Ok(0),
            Some(v) => Ok(v),
        },
        Some(_) => match host.take_fault() {
            Some(c) => Err(ErrorCode::new(c)),
            None => match send_core(host, window, msg_type, w_param, l_param) {
                None => {
                    host.set_last_error(ERROR_INVALID_WINDOW_HANDLE);
                    Err(ErrorCode::new(ERROR_INVALID_WINDOW_HANDLE))
                },
                Some(v) => Ok(v),
            },
        },
    }
}

/// Sends the button-click message to a window; a live window counts the
/// click.
pub fn send_push_button(host: &mut Host, window: usize, timeout: Option<u32>) -> (r: Result<isize>)
    requires
        old(host).wf(),
    ensures
        final(host).wf(),
        match timeout {
            None => {
                &&& r is Ok
                &&& r->Ok_0 == 0isize
                &&& if window_live(*old(host), window) {
                    Host::same_err(*old(host), *final(host)) && sent_post(
                        *old(host),
                        *final(host),
                        window,
                        BM_CLICK,
                        0,
                        0,
                    )
                } else {
                    *final(host) == *old(host)
                }
            },
            Some(_) => match old(host).fail_next {
                Some(c) => r == Result::<isize>::Err(ErrorCode::new_spec(c)) && Host::failed_with(
                    *old(host),
                    *final(host),
                    c,
                ),
                None => {
                    if window_live(*old(host), window) {
                        r is Ok && r->Ok_0 == 0isize && Host::same_err(
                            *old(host),
                            *final(host),
                        ) && sent_post(*old(host), *final(host), window, BM_CLICK, 0, 0)
                    } else {
                        r == Result::<isize>::Err(
                            ErrorCode::new_spec(ERROR_INVALID_WINDOW_HANDLE),
                        ) && Host::failed_with(
                            *old(host),
                            *final(host),
                            ERROR_INVALID_WINDOW_HANDLE,
                        )
                    }
                },
            },
        },
{
    send_message(host, window, BM_CLICK, 0, 0, timeout)
}

/// Replaces a window's title text; returns whether a live window took it.
pub fn send_set_text(host: &mut Host, window: usize, text: &str) -> (r: bool)
    requires
        old(host).wf(),
    ensures
        final(host).wf(),
        Host::same_err(*old(host), *final(host)),
        Host::same_alloc(*old(host), *final(host)),
        Host::same_clock(*old(host), *final(host)),
        Host::same_ids(*old(host), *final(host)),
        Host::same_processes(*old(host), *final(host)),
        Host::same_files(*old(host), *final(host)),
        Host::same_timers(*old(host), *final(host)),
        Host::same_messages(*old(host), *final(host)),
        r == window_live(*old(host), window),
        final(host).windows@.len() == old(host).windows@.len(),
        if window_live(*old(host), window) {
            exists|i: int|
                {
                    &&& 0 <= i < old(host).windows@.len()
                    &&& (#[trigger] old(host).windows@[i]).handle == window
                    &&& old(host).windows@[i].alive
                    &&& final(host).windows@[i].title@ == text@
                    &&& final(host).windows@[i].handle == old(host).windows@[i].handle
                    &&& final(host).windows@[i].parent == old(host).windows@[i].parent
                    &&& final(host).windows@[i].class == old(host).windows@[i].class
                    &&& final(host).windows@[i].pid == old(host).windows@[i].pid
                    &&& final(host).windows@[i].tid == old(host).windows@[i].tid
                    &&& final(host).windows@[i].visible == old(host).windows@[i].visible
                    &&& final(host).windows@[i].alive == old(host).windows@[i].alive
                    &&& final(host).windows@[i].clicks == old(host).windows@[i].clicks
                    &&& forall|j: int|
                        0 <= j < old(host).windows@.len() && j != i
                            ==> final(host).windows@[j] == old(host).windows@[j]
                }
        } else {
            final(host).windows == old(host).windows
        },
{
    let found = find_window(host, window);
    match found {
        None => false,
        Some(i) => {
            {
                let w = &host.windows[i];
                if !w.alive {
                    proof {
                        lemma_dead_window(*host, window, i as int);
                    }
                    return false;
                }
            }
            let row = host.windows.remove(i);
            let updated = WindowRow { title: text.to_owned(), ..row };
            host.windows.insert(i, updated);
            proof {
                assert(forall|j: int|
                    0 <= j < old(host).windows@.len() && j != i ==> host.windows@[j] == old(
                        host,
                    ).windows@[j]);
            }
            true
        },
    }
}

/// Reads a window's title text; `None` when the window is gone or its title
/// is empty.
pub fn send_get_text(host: &Host, window: usize) -> (r: Option<String>)
    requires
        host.wf(),
    ensures
        match r {
            Some(s) => exists|i: int|
                {
                    &&& 0 <= i < host.windows@.len()
                    &&& (#[trigger] host.windows@[i]).handle == window
                    &&& host.windows@[i].alive
                    &&& host.windows@[i].title@.len() > 0
                    &&& s@ == host.windows@[i].title@
                },
            None => !window_live(*host, window) || exists|i: int|
                {
                    &&& 0 <= i < host.windows@.len()
                    &&& (#[trigger] host.windows@[i]).handle == window
                    &&& host.windows@[i].alive
                    &&& host.windows@[i].title@.len() == 0
                },
        },
{
    let found = find_window(host, window);
    match found {
        None => None,
        Some(i) => {
            let w = &host.windows[i];
            if !w.alive {
                proof {
                    lemma_dead_window(*host, window, i as int);
                }
                None
            } else if w.title.as_str().is_empty() {
                None
            } else {
                Some(w.title.clone())
            }
        },
    }
}

/// Sends a system command to a window. A live window absorbs it — a close
/// command destroys the window — and a gone window answers zero as well, so
/// the call always reports the command as processed.
pub fn send_sys_command(host: &mut Host, window: usize, cmd_type: usize, l_param: isize) -> (r:
    bool)
    requires
        old(host).wf(),
    ensures
        final(host).wf(),
        r,
        if window_live(*old(host), window) {
            Host::same_err(*old(host), *final(host)) && sent_post(
                *old(host),
                *final(host),
                window,
                crate::sys::WM_SYSCOMMAND,
                cmd_type,
                l_param,
            )
        } else {
            *final(host) == *old(host)
        },
{
    let res = send_message(host, window, crate::sys::WM_SYSCOMMAND, cmd_type, l_param, None);
    match res {
        Ok(v) => v == 0,
        Err(_) => false,
    }
}

/// A window builder. To create a window at least the class name must be
/// set.
pub struct Builder {
    /// Extended style bits.
    pub ex_style: u32,
    /// Class of the window to create.
    pub class_name: Option<String>,
    /// Title of the window to create.
    pub window_name: Option<String>,
    /// Style bits.
    pub style: u32,
    /// Position on the screen.
    pub position: (i32, i32),
    /// Width.
    pub width: i32,
    /// Height.
    pub height: i32,
    /// Parent window handle; `0` for none.
    pub parent: usize,
    /// Menu handle; `0` for none.
    pub menu: usize,
    /// Owning module instance; `0` for none.
    pub inst: usize,
    /// Creation parameters handed to the new window.
    pub param: Option<CREATESTRUCTW>,
}

impl Builder {
    /// Initializes a builder with host-chosen geometry and nothing set.
    pub fn new() -> (r: Builder)
        ensures
            r.ex_style == 0,
            r.class_name is None,
            r.window_name is None,
            r.style == 0,
            r.position == (crate::sys::CW_USEDEFAULT, crate::sys::CW_USEDEFAULT),
            r.width == crate::sys::CW_USEDEFAULT,
            r.height == crate::sys::CW_USEDEFAULT,
            r.parent == 0,
            r.menu == 0,
            r.inst == 0,
            r.param is None,
    {
        Builder {
            ex_style: 0,
            class_name: None,
            window_name: None,
            style: 0,
            position: (crate::sys::CW_USEDEFAULT, crate::sys::CW_USEDEFAULT),
            width: crate::sys::CW_USEDEFAULT,
            height: crate::sys::CW_USEDEFAULT,
            parent: 0,
            menu: 0,
            inst: 0,
            param: None,
        }
    }

    /// Sets the style bits.
    pub fn style(&mut self, value: u32) -> (r: &mut Builder)
        ensures
            *r == (Builder { style: value, ..*old(self) }),
            *final(self) == *final(r),
    {
        self.style = value;
        self
    }

    /// Sets the extended style bits.
    pub fn ex_style(&mut self, value: u32) -> (r: &mut Builder)
        ensures
            *r == (Builder { ex_style: value, ..*old(self) }),
            *final(self) == *final(r),
    {
        self.ex_style = value;
        self
    }

    /// Sets the class name.
    pub fn class_name(&mut self, value: &str) -> (r: &mut Builder)
        ensures
            (*r).class_name is Some,
            (*r).class_name->0@ == value@,
            *r == (Builder { class_name: (*r).class_name, ..*old(self) }),
            *final(self) == *final(r),
    {
        self.class_name = Some(value.to_owned());
        self
    }

    /// Sets the window name.
    pub fn window_name(&mut self, value: &str) -> (r: &mut Builder)
        ensures
            (*r).window_name is Some,
            (*r).window_name->0@ == value@,
            *r == (Builder { window_name: (*r).window_name, ..*old(self) }),
            *final(self) == *final(r),
    {
        self.window_name = Some(value.to_owned());
        self
    }

    /// Sets the position.
    pub fn position(&mut self, x: i32, y: i32) -> (r: &mut Builder)
        ensures
            *r == (Builder { position: (x, y), ..*old(self) }),
            *final(self) == *final(r),
    {
        self.position.0 = x;
        self.position.1 = y;
        self
    }

    /// Sets the size.
    pub fn size(&mut self, width: i32, height: i32) -> (r: &mut Builder)
        ensures
            *r == (Builder { width, height, ..*old(self) }),
            *final(self) == *final(r),
    {
        self.width = width;
        self.height = height;
        self
    }

    /// Sets the parent window.
    pub fn parent(&mut self, value: usize) -> (r: &mut Builder)
        ensures
            *r == (Builder { parent: value, ..*old(self) }),
            *final(self) == *final(r),
    {
        self.parent = value;
        self
    }

    /// Makes the window message-only: its parent is the message sentinel and
    /// enumeration does not find it.
    pub fn parent_message(&mut self) -> (r: &mut Builder)
        ensures
            *r == (Builder { parent: crate::sys::HWND_MESSAGE, ..*old(self) }),
            *final(self) == *final(r),
    {
        self.parent = crate::sys::HWND_MESSAGE;
        self
    }

    /// Sets the owning module instance.
    pub fn instance(&mut self, value: usize) -> (r: &mut Builder)
        ensures
            *r == (Builder { inst: value, ..*old(self) }),
            *final(self) == *final(r),
    {
        self.inst = value;
        self
    }

    /// Sets the creation parameters delivered to the new window.
    pub fn param(&mut self, value: &CREATESTRUCTW) -> (r: &mut Builder)
        ensures
            *r == (Builder { param: Some(*value), ..*old(self) }),
            *final(self) == *final(r),
    {
        self.param = Some(*value);
        self
    }

    /// Creates the window. Fails exactly when the host fails the call, no
    /// class name is set, or no handle is left; the new window belongs to
    /// the calling process and thread and starts visible when the style
    /// says so.
    pub fn create(&self, host: &mut Host) -> (r: Result<usize>)
        requires
            old(host).wf(),
        ensures
            final(host).wf(),
            match r {
                Ok(h) => {
                    &&& old(host).fail_next == None::<u32>
                    &&& self.class_name is Some
                    &&& old(host).can_alloc()
                    &&& h == old(host).next_handle
                    &&& 0 < h
                    &&& final(host).next_handle == old(host).next_handle + 1
                    &&& final(host).windows@.len() == old(host).windows@.len() + 1
                    &&& final(host).windows@.drop_last() == old(host).windows@
                    &&& final(host).windows@.last().handle == h
                    &&& final(host).windows@.last().parent == self.parent
                    &&& final(host).windows@.last().class@ == self.class_name->0@
                    &&& final(host).windows@.last().title@ == (if self.window_name is Some {
                        self.window_name->0@
                    } else {
                        Seq::<char>::empty()
                    })
                    &&& final(host).windows@.last().pid == old(host).current_pid
                    &&& final(host).windows@.last().tid == old(host).current_tid
                    &&& final(host).windows@.last().visible == (self.style
                        & crate::sys::WS_VISIBLE != 0)
                    &&& final(host).windows@.last().alive
                    &&& final(host).windows@.last().clicks == 0
                    &&& Host::same_err(*old(host), *final(host))
                    &&& Host::same_clock(*old(host), *final(host))
                    &&& Host::same_ids(*old(host), *final(host))
                    &&& Host::same_processes(*old(host), *final(host))
                    &&& Host::same_files(*old(host), *final(host))
                    &&& Host::same_timers(*old(host), *final(host))
                    &&& Host::same_messages(*old(host), *final(host))
                },
                Err(e) => {
                    &&& Host::failed_with(*old(host), *final(host), e.spec_code())
                    &&& match old(host).fail_next {
                        Some(c) => e.spec_code() == c,
                        None => {
                            if self.class_name is None {
                                e.spec_code() == crate::sys::ERROR_CANNOT_FIND_WND_CLASS
                            } else {
                                !old(host).can_alloc() && e.spec_code()
                                    == crate::sys::ERROR_NOT_ENOUGH_MEMORY
                            }
                        },
                    }
                },
            },
    {
        match host.take_fault() {
            Some(c) => Err(ErrorCode::new(c)),
            None => {
                let class = match &self.class_name {
                    None => {
                        host.set_last_error(crate::sys::ERROR_CANNOT_FIND_WND_CLASS);
                        return Err(ErrorCode::new(crate::sys::ERROR_CANNOT_FIND_WND_CLASS));
                    },
                    Some(c) => c.clone(),
                };
                if !host.can_alloc_handle() {
                    host.set_last_error(crate::sys::ERROR_NOT_ENOUGH_MEMORY);
                    return Err(ErrorCode::new(crate::sys::ERROR_NOT_ENOUGH_MEMORY));
                }
                let title = match &self.window_name {
                    None => String::new(),
                    Some(t) => t.clone(),
                };
                let pid = host.current_pid;
                let tid = host.current_tid;
                let row = WindowRow {
                    handle: 0,
                    parent: self.parent,
                    class,
                    title,
                    pid,
                    tid,
                    visible: self.style & crate::sys::WS_VISIBLE != 0,
                    alive: true,
                    clicks: 0,
                };
                let h = host.push_window_row(row);
                Ok(h)
            },
        }
    }
}

/// Whether `w` is a live top-level window with the given class, and the
/// given title when one is asked for.
pub open spec fn find_matches(w: WindowRow, class: Seq<char>, name: Option<Seq<char>>) -> bool {
    &&& w.alive
    &&& w.parent == 0
    &&& w.class@ == class
    &&& match name {
        None => true,
        Some(n) => w.title@ == n,
    }
}

/// Handle of the first live top-level window of `ws` with the given class
/// and, when asked for, title.
pub open spec fn first_find(ws: Seq<WindowRow>, class: Seq<char>, name: Option<Seq<char>>) -> Option<
    usize,
>
    decreases ws.len(),
{
    if ws.len() == 0 {
        None
    } else if find_matches(ws[0], class, name) {
        Some(ws[0].handle)
    } else {
        first_find(ws.drop_first(), class, name)
    }
}

/// Searches for a top-level window by class name and, optionally, title.
/// Fails exactly when the host fails the call or no window matches.
pub fn find(host: &mut Host, class_name: &str, window_name: Option<&str>) -> (r: Result<usize>)
    requires
        old(host).wf(),
    ensures
        final(host).wf(),
        match old(host).fail_next {
            Some(c) => r is Err && r->Err_0 == ErrorCode::new_spec(c) && Host::failed_with(
                *old(host),
                *final(host),
                c,
            ),
            None => {
                let sought = first_find(
                    old(host).windows@,
                    class_name@,
                    match window_name {
                        None => None,
                        Some(n) => Some(n@),
                    },
                );
                match sought {
                    Some(h) => r == Result::<usize>::Ok(h) && *final(host) == *old(host),
                    None => r is Err && r->Err_0 == ErrorCode::new_spec(
                        ERROR_INVALID_WINDOW_HANDLE,
                    ) && Host::failed_with(*old(host), *final(host), ERROR_INVALID_WINDOW_HANDLE),
                }
            },
        },
{
    match host.take_fault() {
        Some(c) => Err(ErrorCode::new(c)),
        None => {
            let ghost sought_name: Option<Seq<char>> = match window_name {
                None => None,
                Some(n) => Some(n@),
            };
            let class_string = class_name.to_owned();
            let name_string = match window_name {
                None => None,
                Some(n) => Some(n.to_owned()),
            };
            proof {
                assert(host.windows@.skip(0) =~= host.windows@);
            }
            let n = host.windows.len();
            let mut i: usize = 0;
            while i < n
                invariant
                    old(host).wf(),
                    old(host).fail_next == None::<u32>,
                    n == host.windows@.len(),
                    i <= n,
                    *host == *old(host),
                    class_string@ == class_name@,
                    match window_name {
                        None => name_string is None,
                        Some(sought) => name_string is Some && name_string->0@ == sought@,
                    },
                    sought_name == (match window_name {
                        None => None::<Seq<char>>,
                        Some(sought) => Some(sought@),
                    }),
                    first_find(host.windows@.skip(i as int), class_name@, sought_name)
                        == first_find(host.windows@, class_name@, sought_name),
                decreases n - i,
            {
                proof {
                    assert(host.windows@.skip(i as int)[0] == host.windows@[i as int]);
                    assert(host.windows@.skip(i as int).drop_first() =~= host.windows@.skip(
                        i as int + 1,
                    ));
                }
                let w = &host.windows[i];
                let class_ok = w.alive && w.parent == 0 && w.class == class_string;
                let name_ok = match &name_string {
                    None => true,
                    Some(sought) => w.title == *sought,
                };
                if class_ok && name_ok {
                    return Ok(w.handle);
                }
                i += 1;
            }
            proof {
                assert(host.windows@.skip(n as int) =~= Seq::<WindowRow>::empty());
            }
            host.set_last_error(ERROR_INVALID_WINDOW_HANDLE);
            Err(ErrorCode::new(ERROR_INVALID_WINDOW_HANDLE))
        },
    }
}

/// Whether `w` is a live window in `parent`'s scope with the given class
/// and, when asked for, the given title.
pub open spec fn child_matches(
    w: WindowRow,
    parent: Option<usize>,
    class: Seq<char>,
    name: Option<Seq<char>>,
) -> bool {
    &&& selected(w, parent)
    &&& w.class@ == class
    &&& match name {
        None => true,
        Some(n) => w.title@ == n,
    }
}

/// Handle of the first window of `ws`, at or after position `from`, that
/// matches the scope, class and title sought.
pub open spec fn first_child_find(
    ws: Seq<WindowRow>,
    parent: Option<usize>,
    class: Seq<char>,
    name: Option<Seq<char>>,
    from: int,
) -> Option<usize>
    decreases ws.len() - from,
{
    if from < 0 || from >= ws.len() {
        None
    } else if child_matches(ws[from], parent, class, name) {
        Some(ws[from].handle)
    } else {
        first_child_find(ws, parent, class, name, from + 1)
    }
}

/// The position a child search starts from: just past the row holding
/// `child_after`; from the start when none is given, or when no row holds it
/// — a stale start handle precedes everything rather than failing the walk.
pub open spec fn start_after(ws: Seq<WindowRow>, child_after: Option<usize>) -> int {
    match child_after {
        None => 0,
        Some(h) => {
            if exists|i: int| 0 <= i < ws.len() && (#[trigger] ws[i]).handle == h {
                (choose|i: int| 0 <= i < ws.len() && (#[trigger] ws[i]).handle == h) + 1
            } else {
                0
            }
        },
    }
}

/// Searches for a window in `parent`'s scope (`None` meaning top-level) by
/// class name and, optionally, title, starting just past `child_after`'s
/// position. Fails exactly when the host fails the call or nothing past the
/// start matches.
pub fn find_child(
    host: &mut Host,
    class_name: &str,
    window_name: Option<&str>,
    parent: Option<usize>,
    child_after: Option<usize>,
) -> (r: Result<usize>)
    requires
        old(host).wf(),
    ensures
        final(host).wf(),
        match old(host).fail_next {
            Some(c) => r is Err && r->Err_0 == ErrorCode::new_spec(c) && Host::failed_with(
                *old(host),
                *final(host),
                c,
            ),
            None => {
                let sought = first_child_find(
                    old(host).windows@,
                    parent,
                    class_name@,
                    match window_name {
                        None => None,
                        Some(n) => Some(n@),
                    },
                    start_after(old(host).windows@, child_after),
                );
                match sought {
                    Some(h) => r == Result::<usize>::Ok(h) && *final(host) == *old(host),
                    None => r is Err && r->Err_0 == ErrorCode::new_spec(
                        ERROR_INVALID_WINDOW_HANDLE,
                    ) && Host::failed_with(*old(host), *final(host), ERROR_INVALID_WINDOW_HANDLE),
                }
            },
        },
{
    match host.take_fault() {
        Some(c) => Err(ErrorCode::new(c)),
        None => {
            let ghost sought_name: Option<Seq<char>> = match window_name {
                None => None,
                Some(n) => Some(n@),
            };
            let class_string = class_name.to_owned();
            let name_string = match window_name {
                None => None,
                Some(n) => Some(n.to_owned()),
            };
            let start: usize = match child_after {
                None => 0,
                Some(h) => {
                    let total = host.windows.len();
                    let found = find_window(host, h);
                    match found {
                        None => 0,
                        Some(i) => {
                            proof {
                                assert(i < total);
                                let j = choose|j: int|
                                    0 <= j < host.windows@.len() && (
                                    #[trigger] host.windows@[j]).handle == h;
                                if j != i {
                                    assert(host.windows@[j].handle != host.windows@[
                                    i as int].handle);
                                }
                            }
                            i + 1
                        },
                    }
                },
            };
            proof {
                assert(start as int == start_after(host.windows@, child_after));
            }
            let n = host.windows.len();
            let mut k: usize = start;
            while k < n
                invariant
                    old(host).wf(),
                    old(host).fail_next == None::<u32>,
                    n == host.windows@.len(),
                    start <= k,
                    k <= n,
                    *host == *old(host),
                    class_string@ == class_name@,
                    match window_name {
                        None => name_string is None,
                        Some(sought) => name_string is Some && name_string->0@ == sought@,
                    },
                    sought_name == (match window_name {
                        None => None::<Seq<char>>,
                        Some(sought) => Some(sought@),
                    }),
                    start as int == start_after(host.windows@, child_after),
                    first_child_find(host.windows@, parent, class_name@, sought_name, k as int)
                        == first_child_find(
                        host.windows@,
                        parent,
                        class_name@,
                        sought_name,
                        start as int,
                    ),
                decreases n - k,
            {
                let w = &host.windows[k];
                let in_scope = w.alive && match parent {
                    None => w.parent == 0,
                    Some(p) => w.parent == p,
                };
                let class_ok = in_scope && w.class == class_string;
                let name_ok = match &name_string {
                    None => true,
                    Some(sought) => w.title == *sought,
                };
                if class_ok && name_ok {
                    return Ok(w.handle);
                }
                k += 1;
            }
            host.set_last_error(ERROR_INVALID_WINDOW_HANDLE);
            Err(ErrorCode::new(ERROR_INVALID_WINDOW_HANDLE))
        },
    }
}

} // verus!
