//! File-search cursors over the host's file table.
//!
//! A search opens on a wildcard pattern (`*` for any run of characters, `?`
//! for one character, letters compared without regard to ASCII case) and, by
//! the host's convention, hands back the first match together with the
//! cursor; later matches come one at a time, and running past the last match
//! reports the no-more-files code.

use vstd::prelude::*;
use vstd::std_specs::iter::IteratorSpec;
use crate::host::{Host, FileRow, SearchRow};
use crate::utils::{ErrorCode, Result};
use crate::sys::{
    ERROR_FILE_NOT_FOUND,
    ERROR_INVALID_HANDLE,
    ERROR_NOT_ENOUGH_MEMORY,
    ERROR_NO_MORE_FILES,
    FILE_ATTRIBUTE_DIRECTORY,
    FILE_ATTRIBUTE_READONLY,
};

verus! {

broadcast use vstd::string::next_postcondition, vstd::string::axiom_spec_iter;

/// Level of information to request about each entry; the host model keeps
/// the same data at every level.
pub enum FileInfoLevel {
    /// The standard level. Default.
    Standard,
    /// The basic level, omitting the short name.
    Basic,
    /// The upper bound of the level range.
    Max,
}

impl Default for FileInfoLevel {
    /// The standard level.
    fn default() -> (r: Self)
        ensures
            r is Standard,
    {
        FileInfoLevel::Standard
    }
}

/// What kind of entries a search asks for; the host may ignore the
/// directories-only request, and this model does.
pub enum FileSearchType {
    /// Match entries by name. Default.
    NameMatch,
    /// Ask for directories only; advisory.
    DirectoriesOnly,
}

impl Default for FileSearchType {
    /// Match entries by name.
    fn default() -> (r: Self)
        ensures
            r is NameMatch,
    {
        FileSearchType::NameMatch
    }
}

/// A file-system entry a search handed back.
pub struct Entry {
    /// Attribute bits of the entry.
    pub attributes: u32,
    /// High half of the entry's size.
    pub size_high: u32,
    /// Low half of the entry's size.
    pub size_low: u32,
    /// The entry's name.
    pub entry_name: String,
}

impl Entry {
    /// Determines whether the entry is a directory.
    pub fn is_dir(&self) -> (r: bool)
        ensures
            r == (self.attributes & FILE_ATTRIBUTE_DIRECTORY != 0),
    {
        (self.attributes & FILE_ATTRIBUTE_DIRECTORY) != 0
    }

    /// Determines whether the entry is a file.
    pub fn is_file(&self) -> (r: bool)
        ensures
            r == (self.attributes & FILE_ATTRIBUTE_DIRECTORY == 0),
    {
        !self.is_dir()
    }

    /// The entry's size in bytes, joined from its two halves.
    pub fn size(&self) -> (r: u64)
        ensures
            r == (self.size_high as u64) * 0x100000000 + (self.size_low as u64),
    {
        let h64 = self.size_high as u64;
        let l64 = self.size_low as u64;
        assert((h64 << 32u64) | l64 == h64 * 0x100000000u64 + l64) by (bit_vector)
            requires
                h64 <= 0xFFFFFFFFu64 && l64 <= 0xFFFFFFFFu64,
        ;
        (h64 << 32u64) | l64
    }

    /// Whether the entry is read-only.
    pub fn is_read_only(&self) -> (r: bool)
        ensures
            r == (self.attributes & FILE_ATTRIBUTE_READONLY != 0),
    {
        (self.attributes & FILE_ATTRIBUTE_READONLY) != 0
    }

    /// The entry's name.
    pub fn name(&self) -> (r: String)
        ensures
            r@ == self.entry_name@,
    {
        self.entry_name.clone()
    }
}

/// A character for matching: ASCII capitals folded to their small form.
pub open spec fn fold_char(c: char) -> u32 {
    if 65 <= c as u32 && c as u32 <= 90 {
        (c as u32 + 32) as u32
    } else {
        c as u32
    }
}

/// Whether the wildcard pattern `p` matches the whole name `n`: `*` stands
/// for any run of characters, `?` for exactly one, and letters are compared
/// without regard to ASCII case.
pub open spec fn wild(p: Seq<char>, n: Seq<char>) -> bool
    decreases p.len(), n.len(),
{
    if p.len() == 0 {
        n.len() == 0
    } else if p[0] == '*' {
        wild(p.drop_first(), n) || (n.len() > 0 && wild(p, n.drop_first()))
    } else if n.len() == 0 {
        false
    } else {
        (p[0] == '?' || fold_char(p[0]) == fold_char(n[0])) && wild(
            p.drop_first(),
            n.drop_first(),
        )
    }
}

/// Folds an ASCII capital to its small form.
fn fold_char_exec(c: char) -> (r: u32)
    ensures
        r == fold_char(c),
{
    let v = c as u32;
    if 65 <= v && v <= 90 {
        v + 32
    } else {
        v
    }
}

/// The characters of `s`, as a vector.
pub fn chars_vec(s: &str) -> (r: Vec<char>)
    ensures
        r@ == s@,
{
    let mut it = s.chars();
    let mut out: Vec<char> = Vec::new();
    loop
        invariant
            out@ + it.remaining() == s@,
            it.obeys_prophetic_iter_laws(),
            it.decrease() is Some,
        decreases it.decrease()->0,
    {
        let ghost pre = it;
        match it.next() {
            Some(c) => {
                out.push(c);
            },
            None => {
                proof {
                    assert(pre.remaining().len() == 0);
                    assert(out@ =~= s@);
                }
                return out;
            },
        }
    }
}

/// Whether the pattern from position `i` matches the name from position `j`.
fn wild_at(p: &Vec<char>, n: &Vec<char>, i: usize, j: usize) -> (r: bool)
    requires
        i <= p@.len(),
        j <= n@.len(),
    ensures
        r == wild(p@.skip(i as int), n@.skip(j as int)),
    decreases p@.len() - i, n@.len() - j,
{
    proof {
        if i < p@.len() {
            assert(p@.skip(i as int)[0] == p@[i as int]);
            assert(p@.skip(i as int).drop_first() =~= p@.skip(i as int + 1));
        }
        if j < n@.len() {
            assert(n@.skip(j as int)[0] == n@[j as int]);
            assert(n@.skip(j as int).drop_first() =~= n@.skip(j as int + 1));
        }
    }
    if i == p.len() {
        j == n.len()
    } else if p[i] == '*' {
        if wild_at(p, n, i + 1, j) {
            true
        } else if j < n.len() {
            wild_at(p, n, i, j + 1)
        } else {
            false
        }
    } else if j == n.len() {
        false
    } else if p[i] == '?' || fold_char_exec(p[i]) == fold_char_exec(n[j]) {
        wild_at(p, n, i + 1, j + 1)
    } else {
        false
    }
}

/// Whether the wildcard pattern matches the whole name.
pub fn wild_match(pattern: &str, name: &str) -> (r: bool)
    ensures
        r == wild(pattern@, name@),
{
    let p = chars_vec(pattern);
    let n = chars_vec(name);
    proof {
        assert(p@.skip(0) =~= p@);
        assert(n@.skip(0) =~= n@);
    }
    wild_at(&p, &n, 0, 0)
}

/// Position of the first entry at or after `from` whose name matches `pat`.
pub open spec fn next_match(files: Seq<FileRow>, pat: Seq<char>, from: int) -> Option<int>
    decreases files.len() - from,
{
    if from < 0 || from >= files.len() {
        None
    } else if wild(pat, files[from].name@) {
        Some(from)
    } else {
        next_match(files, pat, from + 1)
    }
}

/// Finds the first matching entry at or after `from` in the host's file
/// table.
fn scan_files(host: &Host, pattern: &str, from: usize) -> (r: Option<usize>)
    requires
        from <= host.files@.len(),
    ensures
        match r {
            Some(k) => from <= k < host.files@.len() && next_match(
                host.files@,
                pattern@,
                from as int,
            ) == Some(k as int),
            None => next_match(host.files@, pattern@, from as int) is None,
        },
{
    let n = host.files.len();
    let mut k: usize = from;
    while k < n
        invariant
            from <= k <= n,
            n == host.files@.len(),
            next_match(host.files@, pattern@, from as int) == next_match(
                host.files@,
                pattern@,
                k as int,
            ),
        decreases n - k,
    {
        if wild_match(pattern, host.files[k].name.as_str()) {
            return Some(k);
        }
        k += 1;
    }
    None
}

/// The entry a file-table row hands back.
pub open spec fn entry_of(f: FileRow) -> (u32, u32, u32, Seq<char>) {
    (f.attributes, f.size_high, f.size_low, f.name@)
}

/// A file-search cursor.
pub struct Search {
    /// The cursor's handle.
    pub handle: usize,
}

/// Whether the host has an open search cursor with the given handle.
pub open spec fn search_open(h: Host, sh: usize) -> bool {
    exists|i: int|
        0 <= i < h.searches@.len() && (#[trigger] h.searches@[i]).handle == sh
            && h.searches@[i].open
}

/// Finds the position of a search handle in the host's cursor table.
fn find_search(host: &Host, sh: usize) -> (r: Option<usize>)
    ensures
        match r {
            Some(i) => i < host.searches@.len() && host.searches@[i as int].handle == sh,
            None => forall|i: int|
                0 <= i < host.searches@.len() ==> (#[trigger] host.searches@[i]).handle != sh,
        },
{
    let n = host.searches.len();
    let mut i: usize = 0;
    while i < n
        invariant
            n == host.searches@.len(),
            i <= n,
            forall|j: int| 0 <= j < i ==> (#[trigger] host.searches@[j]).handle != sh,
        decreases n - i,
    {
        if host.searches[i].handle == sh {
            return Some(i);
        }
        i += 1;
    }
    None
}

/// A cursor table holds at most one row per handle, so a closed row at the
/// handle's position rules out an open one anywhere.
proof fn lemma_closed_search(h: Host, sh: usize, i: int)
    requires
        h.wf(),
        0 <= i < h.searches@.len(),
        h.searches@[i].handle == sh,
        !h.searches@[i].open,
    ensures
        !search_open(h, sh),
{
    if search_open(h, sh) {
        let j = choose|j: int|
            0 <= j < h.searches@.len() && (#[trigger] h.searches@[j]).handle == sh
                && h.searches@[j].open;
        assert(h.searches@[j] == h.searches@[i]);
    }
}

impl Search {
    /// Opens a search for `name` over the host's file table. By the host's
    /// convention the first matching entry comes back alongside the cursor.
    /// Fails exactly when the host fails the call, nothing matches, or no
    /// handle is left; `level`, `typ` and `flags` are accepted and, in this
    /// model, do not narrow the match.
    pub fn new(
        host: &mut Host,
        name: &str,
        level: FileInfoLevel,
        typ: FileSearchType,
        flags: u32,
    ) -> (r: Result<(Search, Entry)>)
        requires
            old(host).wf(),
        ensures
            final(host).wf(),
            match r {
                Ok(se) => {
                    &&& old(host).fail_next == None::<u32>
                    &&& old(host).can_alloc()
                    &&& exists|k: int|
                        {
                            &&& next_match(old(host).files@, name@, 0) == Some(k)
                            &&& 0 <= k < old(host).files@.len()
                            &&& entry_of(old(host).files@[k]) == (
                                se.1.attributes,
                                se.1.size_high,
                                se.1.size_low,
                                se.1.entry_name@,
                            )
                            &&& final(host).searches@.len() == old(host).searches@.len() + 1
                            &&& final(host).searches@.drop_last() == old(host).searches@
                            &&& final(host).searches@.last().handle == se.0.handle
                            &&& final(host).searches@.last().pattern@ == name@
                            &&& final(host).searches@.last().pos == k + 1
                            &&& final(host).searches@.last().open
                        }
                    &&& se.0.handle == old(host).next_handle
                    &&& 0 < se.0.handle
                    &&& final(host).next_handle == old(host).next_handle + 1
                    &&& final(host).files == old(host).files
                    &&& Host::same_err(*old(host), *final(host))
                    &&& Host::same_clock(*old(host), *final(host))
                    &&& Host::same_ids(*old(host), *final(host))
                    &&& Host::same_windows(*old(host), *final(host))
                    &&& Host::same_processes(*old(host), *final(host))
                    &&& Host::same_timers(*old(host), *final(host))
                    &&& Host::same_messages(*old(host), *final(host))
                },
                Err(e) => {
                    &&& Host::failed_with(*old(host), *final(host), e.spec_code())
                    &&& match old(host).fail_next {
                        Some(c) => e.spec_code() == c,
                        None => {
                            if next_match(old(host).files@, name@, 0) is None {
                                e.spec_code() == ERROR_FILE_NOT_FOUND
                            } else {
                                !old(host).can_alloc() && e.spec_code()
                                    == ERROR_NOT_ENOUGH_MEMORY
                            }
                        },
                    }
                },
            },
    {
        match host.take_fault() {
            Some(c) => Err(ErrorCode::new(c)),
            None => {
                let found = scan_files(host, name, 0);
                match found {
                    None => {
                        host.set_last_error(ERROR_FILE_NOT_FOUND);
                        Err(ErrorCode::new(ERROR_FILE_NOT_FOUND))
                    },
                    Some(k) => {
                        if !host.can_alloc_handle() {
                            host.set_last_error(ERROR_NOT_ENOUGH_MEMORY);
                            return Err(ErrorCode::new(ERROR_NOT_ENOUGH_MEMORY));
                        }
                        let entry = {
                            let f = &host.files[k];
                            Entry {
                                attributes: f.attributes,
                                size_high: f.size_high,
                                size_low: f.size_low,
                                entry_name: f.name.clone(),
                            }
                        };
                        let nfiles = host.files.len();
                        proof {
                            assert(k < nfiles);
                        }
                        let h = host.push_search_row(name.to_owned(), k + 1);
                        Ok((Search { handle: h }, entry))
                    },
                }
            },
        }
    }

    /// Hands back the next matching entry. Fails exactly when the host fails
    /// the call, the cursor is gone, or — with the no-more-files code — the
    /// cursor has run past its last match.
    pub fn again(&self, host: &mut Host) -> (r: Result<Entry>)
        requires
            old(host).wf(),
        ensures
            final(host).wf(),
            match old(host).fail_next {
                Some(c) => r is Err && r->Err_0 == ErrorCode::new_spec(c) && Host::failed_with(
                    *old(host),
                    *final(host),
                    c,
                ),
                None => {
                    if !search_open(*old(host), self.handle) {
                        r is Err && r->Err_0 == ErrorCode::new_spec(ERROR_INVALID_HANDLE)
                            && Host::failed_with(*old(host), *final(host), ERROR_INVALID_HANDLE)
                    } else {
                        exists|i: int|
                            {
                                &&& 0 <= i < old(host).searches@.len()
                                &&& (#[trigger] old(host).searches@[i]).handle == self.handle
                                &&& old(host).searches@[i].open
                                &&& match next_match(
                                    old(host).files@,
                                    old(host).searches@[i].pattern@,
                                    old(host).searches@[i].pos as int,
                                ) {
                                    Some(k) => {
                                        &&& r is Ok
                                        &&& entry_of(old(host).files@[k]) == (
                                            r->Ok_0.attributes,
                                            r->Ok_0.size_high,
                                            r->Ok_0.size_low,
                                            r->Ok_0.entry_name@,
                                        )
                                        &&& final(host).searches@.len() == old(
                                            host,
                                        ).searches@.len()
                                        &&& final(host).searches@[i].pos == k + 1
                                        &&& final(host).searches@[i].handle == self.handle
                                        &&& final(host).searches@[i].pattern == old(
                                            host,
                                        ).searches@[i].pattern
                                        &&& final(host).searches@[i].open
                                        &&& forall|j: int|
                                            0 <= j < old(host).searches@.len() && j != i
                                                ==> final(host).searches@[j] == old(
                                                host,
                                            ).searches@[j]
                                        &&& final(host).files == old(host).files
                                        &&& Host::same_err(*old(host), *final(host))
                                        &&& Host::same_alloc(*old(host), *final(host))
                                        &&& Host::same_clock(*old(host), *final(host))
                                        &&& Host::same_ids(*old(host), *final(host))
                                        &&& Host::same_windows(*old(host), *final(host))
                                        &&& Host::same_processes(*old(host), *final(host))
                                        &&& Host::same_timers(*old(host), *final(host))
                                        &&& Host::same_messages(*old(host), *final(host))
                                    },
                                    None => {
                                        &&& r is Err
                                        &&& r->Err_0 == ErrorCode::new_spec(ERROR_NO_MORE_FILES)
                                        &&& Host::failed_with(
                                            *old(host),
                                            *final(host),
                                            ERROR_NO_MORE_FILES,
                                        )
                                    },
                                }
                            }
                    }
                },
            },
    {
        match host.take_fault() {
            Some(c) => Err(ErrorCode::new(c)),
            None => {
                let found = find_search(host, self.handle);
                match found {
                    None => {
                        host.set_last_error(ERROR_INVALID_HANDLE);
                        Err(ErrorCode::new(ERROR_INVALID_HANDLE))
                    },
                    Some(i) => {
                        let open = host.searches[i].open;
                        if !open {
                            proof {
                                lemma_closed_search(*host, self.handle, i as int);
                            }
                            host.set_last_error(ERROR_INVALID_HANDLE);
                            return Err(ErrorCode::new(ERROR_INVALID_HANDLE));
                        }
                        let pos = host.searches[i].pos;
                        if pos > host.files.len() {
                            host.set_last_error(ERROR_NO_MORE_FILES);
                            return Err(ErrorCode::new(ERROR_NO_MORE_FILES));
                        }
                        let pat = host.searches[i].pattern.clone();
                        let found_at = scan_files(host, pat.as_str(), pos);
                        match found_at {
                            None => {
                                host.set_last_error(ERROR_NO_MORE_FILES);
                                Err(ErrorCode::new(ERROR_NO_MORE_FILES))
                            },
                            Some(k) => {
                                let entry = {
                                    let f = &host.files[k];
                                    Entry {
                                        attributes: f.attributes,
                                        size_high: f.size_high,
                                        size_low: f.size_low,
                                        entry_name: f.name.clone(),
                                    }
                                };
                                let nfiles = host.files.len();
                                proof {
                                    assert(k < nfiles);
                                }
                                let row = host.searches.remove(i);
                                let updated = SearchRow { pos: k + 1, ..row };
                                host.searches.insert(i, updated);
                                proof {
                                    assert(forall|j: int|
                                        0 <= j < old(host).searches@.len() && j != i
                                            ==> host.searches@[j] == old(host).searches@[j]);
                                }
                                Ok(entry)
                            },
                        }
                    },
                }
            },
        }
    }

    /// Hands back the next matching entry as an iteration step: the
    /// no-more-files outcome of [`Search::again`] ends the iteration, any
    /// other failure is passed through, and a match is handed on unchanged.
    pub fn next(&self, host: &mut Host) -> (r: Option<Result<Entry>>)
        requires
            old(host).wf(),
        ensures
            final(host).wf(),
            match old(host).fail_next {
                Some(c) => Host::failed_with(*old(host), *final(host), c) && if c
                    == ERROR_NO_MORE_FILES {
                    r is None
                } else {
                    r is Some && r->0 is Err && r->0->Err_0 == ErrorCode::new_spec(c)
                },
                None => {
                    if !search_open(*old(host), self.handle) {
                        r is Some && r->0 is Err && r->0->Err_0 == ErrorCode::new_spec(
                            ERROR_INVALID_HANDLE,
                        ) && Host::failed_with(*old(host), *final(host), ERROR_INVALID_HANDLE)
                    } else {
                        exists|i: int|
                            {
                                &&& 0 <= i < old(host).searches@.len()
                                &&& (#[trigger] old(host).searches@[i]).handle == self.handle
                                &&& old(host).searches@[i].open
                                &&& match next_match(
                                    old(host).files@,
                                    old(host).searches@[i].pattern@,
                                    old(host).searches@[i].pos as int,
                                ) {
                                    Some(k) => {
                                        &&& r is Some
                                        &&& r->0 is Ok
                                        &&& entry_of(old(host).files@[k]) == (
                                            r->0->Ok_0.attributes,
                                            r->0->Ok_0.size_high,
                                            r->0->Ok_0.size_low,
                                            r->0->Ok_0.entry_name@,
                                        )
                                        &&& final(host).searches@.len() == old(
                                            host,
                                        ).searches@.len()
                                        &&& final(host).searches@[i].pos == k + 1
                                        &&& final(host).searches@[i].handle == self.handle
                                        &&& final(host).searches@[i].pattern == old(
                                            host,
                                        ).searches@[i].pattern
                                        &&& final(host).searches@[i].open
                                        &&& forall|j: int|
                                            0 <= j < old(host).searches@.len() && j != i
                                                ==> final(host).searches@[j] == old(
                                                host,
                                            ).searches@[j]
                                        &&& final(host).files == old(host).files
                                        &&& Host::same_err(*old(host), *final(host))
                                        &&& Host::same_alloc(*old(host), *final(host))
                                        &&& Host::same_clock(*old(host), *final(host))
                                        &&& Host::same_ids(*old(host), *final(host))
                                        &&& Host::same_windows(*old(host), *final(host))
                                        &&& Host::same_processes(*old(host), *final(host))
                                        &&& Host::same_timers(*old(host), *final(host))
                                        &&& Host::same_messages(*old(host), *final(host))
                                    },
                                    None => r is None && Host::failed_with(
                                        *old(host),
                                        *final(host),
                                        ERROR_NO_MORE_FILES,
                                    ),
                                }
                            }
                    }
                },
            },
    {
        match self.again(host) {
            Ok(entry) => Some(Ok(entry)),
            Err(e) => {
                if e.raw_code() == ERROR_NO_MORE_FILES {
                    None
                } else {
                    Some(Err(e))
                }
            },
        }
    }

    /// Closes the cursor.
    pub fn close(self, host: &mut Host)
        requires
            old(host).wf(),
        ensures
            final(host).wf(),
            final(host).searches@.len() == old(host).searches@.len(),
            !search_open(*final(host), self.handle),
            Host::same_err(*old(host), *final(host)),
            Host::same_alloc(*old(host), *final(host)),
            Host::same_clock(*old(host), *final(host)),
            Host::same_ids(*old(host), *final(host)),
            Host::same_windows(*old(host), *final(host)),
            Host::same_processes(*old(host), *final(host)),
            Host::same_timers(*old(host), *final(host)),
            Host::same_messages(*old(host), *final(host)),
            final(host).files == old(host).files,
    {
        let found = find_search(host, self.handle);
        match found {
            None => {
                proof {
                    if search_open(*host, self.handle) {
                        let j = choose|j: int|
                            0 <= j < host.searches@.len() && (#[trigger] host.searches@[j]).handle
                                == self.handle && host.searches@[j].open;
                    }
                }
            },
            Some(i) => {
                let row = host.searches.remove(i);
                let updated = SearchRow { open: false, ..row };
                host.searches.insert(i, updated);
                proof {
                    lemma_closed_search(*host, self.handle, i as int);
                }
            },
        }
    }
}

} // verus!
