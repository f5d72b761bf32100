//! Reading the short name of a type out of its full path.
use vstd::prelude::*;

verus! {

/// Whether a `"::"` starts at position `i` of `s`.
pub open spec fn separator_at(s: Seq<char>, i: int) -> bool {
    0 <= i && i + 1 < s.len() && s[i] == ':' && s[i + 1] == ':'
}

/// Scanning `s` from position `i` onwards for `"::"` separators, left to right
/// and without overlap, as `str::split` does: the position at which the last
/// piece starts, where `start` is the start of the piece the scan is in.
pub open spec fn last_piece_start(s: Seq<char>, i: int, start: int) -> int
    decreases s.len() - i,
{
    if i < 0 || i + 1 >= s.len() {
        start
    } else if separator_at(s, i) {
        last_piece_start(s, i + 2, i + 2)
    } else {
        last_piece_start(s, i + 1, start)
    }
}

/// The last piece of `s` split at `"::"`, which is what `s.split("::").last()`
/// yields.
pub open spec fn last_piece(s: Seq<char>) -> Seq<char> {
    s.subrange(last_piece_start(s, 0, 0), s.len() as int)
}

/// Whether `"::"` occurs anywhere in `s`.
pub open spec fn contains_separator(s: Seq<char>) -> bool {
    exists|i: int| separator_at(s, i)
}

/// A scan that meets no separator from `i` on stays in the piece it is in.
proof fn lemma_scan_without_separator(s: Seq<char>, i: int, start: int)
    requires
        0 <= i,
        forall|j: int| i <= j ==> !#[trigger] separator_at(s, j),
    ensures
        last_piece_start(s, i, start) == start,
    decreases s.len() - i,
{
    if i + 1 < s.len() {
        lemma_scan_without_separator(s, i + 1, start);
    }
}

/// No separator starts at or after the position where the last piece starts.
proof fn lemma_scan_ends_in_piece(s: Seq<char>, i: int, start: int)
    requires
        0 <= start <= i <= s.len(),
        forall|j: int| start <= j < i ==> !#[trigger] separator_at(s, j),
    ensures
        start <= last_piece_start(s, i, start) <= s.len(),
        forall|j: int| last_piece_start(s, i, start) <= j ==> !#[trigger] separator_at(s, j),
    decreases s.len() - i,
{
    if i + 1 >= s.len() {
    } else if separator_at(s, i) {
        lemma_scan_ends_in_piece(s, i + 2, i + 2);
    } else {
        lemma_scan_ends_in_piece(s, i + 1, start);
    }
}

/// The last piece of a path holds no `"::"`.
pub proof fn lemma_last_piece_has_no_separator(s: Seq<char>)
    ensures
        !contains_separator(last_piece(s)),
{
    lemma_scan_ends_in_piece(s, 0, 0);
    let r = last_piece_start(s, 0, 0);
    let t = last_piece(s);
    assert forall|k: int| !separator_at(t, k) by {
        if separator_at(t, k) {
            assert(t[k] == s[r + k] && t[k + 1] == s[r + k + 1]);
            assert(separator_at(s, r + k));
        }
    }
}

/// Trimming a type name that was trimmed already changes nothing.
pub proof fn lemma_trim_type_name_idempotent(s: Seq<char>)
    ensures
        last_piece(last_piece(s)) == last_piece(s),
{
    let t = last_piece(s);
    lemma_last_piece_has_no_separator(s);
    lemma_scan_without_separator(t, 0, 0);
    assert(t.subrange(0, t.len() as int) =~= t);
}

/// The last `"::"`-separated piece of a type's path, such as `"Vec<u8>"` for
/// `"alloc::vec::Vec<u8>"`. The piece holds no `"::"`, ends the path, and is
/// the whole path when the path holds no `"::"`.
pub fn trim_type_name(full_name: &str) -> (res: &str)
    ensures
        res@ == last_piece(full_name@),
        !contains_separator(res@),
        full_name@.len() >= res@.len(),
        res@ == full_name@.subrange(full_name@.len() - res@.len(), full_name@.len() as int),
        !contains_separator(full_name@) ==> res@ == full_name@,
{
    let ghost s = full_name@;
    let n = full_name.unicode_len();
    let mut i: usize = 0;
    let mut start: usize = 0;
    while n - i > 1
        invariant
            n == s.len(),
            s == full_name@,
            start <= i <= n,
            last_piece_start(s, i as int, start as int) == last_piece_start(s, 0, 0),
            forall|j: int| start <= j < i ==> !#[trigger] separator_at(s, j),
            !contains_separator(s) ==> start == 0,
        decreases n - i,
    {
        if full_name.get_char(i) == ':' && full_name.get_char(i + 1) == ':' {
            assert(separator_at(s, i as int));
            i = i + 2;
            start = i;
        } else {
            i = i + 1;
        }
    }
    let res = full_name.substring_char(start, n);
    assert forall|k: int| !separator_at(res@, k) by {
        if separator_at(res@, k) {
            assert(separator_at(s, start + k));
        }
    }
    proof {
        if !contains_separator(s) {
            assert(res@ =~= s);
        }
    }
    res
}

} // verus!
