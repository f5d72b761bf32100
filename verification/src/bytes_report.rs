//! The text a failed byte comparison reports in a test: where the two byte
//! sequences differ, with the bytes around that position side by side and
//! the differing one marked.
use vstd::prelude::*;

use crate::decimal::decimal;
use crate::decimal::push_decimal;
use crate::testing::bytes_eq_detailed;
use crate::testing::spec_bytes_eq_detailed;
use crate::testing::BytesEqualResult;

verus! {

/// The upper-case hexadecimal digit for `d` (`0 <= d < 16`).
pub open spec fn hex_digit(d: nat) -> char {
    if d < 10 {
        (('0' as nat) + d) as char
    } else {
        (('A' as nat) + (d - 10)) as char
    }
}

/// One byte of a row: `", 0x"` and the byte in two hexadecimal digits.
pub open spec fn byte_entry(b: u8) -> Seq<char> {
    ", 0x"@ + seq![hex_digit((b / 16) as nat), hex_digit((b % 16) as nat)]
}

/// The entries of the bytes of `s` at positions `from` to `to - 1`.
pub open spec fn byte_row(s: Seq<u8>, from: int, to: int) -> Seq<char>
    decreases to - from,
{
    if to <= from {
        Seq::empty()
    } else {
        byte_row(s, from, to - 1) + byte_entry(s[to - 1])
    }
}

/// Below the entries at positions `from` to `to - 1`: a mark under the
/// entry at `at`, blanks under the others.
pub open spec fn marker_row(at: int, from: int, to: int) -> Seq<char>
    decreases to - from,
{
    if to <= from {
        Seq::empty()
    } else {
        marker_row(at, from, to - 1) + if to - 1 == at {
            "  xxxx"@
        } else {
            "      "@
        }
    }
}

/// The first position shown around a difference at `i`: five before it.
pub open spec fn window_start(i: int) -> int {
    if i >= 5 {
        i - 5
    } else {
        0
    }
}

/// The position after the last one shown around a difference at `i`: five
/// after it, within the `len` bytes.
pub open spec fn window_end(i: int, len: int) -> int {
    if i + 6 <= len {
        i + 6
    } else {
        len
    }
}

/// The bytes of `s` around position `i`, with `...` where bytes are left out.
pub open spec fn bytes_line(s: Seq<u8>, i: int) -> Seq<char> {
    let lo = window_start(i);
    let hi = window_end(i, s.len() as int);
    "["@ + (if lo != 0 {
        "..."@
    } else {
        Seq::empty()
    }) + byte_row(s, lo, hi) + (if hi != s.len() {
        ", ..."@
    } else {
        Seq::empty()
    }) + "]"@
}

/// The line that marks position `i` under a [`bytes_line`] of `len` bytes.
pub open spec fn marker_line(i: int, len: int) -> Seq<char> {
    let lo = window_start(i);
    let hi = window_end(i, len);
    " "@ + (if lo != 0 {
        "   "@
    } else {
        Seq::empty()
    }) + marker_row(i, lo, hi) + (if hi != len {
        "     "@
    } else {
        Seq::empty()
    }) + " "@
}

/// What comparing `left` with `right` reports: nothing when they are equal;
/// otherwise their lengths, or the position of the first difference with the
/// bytes around it; `message` comes last.
pub open spec fn report_text(left: Seq<u8>, right: Seq<u8>, message: Seq<char>) -> Option<Seq<char>> {
    match spec_bytes_eq_detailed(left, right) {
        BytesEqualResult::Equal => None,
        BytesEqualResult::DifferentLengths => Some(
            "left and right have different lengths: "@ + decimal(left.len()) + " != "@ + decimal(
                right.len(),
            ) + " "@ + message,
        ),
        BytesEqualResult::DifferendAt(i) => Some(
            "left and right differed at "@ + decimal(i as nat) + ":\n"@ + bytes_line(left, i as int)
                + "\n"@ + marker_line(i as int, left.len() as int) + "\n"@ + bytes_line(right, i as int)
                + "\n"@ + message,
        ),
    }
}

/// A comparison reports something exactly when the two byte sequences differ.
pub proof fn lemma_report_exactly_on_difference(left: Seq<u8>, right: Seq<u8>, message: Seq<char>)
    ensures
        (report_text(left, right, message) is None) == (left == right),
{
    crate::testing::lemma_bytes_eq_agrees(left, right);
}

fn hex_digit_str(d: u8) -> (s: &'static str)
    requires
        d < 16,
    ensures
        s@ == seq![hex_digit(d as nat)],
{
    match d {
        0 => {
            proof { reveal_strlit("0"); }
            "0"
        },
        1 => {
            proof { reveal_strlit("1"); }
            "1"
        },
        2 => {
            proof { reveal_strlit("2"); }
            "2"
        },
        3 => {
            proof { reveal_strlit("3"); }
            "3"
        },
        4 => {
            proof { reveal_strlit("4"); }
            "4"
        },
        5 => {
            proof { reveal_strlit("5"); }
            "5"
        },
        6 => {
            proof { reveal_strlit("6"); }
            "6"
        },
        7 => {
            proof { reveal_strlit("7"); }
            "7"
        },
        8 => {
            proof { reveal_strlit("8"); }
            "8"
        },
        9 => {
            proof { reveal_strlit("9"); }
            "9"
        },
        10 => {
            proof { reveal_strlit("A"); }
            "A"
        },
        11 => {
            proof { reveal_strlit("B"); }
            "B"
        },
        12 => {
            proof { reveal_strlit("C"); }
            "C"
        },
        13 => {
            proof { reveal_strlit("D"); }
            "D"
        },
        14 => {
            proof { reveal_strlit("E"); }
            "E"
        },
        _ => {
            proof { reveal_strlit("F"); }
            "F"
        },
    }
}

fn push_byte_row(out: &mut String, s: &[u8], from: usize, to: usize)
    requires
        from <= to <= s@.len(),
    ensures
        final(out)@ == old(out)@ + byte_row(s@, from as int, to as int),
{
    let ghost start = out@;
    let mut j: usize = from;
    while j < to
        invariant
            from <= j <= to <= s@.len(),
            out@ == start + byte_row(s@, from as int, j as int),
        decreases to - j,
    {
        let b = s[j];
        let ghost before = out@;
        proof { reveal_strlit(", 0x"); }
        out.append(", 0x");
        out.append(hex_digit_str(b / 16));
        out.append(hex_digit_str(b % 16));
        assert(out@ =~= before + byte_entry(b));
        j = j + 1;
        assert(byte_row(s@, from as int, j as int) == byte_row(s@, from as int, j - 1) + byte_entry(
            s@[j - 1],
        ));
        assert(out@ =~= start + byte_row(s@, from as int, j as int));
    }
}

fn push_marker_row(out: &mut String, at: usize, from: usize, to: usize)
    requires
        from <= to,
    ensures
        final(out)@ == old(out)@ + marker_row(at as int, from as int, to as int),
{
    let ghost start = out@;
    let mut j: usize = from;
    while j < to
        invariant
            from <= j <= to,
            out@ == start + marker_row(at as int, from as int, j as int),
        decreases to - j,
    {
        let ghost before = out@;
        if j == at {
            proof { reveal_strlit("  xxxx"); }
            out.append("  xxxx");
        } else {
            proof { reveal_strlit("      "); }
            out.append("      ");
        }
        j = j + 1;
        assert(out@ =~= start + marker_row(at as int, from as int, j as int));
    }
}

fn push_bytes_line(out: &mut String, s: &[u8], i: usize)
    requires
        i < s@.len(),
    ensures
        final(out)@ == old(out)@ + bytes_line(s@, i as int),
{
    let ghost start = out@;
    let len = s.len();
    let lo: usize = if i >= 5 { i - 5 } else { 0 };
    let hi: usize = if len - i >= 6 { i + 6 } else { len };
    proof {
        reveal_strlit("[");
        reveal_strlit("...");
        reveal_strlit(", ...");
        reveal_strlit("]");
    }
    out.append("[");
    if lo != 0 {
        out.append("...");
    }
    let ghost head = out@;
    push_byte_row(out, s, lo, hi);
    if hi != len {
        out.append(", ...");
    }
    out.append("]");
    assert(out@ =~= start + bytes_line(s@, i as int));
}

fn push_marker_line(out: &mut String, i: usize, len: usize)
    requires
        i < len,
    ensures
        final(out)@ == old(out)@ + marker_line(i as int, len as int),
{
    let ghost start = out@;
    let lo: usize = if i >= 5 { i - 5 } else { 0 };
    let hi: usize = if len - i >= 6 { i + 6 } else { len };
    proof {
        reveal_strlit(" ");
        reveal_strlit("   ");
        reveal_strlit("     ");
    }
    out.append(" ");
    if lo != 0 {
        out.append("   ");
    }
    push_marker_row(out, i, lo, hi);
    if hi != len {
        out.append("     ");
    }
    out.append(" ");
    assert(out@ =~= start + marker_line(i as int, len as int));
}

/// What a failed comparison of `left` with `right` reports, ending in
/// `message`; nothing when the two are equal.
pub fn bytes_eq_report(left: &[u8], right: &[u8], message: &str) -> (res: Option<String>)
    ensures
        match report_text(left@, right@, message@) {
            None => res is None,
            Some(text) => res matches Some(s) && s@ == text,
        },
{
    match bytes_eq_detailed(left, right) {
        BytesEqualResult::Equal => None,
        BytesEqualResult::DifferentLengths => {
            let mut out = String::new();
            proof {
                reveal_strlit("left and right have different lengths: ");
                reveal_strlit(" != ");
                reveal_strlit(" ");
            }
            out.append("left and right have different lengths: ");
            push_decimal(&mut out, left.len() as u64);
            out.append(" != ");
            push_decimal(&mut out, right.len() as u64);
            out.append(" ");
            out.append(message);
            Some(out)
        },
        BytesEqualResult::DifferendAt(i) => {
            let mut out = String::new();
            proof {
                reveal_strlit("left and right differed at ");
                reveal_strlit(":\n");
                reveal_strlit("\n");
            }
            out.append("left and right differed at ");
            push_decimal(&mut out, i as u64);
            out.append(":\n");
            push_bytes_line(&mut out, left, i);
            out.append("\n");
            push_marker_line(&mut out, i, left.len());
            out.append("\n");
            push_bytes_line(&mut out, right, i);
            out.append("\n");
            out.append(message);
            Some(out)
        },
    }
}

} // verus!
