//! Checks on the outcome of seeking, reading and writing a file: a transfer
//! that moved fewer bytes than asked for is an error.
use vstd::prelude::*;

use crate::decimal::decimal;
use crate::decimal::push_decimal;
use crate::ris_error::new_err;
use crate::ris_error::unroll;
use crate::ris_error::RisError;
use crate::ris_error::RisErrorView;
use crate::ris_error::RisResult;
use crate::ris_error::SourceError;

verus! {

/// The message of the error for a short read.
pub open spec fn short_read_text(expected: usize, actual: usize) -> Seq<char> {
    "expected to read "@ + decimal(expected as nat) + " bytes but actually read "@ + decimal(
        actual as nat,
    )
}

/// The message of the error for a short write.
pub open spec fn short_write_text(expected: usize, actual: usize) -> Seq<char> {
    "expected to write "@ + decimal(expected as nat) + " bytes but actually wrote "@ + decimal(
        actual as nat,
    )
}

/// `lead`, then `expected`, then `mid`, then `actual`, the numbers in decimal.
pub fn count_message(lead: &str, expected: usize, mid: &str, actual: usize) -> (res: String)
    ensures
        res@ == lead@ + decimal(expected as nat) + mid@ + decimal(actual as nat),
{
    let mut out = String::new();
    out.append(lead);
    push_decimal(&mut out, expected as u64);
    out.append(mid);
    push_decimal(&mut out, actual as u64);
    out
}

/// A text of its own holding `s`.
pub fn owned(s: &str) -> (res: String)
    ensures
        res@ == s@,
{
    let mut out = String::new();
    out.append(s);
    out
}

/// The outcome of seeking: the new position, or the seek's error as the
/// source of an error "failed to seek" raised at `file:line`.
pub fn seek(outcome: Result<u64, SourceError>, file: String, line: u32) -> (res: RisResult<u64>)
    ensures
        match outcome {
            Ok(pos) => res == Ok::<u64, RisError>(pos),
            Err(e) => res matches Err(r) && r@ == (RisErrorView {
                source: Some(e@),
                message: "failed to seek"@,
                file: file@,
                line,
            }),
        },
{
    unroll(outcome, owned("failed to seek"), file, line)
}

/// The outcome of reading into a buffer of `buf_len` bytes: the number of
/// bytes read when it fills the buffer, and an error otherwise.
pub fn read(outcome: Result<usize, SourceError>, buf_len: usize, file: String, line: u32) -> (res:
    RisResult<usize>)
    ensures
        match outcome {
            Ok(n) => if n == buf_len {
                res == Ok::<usize, RisError>(n)
            } else {
                res matches Err(r) && r@ == (RisErrorView {
                    source: None,
                    message: short_read_text(buf_len, n),
                    file: file@,
                    line,
                })
            },
            Err(e) => res matches Err(r) && r@ == (RisErrorView {
                source: Some(e@),
                message: "failed to read"@,
                file: file@,
                line,
            }),
        },
{
    match outcome {
        Err(e) => unroll(Err(e), owned("failed to read"), file, line),
        Ok(read_bytes) => {
            if read_bytes != buf_len {
                let message = count_message(
                    "expected to read ",
                    buf_len,
                    " bytes but actually read ",
                    read_bytes,
                );
                Err(new_err(message, file, line))
            } else {
                Ok(read_bytes)
            }
        },
    }
}

/// The outcome of writing a buffer of `buf_len` bytes: the number of bytes
/// written when all were written, and an error otherwise.
pub fn write(outcome: Result<usize, SourceError>, buf_len: usize, file: String, line: u32) -> (res:
    RisResult<usize>)
    ensures
        match outcome {
            Ok(n) => if n == buf_len {
                res == Ok::<usize, RisError>(n)
            } else {
                res matches Err(r) && r@ == (RisErrorView {
                    source: None,
                    message: short_write_text(buf_len, n),
                    file: file@,
                    line,
                })
            },
            Err(e) => res matches Err(r) && r@ == (RisErrorView {
                source: Some(e@),
                message: "failed to write"@,
                file: file@,
                line,
            }),
        },
{
    match outcome {
        Err(e) => unroll(Err(e), owned("failed to write"), file, line),
        Ok(written_bytes) => {
            if written_bytes != buf_len {
                let message = count_message(
                    "expected to write ",
                    buf_len,
                    " bytes but actually wrote ",
                    written_bytes,
                );
                Err(new_err(message, file, line))
            } else {
                Ok(written_bytes)
            }
        },
    }
}

/// Whether two byte slices hold the same bytes.
pub fn bytes_equal(left: &[u8], right: &[u8]) -> (res: bool)
    ensures
        res == (left@ == right@),
{
    if left.len() != right.len() {
        return false;
    }
    let mut i: usize = 0;
    while i < left.len()
        invariant
            left@.len() == right@.len(),
            0 <= i <= left@.len(),
            forall|j: int| 0 <= j < i ==> left@[j] == right@[j],
        decreases left@.len() - i,
    {
        if left[i] != right[i] {
            return false;
        }
        i = i + 1;
    }
    assert(left@ =~= right@);
    true
}

} // verus!
