//! Turning the bytes of a compiled SPIR-V shader into the 32-bit words that
//! Vulkan takes as shader code.
use vstd::prelude::*;

use crate::file::owned;
use crate::ris_error::new_err;
use crate::ris_error::RisErrorView;
use crate::ris_error::RisResult;

verus! {

/// The 32-bit word made of the four bytes of `bytes` starting at `4 * i`,
/// the first being the lowest (the byte order of the x86-64 machines the
/// engine runs on).
pub open spec fn word_at(bytes: Seq<u8>, i: int) -> u32 {
    (bytes[4 * i] as int + bytes[4 * i + 1] as int * 0x100 + bytes[4 * i + 2] as int * 0x10000
        + bytes[4 * i + 3] as int * 0x1000000) as u32
}

/// The shader code in `bytes`, as 32-bit words. Its length must be a multiple
/// of four; otherwise the result is the error "shader code is not a multiple of
/// 4 bytes long" raised at `file:line`.
pub fn shader_code(bytes: &[u8], file: String, line: u32) -> (res: RisResult<Vec<u32>>)
    ensures
        match res {
            Ok(words) => bytes@.len() % 4 == 0 && words@.len() == bytes@.len() / 4 && forall|i: int|
                0 <= i < words@.len() ==> #[trigger] words@[i] == word_at(bytes@, i),
            Err(e) => bytes@.len() % 4 != 0 && e@ == (RisErrorView {
                source: None,
                message: "shader code is not a multiple of 4 bytes long"@,
                file: file@,
                line,
            }),
        },
{
    if bytes.len() % 4 != 0 {
        return Err(new_err(owned("shader code is not a multiple of 4 bytes long"), file, line));
    }
    let n = bytes.len();
    let count = n / 4;
    assert(n == 4 * count);
    let mut words: Vec<u32> = Vec::new();
    let mut i: usize = 0;
    while i < count
        invariant
            n == bytes@.len(),
            count == bytes@.len() / 4,
            n == 4 * count,
            bytes@.len() % 4 == 0,
            i <= count,
            words@.len() == i,
            forall|k: int| 0 <= k < i ==> #[trigger] words@[k] == word_at(bytes@, k),
        decreases count - i,
    {
        let b = 4 * i;
        let word: u32 = bytes[b] as u32 + bytes[b + 1] as u32 * 0x100 + bytes[b + 2] as u32 * 0x10000
            + bytes[b + 3] as u32 * 0x1000000;
        words.push(word);
        i = i + 1;
    }
    Ok(words)
}

} // verus!
