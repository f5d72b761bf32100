//! Copying a slice into a vector.
use vstd::prelude::*;

verus! {

/// Makes `vec` hold exactly the elements of `slice`.
pub fn fast_copy<T: Copy>(vec: &mut Vec<T>, slice: &[T])
    ensures
        final(vec)@ == slice@,
{
    vec.clear();
    let mut i: usize = 0;
    while i < slice.len()
        invariant
            i <= slice@.len(),
            vec@ == slice@.subrange(0, i as int),
        decreases slice@.len() - i,
    {
        vec.push(slice[i]);
        i = i + 1;
        assert(vec@ =~= slice@.subrange(0, i as int));
    }
    assert(slice@.subrange(0, i as int) =~= slice@);
}

} // verus!
