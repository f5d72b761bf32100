//! Helpers for the engine's tests: running a test repeatedly and comparing bytes.
use vstd::prelude::*;

verus! {

/// Whether a clone of `test` was run with the iteration index `i`.
pub open spec fn ran_clone_with<F: FnMut(usize) + Clone>(test: F, i: usize) -> bool {
    exists|g: F| cloned(test, g) && call_ensures(g, (i,), ())
}

/// Runs a fresh clone of `test` once for each iteration index `0..repeats`,
/// in order.
pub fn repeat<F: FnMut(usize) + Clone>(repeats: usize, test: F)
    requires
        forall|g: F, i: usize| cloned(test, g) && i < repeats ==> call_requires(g, (i,)),
    ensures
        forall|i: usize| i < repeats ==> #[trigger] ran_clone_with(test, i),
{
    let mut i: usize = 0;
    while i < repeats
        invariant
            i <= repeats,
            forall|g: F, j: usize| cloned(test, g) && j < repeats ==> call_requires(g, (j,)),
            forall|j: usize| j < i ==> #[trigger] ran_clone_with(test, j),
        decreases repeats - i,
    {
        let mut run = test.clone();
        let ghost before = run;
        proof {
            broadcast use vstd::function::group_function_axioms;
            assert(cloned(test, run));
            assert(call_requires(run, (i,)));
        }
        run(i);
        assert(call_ensures(before, (i,), ()));
        assert(ran_clone_with(test, i));
        i = i + 1;
    }
}

/// The outcome of comparing two byte sequences element by element.
#[derive(PartialEq, Eq, Structural, Debug)]
pub enum BytesEqualResult {
    Equal,
    DifferentLengths,
    DifferendAt(usize),
}

/// `i` is the first position at which `left` and `right` differ.
pub open spec fn first_difference(left: Seq<u8>, right: Seq<u8>, i: int) -> bool {
    &&& 0 <= i < left.len()
    &&& i < right.len()
    &&& left[i] != right[i]
    &&& forall|j: int| 0 <= j < i ==> left[j] == right[j]
}

/// What comparing `left` with `right` gives.
pub open spec fn spec_bytes_eq_detailed(left: Seq<u8>, right: Seq<u8>) -> BytesEqualResult {
    if left.len() != right.len() {
        BytesEqualResult::DifferentLengths
    } else if left == right {
        BytesEqualResult::Equal
    } else {
        BytesEqualResult::DifferendAt((choose|i: int| first_difference(left, right, i)) as usize)
    }
}

/// Two byte sequences of the same length that are not equal differ first at
/// exactly one position.
pub proof fn lemma_first_difference_unique(left: Seq<u8>, right: Seq<u8>, i: int, j: int)
    requires
        first_difference(left, right, i),
        first_difference(left, right, j),
    ensures
        i == j,
{
}

/// Comparing is symmetric: swapping the two sides gives the same outcome,
/// down to the position of the first difference.
pub proof fn lemma_bytes_eq_detailed_symmetric(left: Seq<u8>, right: Seq<u8>)
    ensures
        spec_bytes_eq_detailed(left, right) == spec_bytes_eq_detailed(right, left),
{
    if left.len() == right.len() && left != right {
        assert(exists|k: int| first_difference(left, right, k)) by {
            assert(!(left =~= right));
            let k = choose|k: int| 0 <= k < left.len() && left[k] != right[k];
            lemma_first_difference_exists(left, right, k);
        }
        let i = choose|i: int| first_difference(left, right, i);
        let j = choose|j: int| first_difference(right, left, j);
        assert(first_difference(right, left, i));
        lemma_first_difference_unique(right, left, i, j);
    }
}

/// The plain comparison and the detailed one agree: two byte sequences are
/// equal exactly when the detailed comparison says `Equal`.
pub proof fn lemma_bytes_eq_agrees(left: Seq<u8>, right: Seq<u8>)
    ensures
        (spec_bytes_eq_detailed(left, right) == BytesEqualResult::Equal) == (left == right),
{
}

/// When two sequences of the same length differ at `k`, they differ first
/// somewhere.
proof fn lemma_first_difference_exists(left: Seq<u8>, right: Seq<u8>, k: int)
    requires
        left.len() == right.len(),
        0 <= k < left.len(),
        left[k] != right[k],
    ensures
        exists|i: int| first_difference(left, right, i),
    decreases k,
{
    if forall|j: int| 0 <= j < k ==> left[j] == right[j] {
        assert(first_difference(left, right, k));
    } else {
        let j = choose|j: int| 0 <= j < k && left[j] != right[j];
        lemma_first_difference_exists(left, right, j);
    }
}

/// Whether two byte slices hold the same bytes.
pub fn bytes_eq(left: &[u8], right: &[u8]) -> (res: bool)
    ensures
        res == (left@ == right@),
{
    bytes_eq_detailed(left, right) == BytesEqualResult::Equal
}

/// Compares two byte slices: equal, of different lengths, or (with equal
/// lengths) different first at the given position.
pub fn bytes_eq_detailed(left: &[u8], right: &[u8]) -> (res: BytesEqualResult)
    ensures
        res == BytesEqualResult::DifferentLengths <==> left@.len() != right@.len(),
        res == BytesEqualResult::Equal <==> left@ == right@,
        res matches BytesEqualResult::DifferendAt(i) ==> left@.len() == right@.len()
            && first_difference(left@, right@, i as int),
        res == spec_bytes_eq_detailed(left@, right@),
{
    if left.len() != right.len() {
        return BytesEqualResult::DifferentLengths;
    }
    let mut i: usize = 0;
    while i < left.len()
        invariant
            left@.len() == right@.len(),
            0 <= i <= left@.len(),
            forall|j: int| 0 <= j < i ==> left@[j] == right@[j],
        decreases left@.len() - i,
    {
        if left[i] != right[i] {
            proof {
                assert(first_difference(left@, right@, i as int));
                assert(left@ != right@);
                let c = choose|c: int| first_difference(left@, right@, c);
                lemma_first_difference_unique(left@, right@, i as int, c);
            }
            return BytesEqualResult::DifferendAt(i);
        }
        i = i + 1;
    }
    assert(left@ =~= right@);
    BytesEqualResult::Equal
}

/// A copy of `value`, made by its `Clone` implementation.
pub fn duplicate<T: Clone>(value: &T) -> (res: T)
    ensures
        cloned(*value, res),
{
    value.clone()
}

/// Picks the value meant for a normal run; `_miri` is what a run under the
/// Miri interpreter would use.
pub fn miri_choose<T>(not_miri: T, _miri: T) -> (res: T)
    ensures
        res == not_miri,
{
    not_miri
}

} // verus!
