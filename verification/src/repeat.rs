//! Running a piece of code a given number of times.
use vstd::prelude::*;

verus! {

/// Runs a fresh clone of `test` `repeats` times.
pub fn repeat<F: FnMut() + Clone>(repeats: u32, test: F)
    requires
        forall|g: F| cloned(test, g) ==> call_requires(g, ()),
    ensures
        repeats > 0 ==> exists|g: F| cloned(test, g) && call_ensures(g, (), ()),
{
    let mut i: u32 = 0;
    while i < repeats
        invariant
            i <= repeats,
            forall|g: F| cloned(test, g) ==> call_requires(g, ()),
            i > 0 ==> exists|g: F| cloned(test, g) && call_ensures(g, (), ()),
        decreases repeats - i,
    {
        let mut run = test.clone();
        proof {
            broadcast use vstd::function::group_function_axioms;
            assert(cloned(test, run));
            assert(call_requires(run, ()));
        }
        let ghost before = run;
        run();
        assert(call_ensures(before, (), ()));
        i = i + 1;
    }
}

} // verus!
