//! The order in which file names are listed: character by character by code
//! point, a proper prefix first. For UTF-8 text this is the byte order in
//! which `Path`s compare.
use vstd::prelude::*;
use vstd::relations::total_ordering;

verus! {

/// Whether `a` comes before `b` or equals it.
pub open spec fn chars_le(a: Seq<char>, b: Seq<char>) -> bool
    decreases a.len(),
{
    if a.len() == 0 {
        true
    } else if b.len() == 0 {
        false
    } else if a[0] != b[0] {
        (a[0] as int) < (b[0] as int)
    } else {
        chars_le(a.drop_first(), b.drop_first())
    }
}

/// The order that lists names from the last to the first.
pub open spec fn descending() -> spec_fn(Seq<char>, Seq<char>) -> bool {
    |a: Seq<char>, b: Seq<char>| chars_le(b, a)
}

pub proof fn lemma_chars_le_reflexive(a: Seq<char>)
    ensures
        chars_le(a, a),
    decreases a.len(),
{
    if a.len() > 0 {
        lemma_chars_le_reflexive(a.drop_first());
    }
}

pub proof fn lemma_chars_le_antisymmetric(a: Seq<char>, b: Seq<char>)
    requires
        chars_le(a, b),
        chars_le(b, a),
    ensures
        a == b,
    decreases a.len(),
{
    if a.len() == 0 || b.len() == 0 {
        assert(a =~= b);
    } else {
        assert(a[0] == b[0]);
        lemma_chars_le_antisymmetric(a.drop_first(), b.drop_first());
        assert(a =~= seq![a[0]] + a.drop_first());
        assert(b =~= seq![b[0]] + b.drop_first());
    }
}

pub proof fn lemma_chars_le_transitive(a: Seq<char>, b: Seq<char>, c: Seq<char>)
    requires
        chars_le(a, b),
        chars_le(b, c),
    ensures
        chars_le(a, c),
    decreases a.len(),
{
    if a.len() > 0 && b.len() > 0 && c.len() > 0 {
        if a[0] == b[0] && b[0] == c[0] {
            lemma_chars_le_transitive(a.drop_first(), b.drop_first(), c.drop_first());
        }
    }
}

pub proof fn lemma_chars_le_total(a: Seq<char>, b: Seq<char>)
    ensures
        chars_le(a, b) || chars_le(b, a),
    decreases a.len(),
{
    if a.len() > 0 && b.len() > 0 && a[0] == b[0] {
        lemma_chars_le_total(a.drop_first(), b.drop_first());
    }
}

/// Listing names from the last to the first is a total order.
pub proof fn lemma_descending_total()
    ensures
        total_ordering(descending()),
{
    assert forall|x: Seq<char>| #[trigger] descending()(x, x) by {
        lemma_chars_le_reflexive(x);
    }
    assert forall|x: Seq<char>, y: Seq<char>|
        #[trigger] descending()(x, y) && #[trigger] descending()(y, x) implies x == y by {
        lemma_chars_le_antisymmetric(x, y);
    }
    assert forall|x: Seq<char>, y: Seq<char>, z: Seq<char>|
        #[trigger] descending()(x, y) && #[trigger] descending()(y, z) implies descending()(
        x,
        z,
    ) by {
        lemma_chars_le_transitive(z, y, x);
    }
    assert forall|x: Seq<char>, y: Seq<char>|
        #[trigger] descending()(x, y) || #[trigger] descending()(y, x) by {
        lemma_chars_le_total(x, y);
    }
}

/// Whether `a` comes before `b` or equals it.
pub fn name_le(a: &str, b: &str) -> (res: bool)
    ensures
        res == chars_le(a@, b@),
{
    let a_len = a.unicode_len();
    let b_len = b.unicode_len();
    let mut i: usize = 0;
    assert(a@.skip(0) =~= a@);
    assert(b@.skip(0) =~= b@);
    while i < a_len && i < b_len
        invariant
            a_len == a@.len(),
            b_len == b@.len(),
            i <= a_len,
            i <= b_len,
            chars_le(a@, b@) == chars_le(a@.skip(i as int), b@.skip(i as int)),
        decreases a_len - i,
    {
        let x = a.get_char(i);
        let y = b.get_char(i);
        assert(a@.skip(i as int)[0] == x);
        assert(b@.skip(i as int)[0] == y);
        if x != y {
            return (x as u32) < (y as u32);
        }
        assert(a@.skip(i as int).drop_first() =~= a@.skip(i + 1));
        assert(b@.skip(i as int).drop_first() =~= b@.skip(i + 1));
        i = i + 1;
    }
    i == a_len
}

/// The views of a sequence of texts.
pub open spec fn views(s: Seq<String>) -> Seq<Seq<char>> {
    s.map_values(|x: String| x@)
}

proof fn lemma_insert_to_multiset<A>(s: Seq<A>, p: int, v: A)
    requires
        0 <= p <= s.len(),
    ensures
        s.insert(p, v).to_multiset() =~= s.to_multiset().insert(v),
{
    broadcast use vstd::seq_lib::group_to_multiset_ensures;
    broadcast use vstd::multiset::group_multiset_axioms;

    let t = s.insert(p, v);
    assert(t.remove(p) =~= s);
    assert(t[p] == v);
    assert(t.to_multiset().count(v) > 0);
    assert forall|x: A| #[trigger] t.to_multiset().count(x) == s.to_multiset().insert(v).count(x) by {
        if x == v {
        } else {
        }
    }
}

/// The names in `names`, from the last to the first.
pub fn sort_descending(names: Vec<String>) -> (res: Vec<String>)
    ensures
        views(res@) == views(names@).sort_by(descending()),
{
    broadcast use vstd::seq_lib::group_to_multiset_ensures;
    broadcast use vstd::multiset::group_multiset_axioms;

    proof {
        lemma_descending_total();
    }
    let ghost original = views(names@);
    let mut rest = names;
    let mut sorted: Vec<String> = Vec::new();
    assert(views(sorted@) =~= Seq::<Seq<char>>::empty());
    assert(views(rest@) == original);
    while rest.len() > 0
        invariant
            total_ordering(descending()),
            original == views(names@),
            views(sorted@).to_multiset().add(views(rest@).to_multiset()) =~= original.to_multiset(),
            forall|i: int, j: int|
                0 <= i < j < sorted@.len() ==> chars_le(
                    #[trigger] views(sorted@)[j],
                    #[trigger] views(sorted@)[i],
                ),
        decreases rest@.len(),
    {
        let ghost before_rest = views(rest@);
        let ghost old_sorted = views(sorted@);
        let x = rest.pop().unwrap();
        assert(before_rest =~= views(rest@).push(x@));
        let mut p: usize = 0;
        while p < sorted.len() && !name_le(sorted[p].as_str(), x.as_str())
            invariant
                p <= sorted@.len(),
                views(sorted@) == old_sorted,
                forall|k: int| 0 <= k < p ==> !chars_le(#[trigger] old_sorted[k], x@),
            decreases sorted@.len() - p,
        {
            p = p + 1;
        }
        sorted.insert(p, x);
        proof {
            let new_sorted = views(sorted@);
            assert(new_sorted =~= old_sorted.insert(p as int, x@));
            lemma_insert_to_multiset(old_sorted, p as int, x@);
            views(rest@).to_multiset_ensures();
            assert(before_rest.to_multiset() =~= views(rest@).to_multiset().insert(x@));
            assert(views(sorted@).to_multiset().add(views(rest@).to_multiset()) =~= original.to_multiset());
            assert forall|i: int, j: int| 0 <= i < j < new_sorted.len() implies chars_le(
                #[trigger] new_sorted[j],
                #[trigger] new_sorted[i],
            ) by {
                if j < p {
                    assert(new_sorted[i] == old_sorted[i] && new_sorted[j] == old_sorted[j]);
                } else if j == p {
                    assert(!chars_le(old_sorted[i], x@));
                    lemma_chars_le_total(old_sorted[i], x@);
                } else if i < p {
                    assert(new_sorted[i] == old_sorted[i] && new_sorted[j] == old_sorted[j - 1]);
                } else if i == p {
                    assert(chars_le(old_sorted[p as int], x@));
                    assert(chars_le(old_sorted[j - 1], old_sorted[p as int]) || j - 1 == p);
                    if j - 1 != p {
                        lemma_chars_le_transitive(old_sorted[j - 1], old_sorted[p as int], x@);
                    }
                } else {
                    assert(new_sorted[i] == old_sorted[i - 1] && new_sorted[j] == old_sorted[j - 1]);
                }
            }
        }
    }
    proof {
        assert(views(rest@) =~= Seq::<Seq<char>>::empty());
        assert(views(sorted@).to_multiset() =~= original.to_multiset());
        original.lemma_sort_by_ensures(descending());
        assert(vstd::relations::sorted_by(views(sorted@), descending()));
        vstd::seq_lib::lemma_sorted_unique(
            views(sorted@),
            original.sort_by(descending()),
            descending(),
        );
    }
    sorted
}

} // verus!
