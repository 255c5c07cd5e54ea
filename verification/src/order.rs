//! The order of parameters in a canonical query: by name, byte by byte.

use vstd::prelude::*;
use vstd::string::*;
use vstd::utf8::*;

verus! {

/// A parameter as the contracts see it: its name and its value.
pub type Pair = (Seq<char>, Seq<char>);

/// The parameters that a vector of owned pairs stands for.
pub open spec fn pairs_view(v: Seq<(String, String)>) -> Seq<Pair> {
    v.map_values(|p: (String, String)| (p.0@, p.1@))
}

/// `a` comes at or before `b` in lexicographic order of byte values: the
/// first byte in which they differ decides, and a prefix comes first.
pub open spec fn lex_le(a: Seq<u8>, b: Seq<u8>) -> bool
    decreases a.len(),
{
    if a.len() == 0 {
        true
    } else if b.len() == 0 {
        false
    } else if a[0] != b[0] {
        a[0] < b[0]
    } else {
        lex_le(a.skip(1), b.skip(1))
    }
}

/// The bytes by which a parameter is ordered: the UTF-8 bytes of its name.
pub open spec fn name_bytes(p: Pair) -> Seq<u8> {
    encode_utf8(p.0)
}

/// `p` may stand before `q`.
pub open spec fn name_le(p: Pair, q: Pair) -> bool {
    lex_le(name_bytes(p), name_bytes(q))
}

/// Every parameter's name comes at or before the names of those behind it.
pub open spec fn ordered_by_name(s: Seq<Pair>) -> bool {
    forall|i: int, j: int| 0 <= i < j < s.len() ==> name_le(#[trigger] s[i], #[trigger] s[j])
}

/// Where a new parameter goes into a sequence: behind the last one whose name
/// is not greater than its own.
pub open spec fn insertion_point(s: Seq<Pair>, x: Pair) -> int
    decreases s.len(),
{
    if s.len() == 0 {
        0
    } else if name_le(s.last(), x) {
        s.len() as int
    } else {
        insertion_point(s.drop_last(), x)
    }
}

/// The parameters in order of their names; those with equal names keep the
/// order in which they were given.
pub open spec fn sorted_by_name(s: Seq<Pair>) -> Seq<Pair>
    decreases s.len(),
{
    if s.len() == 0 {
        Seq::empty()
    } else {
        let before = sorted_by_name(s.drop_last());
        before.insert(insertion_point(before, s.last()), s.last())
    }
}

/// Of two byte strings one comes at or before the other.
pub proof fn lemma_lex_le_total(a: Seq<u8>, b: Seq<u8>)
    ensures
        lex_le(a, b) || lex_le(b, a),
    decreases a.len(),
{
    if a.len() > 0 && b.len() > 0 && a[0] == b[0] {
        lemma_lex_le_total(a.skip(1), b.skip(1));
    }
}

/// The byte order is transitive.
pub proof fn lemma_lex_le_transitive(a: Seq<u8>, b: Seq<u8>, c: Seq<u8>)
    requires
        lex_le(a, b),
        lex_le(b, c),
    ensures
        lex_le(a, c),
    decreases a.len(),
{
    if a.len() > 0 && b.len() > 0 && c.len() > 0 && a[0] == b[0] && b[0] == c[0] {
        lemma_lex_le_transitive(a.skip(1), b.skip(1), c.skip(1));
    }
}

proof fn lemma_insertion_point_bounds(s: Seq<Pair>, x: Pair)
    ensures
        0 <= insertion_point(s, x) <= s.len(),
        insertion_point(s, x) > 0 ==> name_le(s[insertion_point(s, x) - 1], x),
        forall|j: int| insertion_point(s, x) <= j < s.len() ==> !name_le(#[trigger] s[j], x),
    decreases s.len(),
{
    if s.len() > 0 && !name_le(s.last(), x) {
        lemma_insertion_point_bounds(s.drop_last(), x);
        let p = insertion_point(s, x);
        assert forall|j: int| p <= j < s.len() implies !name_le(#[trigger] s[j], x) by {
            if j < s.len() - 1 {
                assert(s[j] == s.drop_last()[j]);
            }
        }
        if p > 0 {
            assert(s[p - 1] == s.drop_last()[p - 1]);
        }
    }
}

proof fn lemma_insertion_point_unique(s: Seq<Pair>, x: Pair, q: int)
    requires
        0 <= q <= s.len(),
        q > 0 ==> name_le(s[q - 1], x),
        forall|j: int| q <= j < s.len() ==> !name_le(#[trigger] s[j], x),
    ensures
        q == insertion_point(s, x),
    decreases s.len(),
{
    if s.len() > 0 {
        if name_le(s.last(), x) {
            if q < s.len() {
                assert(!name_le(s[s.len() - 1], x));
            }
        } else {
            let t = s.drop_last();
            assert(q < s.len());
            if q > 0 {
                assert(t[q - 1] == s[q - 1]);
            }
            assert forall|j: int| q <= j < t.len() implies !name_le(#[trigger] t[j], x) by {
                assert(t[j] == s[j]);
            }
            lemma_insertion_point_unique(t, x, q);
        }
    }
}

proof fn lemma_insert_keeps_order(s: Seq<Pair>, x: Pair)
    requires
        ordered_by_name(s),
    ensures
        ordered_by_name(s.insert(insertion_point(s, x), x)),
{
    let p = insertion_point(s, x);
    lemma_insertion_point_bounds(s, x);
    let r = s.insert(p, x);
    assert forall|i: int, j: int| 0 <= i < j < r.len() implies name_le(
        #[trigger] r[i],
        #[trigger] r[j],
    ) by {
        if j < p {
            assert(r[i] == s[i] && r[j] == s[j]);
        } else if j == p {
            assert(r[i] == s[i] && r[j] == x);
            if i < p - 1 {
                assert(name_le(s[i], s[p - 1]));
                lemma_lex_le_transitive(name_bytes(s[i]), name_bytes(s[p - 1]), name_bytes(x));
            }
        } else if i < p {
            assert(r[i] == s[i] && r[j] == s[j - 1]);
        } else if i == p {
            assert(r[i] == x && r[j] == s[j - 1]);
            assert(!name_le(s[j - 1], x));
            lemma_lex_le_total(name_bytes(x), name_bytes(s[j - 1]));
        } else {
            assert(r[i] == s[i - 1] && r[j] == s[j - 1]);
        }
    }
}

/// Sorting puts the names in byte order, loses no parameter and adds none.
pub proof fn lemma_sorted_by_name(s: Seq<Pair>)
    ensures
        ordered_by_name(sorted_by_name(s)),
        sorted_by_name(s).to_multiset() == s.to_multiset(),
        sorted_by_name(s).len() == s.len(),
    decreases s.len(),
{
    broadcast use vstd::seq_lib::group_to_multiset_ensures;

    if s.len() > 0 {
        let before = sorted_by_name(s.drop_last());
        let x = s.last();
        let p = insertion_point(before, x);
        let r = before.insert(p, x);
        lemma_sorted_by_name(s.drop_last());
        lemma_insertion_point_bounds(before, x);
        lemma_insert_keeps_order(before, x);
        assert(r.remove(p) =~= before);
        assert(r[p] == x);
        assert(r.to_multiset().remove(x) =~= s.drop_last().to_multiset());
        assert(r.to_multiset().count(x) > 0);
        assert(s.drop_last().push(x) =~= s);
        assert(r.to_multiset() =~= s.drop_last().to_multiset().insert(x));
        assert(r.to_multiset() =~= s.to_multiset());
    } else {
        assert(s =~= Seq::<Pair>::empty());
    }
}

/// No two parameters have the same name.
pub open spec fn distinct_names(s: Seq<Pair>) -> bool {
    forall|i: int, j: int|
        0 <= i < s.len() && 0 <= j < s.len() && i != j ==> (#[trigger] s[i]).0 != (#[trigger] s[j]).0
}

proof fn lemma_lex_le_antisymmetric(a: Seq<u8>, b: Seq<u8>)
    requires
        lex_le(a, b),
        lex_le(b, a),
    ensures
        a == b,
    decreases a.len(),
{
    if a.len() == 0 {
        assert(a =~= b);
    } else {
        lemma_lex_le_antisymmetric(a.skip(1), b.skip(1));
        assert(a =~= seq![a[0]] + a.skip(1));
        assert(b =~= seq![b[0]] + b.skip(1));
    }
}

proof fn lemma_same_name(p: Pair, q: Pair)
    requires
        name_le(p, q),
        name_le(q, p),
    ensures
        p.0 == q.0,
{
    broadcast use encode_utf8_decode_utf8;

    lemma_lex_le_antisymmetric(name_bytes(p), name_bytes(q));
    assert(decode_utf8(encode_utf8(p.0)) == decode_utf8(encode_utf8(q.0)));
}

proof fn lemma_distinct_names_carry_over(a: Seq<Pair>, x: Seq<Pair>)
    requires
        distinct_names(a),
        a.to_multiset() == x.to_multiset(),
    ensures
        distinct_names(x),
{
    a.to_multiset_ensures();
    x.to_multiset_ensures();
    assert(a.no_duplicates());
    a.lemma_multiset_has_no_duplicates();
    x.lemma_multiset_has_no_duplicates_conv();
    assert forall|i: int, j: int| 0 <= i < x.len() && 0 <= j < x.len() && i != j implies (
    #[trigger] x[i]).0 != (#[trigger] x[j]).0 by {
        assert(x.contains(x[i]));
        assert(x.contains(x[j]));
        assert(x.to_multiset().count(x[i]) > 0);
        assert(x.to_multiset().count(x[j]) > 0);
        assert(a.contains(x[i]));
        assert(a.contains(x[j]));
        let p = choose|p: int| 0 <= p < a.len() && a[p] == x[i];
        let q = choose|q: int| 0 <= q < a.len() && a[q] == x[j];
        assert(x[i] != x[j]);
        assert(p != q);
        assert(a[p].0 != a[q].0);
    }
}

proof fn lemma_ordered_is_unique(x: Seq<Pair>, y: Seq<Pair>)
    requires
        ordered_by_name(x),
        ordered_by_name(y),
        distinct_names(x),
        distinct_names(y),
        x.to_multiset() == y.to_multiset(),
    ensures
        x == y,
    decreases x.len(),
{
    x.to_multiset_ensures();
    y.to_multiset_ensures();
    assert(x.len() == y.len());
    if x.len() == 0 {
        assert(x =~= y);
    } else {
        assert(y.contains(y[0]));
        assert(y.to_multiset().count(y[0]) > 0);
        assert(x.contains(y[0]));
        assert(x.contains(x[0]));
        assert(x.to_multiset().count(x[0]) > 0);
        assert(y.contains(x[0]));
        let k = choose|k: int| 0 <= k < x.len() && x[k] == y[0];
        let m = choose|m: int| 0 <= m < y.len() && y[m] == x[0];
        if k > 0 {
            assert(name_le(x[0], x[k]));
            if m > 0 {
                assert(name_le(y[0], y[m]));
                lemma_same_name(x[0], x[k]);
            }
            assert(x[0].0 == x[k].0);
            assert(false);
        }
        assert(x[0] == y[0]);
        let xs = x.skip(1);
        let ys = y.skip(1);
        assert(xs =~= x.remove(0));
        assert(ys =~= y.remove(0));
        assert(xs.to_multiset() =~= ys.to_multiset());
        assert forall|i: int, j: int| 0 <= i < j < xs.len() implies name_le(
            #[trigger] xs[i],
            #[trigger] xs[j],
        ) by {
            assert(xs[i] == x[i + 1] && xs[j] == x[j + 1]);
        }
        assert forall|i: int, j: int| 0 <= i < j < ys.len() implies name_le(
            #[trigger] ys[i],
            #[trigger] ys[j],
        ) by {
            assert(ys[i] == y[i + 1] && ys[j] == y[j + 1]);
        }
        assert forall|i: int, j: int| 0 <= i < xs.len() && 0 <= j < xs.len() && i != j implies (
        #[trigger] xs[i]).0 != (#[trigger] xs[j]).0 by {
            assert(xs[i] == x[i + 1] && xs[j] == x[j + 1]);
        }
        assert forall|i: int, j: int| 0 <= i < ys.len() && 0 <= j < ys.len() && i != j implies (
        #[trigger] ys[i]).0 != (#[trigger] ys[j]).0 by {
            assert(ys[i] == y[i + 1] && ys[j] == y[j + 1]);
        }
        lemma_ordered_is_unique(xs, ys);
        assert(x =~= seq![x[0]] + xs);
        assert(y =~= seq![y[0]] + ys);
    }
}

/// Where every name occurs once, the order in which the parameters were
/// given does not matter: two lists of the same parameters sort to the same
/// sequence.
pub proof fn lemma_given_order_is_irrelevant(a: Seq<Pair>, b: Seq<Pair>)
    requires
        distinct_names(a),
        a.to_multiset() == b.to_multiset(),
    ensures
        sorted_by_name(a) == sorted_by_name(b),
{
    lemma_sorted_by_name(a);
    lemma_sorted_by_name(b);
    lemma_distinct_names_carry_over(a, sorted_by_name(a));
    lemma_distinct_names_carry_over(a, sorted_by_name(b));
    lemma_ordered_is_unique(sorted_by_name(a), sorted_by_name(b));
}

/// The test that picks the parameters of one name.
pub open spec fn has_name(name: Seq<char>) -> spec_fn(Pair) -> bool {
    |p: Pair| p.0 == name
}

/// The parameters of one name, in the order in which they stand.
pub open spec fn with_name(s: Seq<Pair>, name: Seq<char>) -> Seq<Pair> {
    s.filter(has_name(name))
}

/// Sorting keeps the parameters of each name, all of them and in the order
/// in which they were given.
#[verifier::spinoff_prover]
#[verifier::rlimit(40)]
pub proof fn lemma_sort_is_stable(s: Seq<Pair>, name: Seq<char>)
    ensures
        with_name(sorted_by_name(s), name) == with_name(s, name),
    decreases s.len(),
{
    if s.len() > 0 {
        let pred = has_name(name);
        let init = s.drop_last();
        let before = sorted_by_name(init);
        let x = s.last();
        let p = insertion_point(before, x);
        lemma_sort_is_stable(init, name);
        lemma_insertion_point_bounds(before, x);
        let left = before.take(p);
        let right = before.skip(p);
        let one = seq![x];
        assert(before.insert(p, x) =~= left + one + right);
        assert(before =~= left + right);
        assert(s =~= init + one);
        Seq::filter_distributes_over_add(left, right, pred);
        Seq::filter_distributes_over_add(left, one, pred);
        Seq::filter_distributes_over_add(left + one, right, pred);
        Seq::filter_distributes_over_add(init, one, pred);
        if x.0 == name {
            assert forall|i: int| 0 <= i < right.len() implies !pred(#[trigger] right[i]) by {
                assert(right[i] == before[p + i]);
                assert(!name_le(before[p + i], x));
                lemma_lex_le_total(name_bytes(x), name_bytes(x));
            }
            assert(right.all(|q: Pair| !pred(q)));
            right.lemma_all_neg_filter_empty(pred);
            assert(left.filter(pred) + one.filter(pred) + right.filter(pred) =~= left.filter(pred)
                + right.filter(pred) + one.filter(pred));
        } else {
            assert(one.all(|q: Pair| !pred(q)));
            one.lemma_all_neg_filter_empty(pred);
            assert(left.filter(pred) + one.filter(pred) + right.filter(pred) =~= left.filter(pred)
                + right.filter(pred));
            assert(init.filter(pred) + one.filter(pred) =~= init.filter(pred));
        }
    }
}

/// Decides the byte order of two byte strings.
pub fn bytes_le(a: &[u8], b: &[u8]) -> (r: bool)
    ensures
        r == lex_le(a@, b@),
{
    let mut i: usize = 0;
    assert(a@.skip(0) =~= a@ && b@.skip(0) =~= b@);
    loop
        invariant
            i <= a.len(),
            i <= b.len(),
            lex_le(a@, b@) == lex_le(a@.skip(i as int), b@.skip(i as int)),
        decreases a.len() - i,
    {
        if i == a.len() {
            return true;
        }
        if i == b.len() {
            return false;
        }
        assert(a@.skip(i as int)[0] == a@[i as int]);
        assert(b@.skip(i as int)[0] == b@[i as int]);
        if a[i] != b[i] {
            return a[i] < b[i];
        }
        assert(a@.skip(i as int).skip(1) =~= a@.skip(i + 1));
        assert(b@.skip(i as int).skip(1) =~= b@.skip(i + 1));
        i += 1;
    }
}

/// Sorts parameters by name in byte order, keeping those of equal name in the
/// order given.
pub fn sort_by_name(params: &Vec<(String, String)>) -> (r: Vec<(String, String)>)
    ensures
        pairs_view(r@) == sorted_by_name(pairs_view(params@)),
        ordered_by_name(pairs_view(r@)),
        pairs_view(r@).to_multiset() == pairs_view(params@).to_multiset(),
{
    let mut out: Vec<(String, String)> = Vec::new();
    let mut i: usize = 0;
    assert(pairs_view(params@).take(0) =~= Seq::<Pair>::empty());
    assert(pairs_view(out@) =~= Seq::<Pair>::empty());
    while i < params.len()
        invariant
            i <= params.len(),
            pairs_view(out@) == sorted_by_name(pairs_view(params@).take(i as int)),
        decreases params.len() - i,
    {
        let name = params[i].0.clone();
        let value = params[i].1.clone();
        let ghost x: Pair = (name@, value@);
        let ghost before = pairs_view(out@);
        let mut p: usize = out.len();
        while p > 0 && !bytes_le(out[p - 1].0.as_str().as_bytes(), name.as_str().as_bytes())
            invariant
                p <= out.len(),
                x == (name@, value@),
                before == pairs_view(out@),
                forall|j: int| p <= j < before.len() ==> !name_le(#[trigger] before[j], x),
            decreases p,
        {
            p -= 1;
        }
        proof {
            lemma_insertion_point_unique(before, x, p as int);
            assert(pairs_view(out@.insert(p as int, (name, value))) =~= before.insert(p as int, x));
            let upto = pairs_view(params@).take(i + 1);
            assert(upto.drop_last() =~= pairs_view(params@).take(i as int));
            assert(upto.last() == x);
        }
        out.insert(p, (name, value));
        i += 1;
    }
    proof {
        assert(pairs_view(params@).take(params@.len() as int) =~= pairs_view(params@));
        lemma_sorted_by_name(pairs_view(params@));
    }
    out
}

} // verus!
