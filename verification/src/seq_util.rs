use vstd::prelude::*;

verus! {

/// The subsequence of `s` whose elements satisfy `p`, in order.
pub open spec fn filtered<A>(s: Seq<A>, p: spec_fn(A) -> bool) -> Seq<A>
    decreases s.len(),
{
    if s.len() == 0 {
        Seq::empty()
    } else if p(s.last()) {
        filtered(s.drop_last(), p).push(s.last())
    } else {
        filtered(s.drop_last(), p)
    }
}

/// Extending a prefix of `s` by one element extends the filtered prefix by
/// that element exactly when it satisfies the predicate.
pub proof fn lemma_filtered_step<A>(s: Seq<A>, p: spec_fn(A) -> bool, i: int)
    requires
        0 <= i < s.len(),
    ensures
        filtered(s.take(i + 1), p) == if p(s[i]) {
            filtered(s.take(i), p).push(s[i])
        } else {
            filtered(s.take(i), p)
        },
{
    assert(s.take(i + 1).drop_last() =~= s.take(i));
    assert(s.take(i + 1).last() == s[i]);
}

/// Every element of the filtered sequence satisfies the predicate and occurs
/// in the input; every element of the input that satisfies the predicate
/// occurs in the filtered sequence.
pub proof fn lemma_filtered_membership<A>(s: Seq<A>, p: spec_fn(A) -> bool)
    ensures
        forall|j: int|
            0 <= j < filtered(s, p).len() ==> p(#[trigger] filtered(s, p)[j]) && s.contains(
                filtered(s, p)[j],
            ),
        forall|i: int| 0 <= i < s.len() && p(#[trigger] s[i]) ==> filtered(s, p).contains(s[i]),
    decreases s.len(),
{
    if s.len() > 0 {
        let d = s.drop_last();
        lemma_filtered_membership(d, p);
        assert forall|j: int| 0 <= j < filtered(s, p).len() implies p(
            #[trigger] filtered(s, p)[j],
        ) && s.contains(filtered(s, p)[j]) by {
            if j < filtered(d, p).len() {
                assert(filtered(s, p)[j] == filtered(d, p)[j]);
                let k = choose|k: int| 0 <= k < d.len() && d[k] == filtered(d, p)[j];
                assert(s[k] == d[k]);
            } else {
                assert(filtered(s, p)[j] == s.last());
                assert(s[s.len() - 1] == s.last());
            }
        }
        assert forall|i: int| 0 <= i < s.len() && p(#[trigger] s[i]) implies filtered(
            s,
            p,
        ).contains(s[i]) by {
            if i < s.len() - 1 {
                assert(d[i] == s[i]);
                assert(filtered(d, p).contains(s[i]));
                let k = choose|k: int| 0 <= k < filtered(d, p).len() && filtered(d, p)[k] == s[i];
                if p(s.last()) {
                    assert(filtered(s, p)[k] == filtered(d, p)[k]);
                } else {
                    assert(filtered(s, p) == filtered(d, p));
                }
            } else {
                assert(s[i] == s.last());
                if p(s.last()) {
                    assert(filtered(s, p).last() == s.last());
                }
            }
        }
    }
}

/// Filtering keeps a duplicate-free sequence duplicate-free.
pub proof fn lemma_filtered_no_dup<A>(s: Seq<A>, p: spec_fn(A) -> bool)
    requires
        forall|i: int, j: int| 0 <= i < j < s.len() ==> s[i] != s[j],
    ensures
        forall|i: int, j: int|
            0 <= i < j < filtered(s, p).len() ==> filtered(s, p)[i] != filtered(s, p)[j],
    decreases s.len(),
{
    if s.len() > 0 {
        let d = s.drop_last();
        assert(forall|i: int, j: int| 0 <= i < j < d.len() ==> d[i] != d[j]);
        lemma_filtered_no_dup(d, p);
        lemma_filtered_membership(d, p);
        assert forall|i: int, j: int|
            0 <= i < j < filtered(s, p).len() implies filtered(s, p)[i] != filtered(s, p)[j] by {
            if p(s.last()) && j == filtered(s, p).len() - 1 {
                assert(filtered(s, p)[j] == s.last());
                assert(filtered(s, p)[i] == filtered(d, p)[i]);
                let k = choose|k: int| 0 <= k < d.len() && d[k] == filtered(d, p)[i];
                assert(s[k] == d[k]);
                assert(s[s.len() - 1] == s.last());
            } else {
                assert(filtered(s, p)[i] == filtered(d, p)[i]);
                assert(filtered(s, p)[j] == filtered(d, p)[j]);
            }
        }
    }
}

/// One match makes the filtered sequence non-empty.
pub proof fn lemma_filtered_one_match<A>(s: Seq<A>, p: spec_fn(A) -> bool, a: int)
    requires
        0 <= a < s.len(),
        p(s[a]),
    ensures
        filtered(s, p).len() >= 1,
    decreases s.len(),
{
    if a == s.len() - 1 {
        assert(p(s.last()));
    } else {
        assert(s.drop_last()[a] == s[a]);
        lemma_filtered_one_match(s.drop_last(), p, a);
    }
}

/// Two matches at different positions make the filtered sequence hold at
/// least two elements.
pub proof fn lemma_filtered_two_matches<A>(s: Seq<A>, p: spec_fn(A) -> bool, a: int, b: int)
    requires
        0 <= a < b < s.len(),
        p(s[a]),
        p(s[b]),
    ensures
        filtered(s, p).len() >= 2,
    decreases s.len(),
{
    if b == s.len() - 1 {
        assert(p(s.last()));
        assert(s.drop_last()[a] == s[a]);
        lemma_filtered_one_match(s.drop_last(), p, a);
    } else {
        assert(s.drop_last()[a] == s[a]);
        assert(s.drop_last()[b] == s[b]);
        lemma_filtered_two_matches(s.drop_last(), p, a, b);
    }
}

/// Filtering a sequence whose elements carry pairwise distinct keys yields
/// elements whose keys are still pairwise distinct.
pub proof fn lemma_filtered_keys_unique<A, K>(
    s: Seq<A>,
    p: spec_fn(A) -> bool,
    key: spec_fn(A) -> K,
)
    requires
        forall|i: int, j: int| 0 <= i < j < s.len() ==> key(s[i]) != key(s[j]),
    ensures
        forall|i: int, j: int|
            0 <= i < j < filtered(s, p).len() ==> key(#[trigger] filtered(s, p)[i]) != key(
                #[trigger] filtered(s, p)[j],
            ),
{
    assert(forall|i: int, j: int| 0 <= i < j < s.len() ==> s[i] != s[j]);
    lemma_filtered_no_dup(s, p);
    lemma_filtered_membership(s, p);
    let f = filtered(s, p);
    assert forall|i: int, j: int| 0 <= i < j < f.len() implies key(#[trigger] f[i]) != key(
        #[trigger] f[j],
    ) by {
        let a = choose|a: int| 0 <= a < s.len() && s[a] == f[i];
        let b = choose|b: int| 0 <= b < s.len() && s[b] == f[j];
        if key(f[i]) == key(f[j]) {
            if a < b {
                assert(key(s[a]) != key(s[b]));
            } else if b < a {
                assert(key(s[b]) != key(s[a]));
            } else {
                assert(f[i] == f[j]);
            }
        }
    }
}

} // verus!
