use vstd::prelude::*;
use vstd::seq_lib::group_to_multiset_ensures;
use crate::SurveyError;
use rand::seq::SliceRandom;

verus! {

/// Relies on rand::seq::SliceRandom::choose_multiple on rand::thread_rng:
/// a uniform selection of min(amount, len) elements of the slice, drawn
/// from pairwise distinct positions and yielded in random order.
#[verifier::external_body]
fn choose_distinct(items: &Vec<usize>, amount: usize) -> (r: Vec<usize>)
    ensures
        r@.len() == vstd::math::min(amount as int, items@.len() as int),
        r@.to_multiset().subset_of(items@.to_multiset()),
{
    let mut rng = rand::thread_rng();
    items.choose_multiple(&mut rng, amount).cloned().collect()
}

/// The numbered item domain `[1..=n]`, in ascending order.
pub open spec fn domain_seq(n: nat) -> Seq<usize> {
    Seq::new(n, |i: int| (i + 1) as usize)
}

/// Materialises the item domain `[1..=n]`.
fn build_domain(n: usize) -> (v: Vec<usize>)
    ensures
        v@ == domain_seq(n as nat),
{
    let mut v: Vec<usize> = Vec::new();
    let mut i: usize = 0;
    while i < n
        invariant
            i <= n,
            v@.len() == i,
            forall|j: int| 0 <= j < i ==> v@[j] == j + 1,
        decreases n - i,
    {
        v.push(i + 1);
        i = i + 1;
    }
    proof {
        assert(v@ =~= domain_seq(n as nat));
    }
    v
}

/// A sequence whose multiset is contained in that of a duplicate-free
/// sequence is itself duplicate-free and draws every value from it.
pub proof fn lemma_sub_multiset_of_distinct(s: Seq<usize>, d: Seq<usize>)
    requires
        d.no_duplicates(),
        s.to_multiset().subset_of(d.to_multiset()),
    ensures
        s.no_duplicates(),
        forall|i: int| 0 <= i < s.len() ==> d.contains(#[trigger] s[i]),
{
    broadcast use group_to_multiset_ensures;

    d.lemma_multiset_has_no_duplicates();
    assert forall|x: usize|
        s.to_multiset().contains(x) implies s.to_multiset().count(x) == 1 by {
        assert(s.to_multiset().count(x) <= d.to_multiset().count(x));
    }
    s.lemma_multiset_has_no_duplicates_conv();
    assert forall|i: int| 0 <= i < s.len() implies d.contains(#[trigger] s[i]) by {
        assert(s.contains(s[i]));
        assert(s.to_multiset().count(s[i]) > 0);
        assert(d.to_multiset().count(s[i]) > 0);
    }
}

/// Draws `k` items from the domain `[1..=n]` uniformly without replacement.
/// Succeeds exactly when `k <= n`; the result then holds `k` pairwise
/// distinct values, each between `1` and `n`.
pub fn sample(n: usize, k: usize) -> (r: Result<Vec<usize>, SurveyError>)
    ensures
        match r {
            Ok(v) => {
                &&& k <= n
                &&& v@.len() == k
                &&& v@.no_duplicates()
                &&& forall|i: int| 0 <= i < v@.len() ==> 1 <= #[trigger] v@[i] <= n
            },
            Err(e) => {
                &&& e == SurveyError::InvalidSampleSize
                &&& k > n
            },
        },
{
    if k > n {
        return Err(SurveyError::InvalidSampleSize);
    }
    let domain = build_domain(n);
    let picked = choose_distinct(&domain, k);
    proof {
        lemma_sub_multiset_of_distinct(picked@, domain@);
        assert forall|i: int| 0 <= i < picked@.len() implies 1 <= #[trigger] picked@[i] <= n by {
            assert(domain@.contains(picked@[i]));
            let j = choose|j: int| 0 <= j < domain@.len() && domain@[j] == picked@[i];
            assert(domain@[j] == j + 1);
        }
    }
    Ok(picked)
}

/// A duplicate-free selection of `n` values from `[1..=n]` is the whole
/// domain: every value of the domain appears in it exactly once.
pub proof fn lemma_full_sample_covers_domain(s: Seq<usize>, n: usize)
    requires
        s.no_duplicates(),
        s.len() == n,
        forall|i: int| 0 <= i < s.len() ==> 1 <= #[trigger] s[i] <= n,
    ensures
        forall|v: usize| 1 <= v <= n ==> s.to_multiset().count(v) == 1,
{
    broadcast use group_to_multiset_ensures;

    let f = |x: usize| x as int;
    let si = s.map_values(f);
    s.lemma_no_duplicates_injective(f);
    si.unique_seq_to_set();
    let dom = vstd::set_lib::set_int_range(1, n + 1);
    vstd::set_lib::lemma_int_range(1, n + 1);
    assert forall|x: int| si.to_set().contains(x) implies dom.contains(x) by {
        let j = choose|j: int| 0 <= j < si.len() && si[j] == x;
        assert(si[j] == f(s[j]));
    }
    s.lemma_multiset_has_no_duplicates();
    assert forall|v: usize| 1 <= v <= n implies s.to_multiset().count(v) == 1 by {
        if !si.to_set().contains(v as int) {
            si.to_set().lemma_subset_not_in_lt(dom, v as int);
        }
        let j = choose|j: int| 0 <= j < si.len() && si[j] == v as int;
        assert(si[j] == f(s[j]));
        assert(s[j] == v);
        assert(s.contains(v));
        assert(s.to_multiset().count(v) > 0);
    }
}

} // verus!
