use vstd::prelude::*;
use rand::seq::SliceRandom;

verus! {

broadcast use vstd::seq_lib::group_to_multiset_ensures;

/// The positions `0, 1, ..., n - 1` in order.
pub open spec fn positions(n: nat) -> Seq<usize> {
    Seq::new(n, |i: int| i as usize)
}

/// `p` holds each of the positions `0 .. n` exactly once.
pub open spec fn is_permutation(p: Seq<usize>, n: nat) -> bool {
    p.to_multiset() =~= positions(n).to_multiset()
}

/// The list whose position `k` holds what position `p[k]` of `s` holds.
pub open spec fn permuted<T>(s: Seq<T>, p: Seq<usize>) -> Seq<T> {
    p.map_values(|j: usize| s[j as int])
}

/// A permutation of `0 .. n` has length `n`, and its elements are exactly
/// the positions below `n`.
pub proof fn lemma_permutation_elements(p: Seq<usize>, n: nat)
    requires
        is_permutation(p, n),
        n <= usize::MAX + 1,
    ensures
        p.len() == n,
        forall|k: int| 0 <= k < p.len() ==> (#[trigger] p[k]) < n,
        forall|j: usize| j < n ==> #[trigger] p.contains(j),
{
    vstd::seq_lib::to_multiset_len(p);
    vstd::seq_lib::to_multiset_len(positions(n));
    assert forall|k: int| 0 <= k < p.len() implies (#[trigger] p[k]) < n by {
        assert(p.contains(p[k]));
        vstd::seq_lib::to_multiset_contains(p, p[k]);
        vstd::seq_lib::to_multiset_contains(positions(n), p[k]);
        assert(positions(n).contains(p[k]));
        let i = choose|i: int| 0 <= i < positions(n).len() && positions(n)[i] == p[k];
        assert(i < n);
    }
    assert forall|j: usize| j < n implies #[trigger] p.contains(j) by {
        assert(positions(n)[j as int] == j);
        assert(positions(n).contains(j));
        vstd::seq_lib::to_multiset_contains(p, j);
        vstd::seq_lib::to_multiset_contains(positions(n), j);
    }
}

/// The positions `0 .. n` as a vector.
pub fn positions_vec(n: usize) -> (r: Vec<usize>)
    ensures
        r@ == positions(n as nat),
{
    let mut r: Vec<usize> = Vec::new();
    let mut i: usize = 0;
    while i < n
        invariant
            i <= n,
            r@ =~= positions(i as nat),
        decreases n - i,
    {
        r.push(i);
        i = i + 1;
    }
    r
}

/// The list whose position `k` holds a copy of what position `perm[k]` of
/// `songs` holds.
pub fn permute(songs: &Vec<String>, perm: &Vec<usize>) -> (r: Vec<String>)
    requires
        forall|k: int| 0 <= k < perm@.len() ==> (#[trigger] perm@[k]) < songs@.len(),
    ensures
        r@ == permuted(songs@, perm@),
{
    let mut r: Vec<String> = Vec::new();
    let mut k: usize = 0;
    while k < perm.len()
        invariant
            k <= perm@.len(),
            forall|k: int| 0 <= k < perm@.len() ==> (#[trigger] perm@[k]) < songs@.len(),
            r@ =~= permuted(songs@, perm@.take(k as int)),
        decreases perm@.len() - k,
    {
        let j = perm[k];
        r.push(songs[j].clone());
        assert(perm@.take(k + 1) =~= perm@.take(k as int).push(j));
        k = k + 1;
    }
    assert(perm@.take(k as int) =~= perm@);
    r
}

/// Relies on rand's `SliceRandom::shuffle` with the thread-local generator:
/// it only swaps elements, so the result is a rearrangement of the input.
#[verifier::external_body]
fn shuffle_in_place(v: &mut Vec<usize>)
    ensures
        final(v)@.to_multiset() == old(v)@.to_multiset(),
{
    v.shuffle(&mut rand::thread_rng());
}

/// A random permutation of the positions `0 .. n`.
pub fn random_permutation(n: usize) -> (r: Vec<usize>)
    ensures
        is_permutation(r@, n as nat),
{
    let mut r = positions_vec(n);
    shuffle_in_place(&mut r);
    r
}

} // verus!
