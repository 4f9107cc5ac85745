//! Token selection.
//!
//! The runner picks the most likely token: among the first `n_vocab`
//! candidates, the one whose logit is greatest, the lowest index among
//! equals.  Logits are compared through integer keys that order them as the
//! logits are ordered (`0.0` and `-0.0` share a key).

use vstd::prelude::*;

verus! {

/// Whether `r` is the lowest index among the first `n` keys that holds the
/// greatest key.
pub open spec fn is_first_max(keys: Seq<i32>, n: int, r: int) -> bool {
    &&& 0 <= r < n
    &&& forall|j: int| 0 <= j < n ==> keys[j] <= keys[r]
    &&& forall|j: int| 0 <= j < r ==> keys[j] < keys[r]
}

/// The token with the greatest key among the first `n_vocab`, the lowest
/// index among equals.
pub fn select_token(keys: &[i32], n_vocab: usize) -> (r: usize)
    requires
        1 <= n_vocab <= keys@.len(),
    ensures
        is_first_max(keys@, n_vocab as int, r as int),
{
    let mut best: usize = 0;
    let mut i: usize = 1;
    while i < n_vocab
        invariant
            1 <= i <= n_vocab,
            n_vocab <= keys@.len(),
            is_first_max(keys@, i as int, best as int),
        decreases n_vocab - i,
    {
        if keys[i] > keys[best] {
            best = i;
        }
        i = i + 1;
    }
    best
}

/// The first greatest key is unique: two indices that both are it coincide.
pub proof fn lemma_first_max_unique(keys: Seq<i32>, n: int, a: int, b: int)
    requires
        is_first_max(keys, n, a),
        is_first_max(keys, n, b),
    ensures
        a == b,
{
    if a < b {
        assert(keys[a] < keys[b]);
        assert(keys[b] <= keys[a]);
    } else if b < a {
        assert(keys[b] < keys[a]);
        assert(keys[a] <= keys[b]);
    }
}

} // verus!
