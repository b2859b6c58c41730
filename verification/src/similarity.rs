//! How alike two texts are: the number of bit positions, out of 64, on which
//! their locality-sensitive hashes agree.

use vstd::prelude::*;

verus! {

/// The score of two texts whose hashes are the same.
pub const MAX_SCORE: u32 = 64;

/// The 64-bit simhash of `text`, taken over its words.
pub uninterp spec fn simhash_value(text: Seq<char>) -> u64;

/// Bit `i` of `x` is one.
pub open spec fn bit_is_set(x: u64, i: nat) -> bool {
    (x >> (i as u64)) & 1 == 1
}

/// How many of the lowest `n` bits of `x` are one.
pub open spec fn ones_below(x: u64, n: nat) -> nat
    decreases n,
{
    if n == 0 {
        0
    } else {
        ones_below(x, (n - 1) as nat) + if bit_is_set(x, (n - 1) as nat) {
            1nat
        } else {
            0nat
        }
    }
}

/// The number of bit positions on which `x` and `y` differ.
pub open spec fn hamming(x: u64, y: u64) -> nat {
    ones_below(x ^ y, 64)
}

/// The score of two hashes: the number of bit positions on which they agree.
pub open spec fn hash_score(x: u64, y: u64) -> int {
    64 - hamming(x, y)
}

/// The score of two texts.
pub open spec fn similarity_score(a: Seq<char>, b: Seq<char>) -> int {
    hash_score(simhash_value(a), simhash_value(b))
}

/// Calls `simhash::simhash`. Trusted: the hash returned is a function of the
/// text alone, which `simhash_value` names.
#[verifier::external_body]
pub(crate) fn simhash_of(text: &str) -> (hash: u64)
    ensures
        hash == simhash_value(text@),
{
    simhash::simhash(text)
}

/// Calls `simhash::hamming_distance`. Trusted: the distance returned is the
/// number of one bits in `x ^ y`.
#[verifier::external_body]
pub(crate) fn hamming_distance(x: u64, y: u64) -> (distance: u32)
    ensures
        distance == hamming(x, y),
{
    simhash::hamming_distance(x, y)
}

/// No more than `n` of the lowest `n` bits are one.
pub proof fn ones_below_bound(x: u64, n: nat)
    ensures
        ones_below(x, n) <= n,
    decreases n,
{
    if n > 0 {
        ones_below_bound(x, (n - 1) as nat);
    }
}

/// Zero has no one bits.
proof fn ones_below_zero(n: nat)
    requires
        n <= 64,
    ensures
        ones_below(0, n) == 0,
    decreases n,
{
    if n > 0 {
        ones_below_zero((n - 1) as nat);
        let i = (n - 1) as u64;
        assert((0u64 >> i) & 1 == 0) by (bit_vector);
    }
}

/// A score lies between 0 and `MAX_SCORE`.
pub proof fn score_bounds(a: Seq<char>, b: Seq<char>)
    ensures
        0 <= similarity_score(a, b) <= MAX_SCORE,
{
    ones_below_bound(simhash_value(a) ^ simhash_value(b), 64);
}

/// A text compared with itself has the highest score.
pub proof fn score_reflexive(a: Seq<char>)
    ensures
        similarity_score(a, a) == MAX_SCORE,
{
    let x = simhash_value(a);
    assert(x ^ x == 0) by (bit_vector);
    ones_below_zero(64);
}

/// The score does not depend on the order of the two texts.
pub proof fn score_symmetric(a: Seq<char>, b: Seq<char>)
    ensures
        similarity_score(a, b) == similarity_score(b, a),
{
    let x = simhash_value(a);
    let y = simhash_value(b);
    assert(x ^ y == y ^ x) by (bit_vector);
}

/// The score of two hashes.
pub fn score_of_hashes(x: u64, y: u64) -> (score: u32)
    ensures
        score == hash_score(x, y),
        score <= MAX_SCORE,
{
    proof {
        ones_below_bound(x ^ y, 64);
    }
    64 - hamming_distance(x, y)
}

/// The score of two texts: `MAX_SCORE` where their hashes are the same, one
/// less for each bit on which the hashes differ.
pub fn similarity(a: &str, b: &str) -> (score: u32)
    ensures
        score == similarity_score(a@, b@),
        score <= MAX_SCORE,
{
    score_of_hashes(simhash_of(a), simhash_of(b))
}

} // verus!
