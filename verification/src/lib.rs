//! Classifies the characters of a large symbolic alphabet into named,
//! possibly-overlapping categories by evaluating boolean predicate trees over
//! per-character attributes, and generates passwords of an exact target length
//! that satisfy per-category minimum-inclusion requirements, drawing all
//! randomness from a cryptographically secure source.
pub mod category;
pub mod code_point;
pub mod config;
pub mod props;
pub mod validation;

use rand::rngs::OsRng;
use rand::seq::SliceRandom;
use rand::{Rng, SeedableRng, TryRngCore};
use rand_chacha::ChaCha20Rng;
use vstd::prelude::*;

verus! {

#[verifier::external_type_specification]
#[verifier::external_body]
pub struct ExChaCha20Rng(ChaCha20Rng);

/// Relies on rand's `OsRng` and `ChaCha20Rng::from_seed`: seeds a ChaCha20
/// stream-cipher generator from the operating system's entropy source. When
/// entropy cannot be obtained the process terminates with a diagnostic, so
/// generation never proceeds with a predictable or zero seed.
#[verifier::external_body]
pub fn generate_rng() -> ChaCha20Rng {
    let mut seed = [0u8; 32];
    OsRng
        .try_fill_bytes(&mut seed)
        .expect("failed to obtain entropy from the operating system");
    ChaCha20Rng::from_seed(seed)
}

/// Relies on rand's `Rng::random_range`: a uniformly distributed index below
/// `n`, drawn from the given generator.
#[verifier::external_body]
pub(crate) fn random_index(rng: &mut ChaCha20Rng, n: usize) -> (r: usize)
    requires
        n > 0,
    ensures
        r < n,
{
    rng.random_range(0..n)
}

/// Relies on rand's `SliceRandom::shuffle`: permutes the slice in place, every
/// permutation equally likely; the elements themselves are preserved.
#[verifier::external_body]
pub(crate) fn shuffle_chars(rng: &mut ChaCha20Rng, chars: &mut Vec<char>)
    ensures
        final(chars)@.to_multiset() == old(chars)@.to_multiset(),
{
    chars.shuffle(rng)
}

/// Relies on `String::push`: appends the given character to the end of the
/// string.
#[verifier::external_body]
pub(crate) fn push_char(s: &mut String, c: char)
    ensures
        final(s)@ == old(s)@.push(c),
{
    s.push(c)
}

/// Collects a vector of characters into a string with the same characters in
/// the same order.
pub fn chars_to_string(chars: &Vec<char>) -> (r: String)
    ensures
        r@ == chars@,
{
    let mut r = String::new();
    let mut i: usize = 0;
    while i < chars.len()
        invariant
            0 <= i <= chars@.len(),
            r@ == chars@.subrange(0, i as int),
        decreases chars@.len() - i,
    {
        push_char(&mut r, chars[i]);
        proof {
            assert(chars@.subrange(0, i as int).push(chars@[i as int]) =~= chars@.subrange(
                0,
                i + 1 as int,
            ));
        }
        i += 1;
    }
    proof {
        assert(chars@.subrange(0, chars@.len() as int) =~= chars@);
    }
    r
}

/// Draws `num_chars` characters uniformly, with replacement, from `chars`.
/// Every drawn character is one of the characters of `chars`.
pub fn generate_random_chars_from_char_vec(
    chars: Vec<char>,
    num_chars: usize,
    rng: &mut ChaCha20Rng,
) -> (r: Vec<char>)
    requires
        chars@.len() > 0,
    ensures
        r@.len() == num_chars,
        forall|i: int| 0 <= i < r@.len() ==> chars@.contains(#[trigger] r@[i]),
{
    let mut r: Vec<char> = Vec::new();
    let mut j: usize = 0;
    while j < num_chars
        invariant
            0 <= j <= num_chars,
            r@.len() == j,
            chars@.len() > 0,
            forall|i: int| 0 <= i < r@.len() ==> chars@.contains(#[trigger] r@[i]),
        decreases num_chars - j,
    {
        let idx = random_index(rng, chars.len());
        r.push(chars[idx]);
        j += 1;
    }
    r
}

/// Counts, with multiplicity, how many characters of `s` belong to the
/// character set `pool`.
pub open spec fn count_in_pool(s: Seq<char>, pool: Seq<char>) -> nat {
    s.to_multiset().filter(|c: char| pool.contains(c)).len()
}

/// Counting characters from `pool` distributes over concatenation.
pub proof fn lemma_count_in_pool_append(a: Seq<char>, b: Seq<char>, pool: Seq<char>)
    ensures
        count_in_pool(a + b, pool) == count_in_pool(a, pool) + count_in_pool(b, pool),
{
    broadcast use vstd::seq_lib::lemma_multiset_commutative;
    broadcast use vstd::multiset::group_multiset_axioms;

    let f = |c: char| pool.contains(c);
    assert((a + b).to_multiset().filter(f) =~= a.to_multiset().filter(f).add(
        b.to_multiset().filter(f),
    ));
}

/// A sequence drawn entirely from `pool` counts with its full length.
pub proof fn lemma_count_in_pool_full(s: Seq<char>, pool: Seq<char>)
    requires
        forall|i: int| 0 <= i < s.len() ==> pool.contains(#[trigger] s[i]),
    ensures
        count_in_pool(s, pool) == s.len(),
{
    broadcast use vstd::seq_lib::group_to_multiset_ensures;
    broadcast use vstd::multiset::group_multiset_axioms;

    let f = |c: char| pool.contains(c);
    let m = s.to_multiset();
    assert forall|c: char| #[trigger] m.filter(f).count(c) == m.count(c) by {
        if m.count(c) > 0 {
            assert(s.contains(c));
            let i = choose|i: int| 0 <= i < s.len() && s[i] == c;
            assert(pool.contains(s[i]));
        } else {
            assert(m.filter(f).count(c) == if f(c) {
                m.count(c)
            } else {
                0
            });
        }
    }
    assert(m.filter(f) =~= m);
}

/// Sequences with equal multisets hold every character set's characters in
/// equal number.
pub proof fn lemma_count_in_pool_permutation(a: Seq<char>, b: Seq<char>, pool: Seq<char>)
    requires
        a.to_multiset() == b.to_multiset(),
    ensures
        count_in_pool(a, pool) == count_in_pool(b, pool),
{
}

} // verus!
