//! Mathematical model of the Internet checksum: 16-bit big-endian words,
//! their sums, and the end-around-carry reduction to a 16-bit value.
use vstd::arithmetic::div_mod::*;
use vstd::prelude::*;

verus! {

/// The byte at `i`, or zero past either end of `s`.
pub open spec fn byte_or_zero(s: Seq<u8>, i: int) -> int {
    if 0 <= i < s.len() {
        s[i] as int
    } else {
        0
    }
}

/// The 16-bit big-endian word that starts at byte `i`; a missing low byte reads as zero.
pub open spec fn word_at(s: Seq<u8>, i: int) -> int {
    byte_or_zero(s, i) * 256 + byte_or_zero(s, i + 1)
}

/// The `k`-th 16-bit word of `s`.
pub open spec fn nth_word(s: Seq<u8>, k: int) -> int {
    word_at(s, 2 * k)
}

/// Sum of the first `n` 16-bit words of `s`.
pub open spec fn pair_sum(s: Seq<u8>, n: nat) -> int
    decreases n,
{
    if n == 0 {
        0
    } else {
        pair_sum(s, (n - 1) as nat) + nth_word(s, n - 1)
    }
}

/// Number of 16-bit words that cover `s`, the last one padded when the length is odd.
pub open spec fn word_count(s: Seq<u8>) -> nat {
    ((s.len() + 1) / 2) as nat
}

/// Sum (without any carry folding) of all 16-bit words of `s`.
pub open spec fn word_sum(s: Seq<u8>) -> int {
    pair_sum(s, word_count(s))
}

/// End-around-carry reduction of a non-negative sum to 16 bits: zero stays
/// zero, every other value maps to the member of `1..=0xFFFF` congruent to it
/// modulo `0xFFFF`.
pub open spec fn ones_fold(x: int) -> int {
    if x == 0 {
        0
    } else {
        (x - 1) % 65535 + 1
    }
}

/// A sum kept in a 32-bit accumulator that wraps on overflow.
pub open spec fn u32_wrap(x: int) -> int {
    x % 0x1_0000_0000
}

/// `s` with the two bytes at `k` and `k + 1` read as zero.
pub open spec fn masked(s: Seq<u8>, k: int) -> Seq<u8> {
    Seq::new(s.len(), |j: int| if j == k || j == k + 1 { 0u8 } else { s[j] })
}

pub proof fn lemma_word_bounds(s: Seq<u8>, i: int)
    ensures
        0 <= word_at(s, i) <= 65535,
{
}

pub proof fn lemma_pair_sum_bounds(s: Seq<u8>, n: nat)
    ensures
        0 <= pair_sum(s, n) <= 65535 * n,
    decreases n,
{
    if n > 0 {
        lemma_pair_sum_bounds(s, (n - 1) as nat);
    }
}

pub proof fn lemma_word_sum_bounds(s: Seq<u8>)
    ensures
        0 <= word_sum(s) <= 65535 * word_count(s),
{
    lemma_pair_sum_bounds(s, word_count(s));
}

/// Folding keeps the value modulo `0xFFFF`, keeps zero and non-zero apart,
/// and lands in `0..=0xFFFF`.
pub proof fn lemma_ones_fold_props(x: int)
    requires
        x >= 0,
    ensures
        ones_fold(x) % 65535 == x % 65535,
        (ones_fold(x) == 0) == (x == 0),
        0 <= ones_fold(x) <= 65535,
{
    if x > 0 {
        lemma_add_mod_noop(x - 1, 1, 65535);
        lemma_small_mod(((x - 1) % 65535 + 1) as nat, 65536);
    }
}

/// Two positive sums that agree modulo `0xFFFF` fold to the same value.
pub proof fn lemma_ones_fold_congruent(a: int, b: int)
    requires
        a > 0,
        b > 0,
        a % 65535 == b % 65535,
    ensures
        ones_fold(a) == ones_fold(b),
{
    lemma_sub_mod_noop(a, 1, 65535);
    lemma_sub_mod_noop(b, 1, 65535);
}

/// A positive multiple of `0xFFFF` folds to all ones.
pub proof fn lemma_ones_fold_multiple(x: int)
    requires
        x > 0,
        x % 65535 == 0,
    ensures
        ones_fold(x) == 65535,
{
    lemma_sub_mod_noop(x, 1, 65535);
}

/// One end-around-carry step keeps the value modulo `0xFFFF`.
pub proof fn lemma_carry_step(x: int)
    requires
        x >= 0,
    ensures
        (x % 65536 + x / 65536) % 65535 == x % 65535,
        x >= 65536 ==> x % 65536 + x / 65536 < x,
        x > 0 ==> x % 65536 + x / 65536 > 0,
{
    let q = x / 65536;
    let r = x % 65536;
    lemma_fundamental_div_mod(x, 65536);
    assert(x == 65535 * q + (q + r));
    lemma_mod_multiples_vanish(q, q + r, 65535);
}

/// Word sums of two sequences agree on the first `n` words when those words agree.
pub proof fn lemma_pair_sum_agree(a: Seq<u8>, b: Seq<u8>, n: nat)
    requires
        forall|k: int| 0 <= k < n ==> #[trigger] nth_word(a, k) == nth_word(b, k),
    ensures
        pair_sum(a, n) == pair_sum(b, n),
    decreases n,
{
    if n > 0 {
        lemma_pair_sum_agree(a, b, (n - 1) as nat);
    }
}

/// The word sum of an even-length prefix followed by anything is the sum of the two word sums.
pub proof fn lemma_word_sum_concat(a: Seq<u8>, b: Seq<u8>)
    requires
        a.len() % 2 == 0,
    ensures
        word_sum(a + b) == word_sum(a) + word_sum(b),
{
    let m = (a.len() / 2) as nat;
    assert forall|k: int| 0 <= k < m implies #[trigger] nth_word(a + b, k) == nth_word(a, k) by {}
    lemma_pair_sum_agree(a + b, a, m);
    lemma_pair_sum_concat_tail(a, b, m, word_count(b));
    assert(word_count(a + b) == m + word_count(b));
}

proof fn lemma_pair_sum_concat_tail(a: Seq<u8>, b: Seq<u8>, m: nat, n: nat)
    requires
        a.len() == 2 * m,
    ensures
        pair_sum(a + b, m + n) == pair_sum(a + b, m) + pair_sum(b, n),
    decreases n,
{
    if n > 0 {
        lemma_pair_sum_concat_tail(a, b, m, (n - 1) as nat);
        assert(nth_word(a + b, m + n - 1) == nth_word(b, n - 1));
        assert((m + n - 1) as nat == (m + (n - 1)) as nat);
    }
}

/// Changing only the aligned word at `k` changes the word sum by the difference of that word.
pub proof fn lemma_word_sum_replace_word(a: Seq<u8>, b: Seq<u8>, k: int)
    requires
        a.len() == b.len(),
        k % 2 == 0,
        0 <= k,
        k + 1 < a.len(),
        forall|j: int| 0 <= j < a.len() && j != k && j != k + 1 ==> a[j] == b[j],
    ensures
        word_sum(b) == word_sum(a) + word_at(b, k) - word_at(a, k),
{
    lemma_pair_sum_replace_word(a, b, k, word_count(a));
}

proof fn lemma_pair_sum_replace_word(a: Seq<u8>, b: Seq<u8>, k: int, n: nat)
    requires
        a.len() == b.len(),
        k % 2 == 0,
        0 <= k,
        k + 1 < a.len(),
        forall|j: int| 0 <= j < a.len() && j != k && j != k + 1 ==> a[j] == b[j],
    ensures
        pair_sum(b, n) == pair_sum(a, n) + (if 2 * n > k {
            word_at(b, k) - word_at(a, k)
        } else {
            0
        }),
    decreases n,
{
    if n > 0 {
        lemma_pair_sum_replace_word(a, b, k, (n - 1) as nat);
        if 2 * (n - 1) != k {
            assert(nth_word(a, n - 1) == nth_word(b, n - 1));
        }
    }
}

/// Masking the two bytes at `k` removes exactly the word at `k` from the sum.
pub proof fn lemma_word_sum_masked(s: Seq<u8>, k: int)
    requires
        k % 2 == 0,
        0 <= k,
        k + 1 < s.len(),
    ensures
        word_sum(masked(s, k)) == word_sum(s) - word_at(s, k),
        word_at(masked(s, k), k) == 0,
{
    lemma_word_sum_replace_word(s, masked(s, k), k);
}

} // verus!
