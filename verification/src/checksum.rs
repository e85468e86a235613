//! Internet-checksum calculation helpers.
use crate::ones_complement::{
    lemma_carry_step, lemma_ones_fold_congruent, lemma_word_bounds, lemma_ones_fold_multiple, lemma_word_sum_bounds,
    lemma_word_sum_concat, lemma_word_sum_masked, lemma_pair_sum_bounds, lemma_word_sum_replace_word, word_at, lemma_ones_fold_props, masked, nth_word, ones_fold,
    pair_sum, u32_wrap, word_count, word_sum,
};
use crate::wire::{be16_bytes, be32_bytes, write_u32_be};
use vstd::arithmetic::div_mod::{lemma_add_mod_noop, lemma_mod_multiples_vanish, lemma_small_mod};
use vstd::prelude::*;

verus! {

/// Folded one's-complement sum of `data` added to `seed` in a wrapping 32-bit accumulator.
pub open spec fn checksum16_seeded(seed: int, data: Seq<u8>) -> int {
    ones_fold(u32_wrap(seed + word_sum(data)))
}

/// Folded one's-complement sum of `data`, without the final complement.
pub open spec fn checksum16_spec(data: Seq<u8>) -> int {
    checksum16_seeded(0, data)
}

/// The IPv4 header checksum of a header whose checksum field reads as zero.
pub open spec fn ipv4_header_checksum_spec(hdr: Seq<u8>) -> int {
    65535 - ones_fold(word_sum(hdr))
}

/// Complement of a folded transport sum; a zero result is sent as all ones.
pub open spec fn finish_l4(folded: int) -> int {
    if folded == 65535 {
        65535
    } else {
        65535 - folded
    }
}

/// Folded contribution of two IPv4 addresses, each given in big-endian numeric form.
pub open spec fn addr_fold_v4(src: u32, dst: u32) -> int {
    ones_fold(ones_fold(word_sum(be32_bytes(src as int))) + word_sum(be32_bytes(dst as int)))
}

/// Folded contribution of two IPv6 addresses in network byte order.
pub open spec fn addr_fold_v6(src: Seq<u8>, dst: Seq<u8>) -> int {
    ones_fold(ones_fold(word_sum(src)) + word_sum(dst))
}

/// Unwrapped accumulator of a transport checksum over an IPv4 pseudo-header;
/// the segment length enters as a 16-bit value and the checksum field at
/// `field` reads as zero.
pub open spec fn l4_acc_v4(src: u32, dst: u32, proto: u8, segment: Seq<u8>, field: int) -> int {
    addr_fold_v4(src, dst) + proto + segment.len() % 65536 + word_sum(masked(segment, field))
}

/// Unwrapped accumulator of a transport checksum over an IPv6 pseudo-header;
/// the segment length enters as a 32-bit value split into two words.
pub open spec fn l4_acc_v6(
    src: Seq<u8>,
    dst: Seq<u8>,
    next_header: u8,
    segment: Seq<u8>,
    field: int,
) -> int {
    addr_fold_v6(src, dst) + (segment.len() as int % 0x1_0000_0000) / 65536 + segment.len() % 65536
        + next_header + word_sum(masked(segment, field))
}

/// Transport checksum over an IPv4 pseudo-header and `segment`.
pub open spec fn l4_checksum_v4(src: u32, dst: u32, proto: u8, segment: Seq<u8>, field: int) -> int {
    finish_l4(ones_fold(u32_wrap(l4_acc_v4(src, dst, proto, segment, field))))
}

/// Transport checksum over an IPv6 pseudo-header and `segment`.
pub open spec fn l4_checksum_v6(
    src: Seq<u8>,
    dst: Seq<u8>,
    next_header: u8,
    segment: Seq<u8>,
    field: int,
) -> int {
    finish_l4(ones_fold(u32_wrap(l4_acc_v6(src, dst, next_header, segment, field))))
}

proof fn lemma_masked_past_end(s: Seq<u8>)
    ensures
        masked(s, s.len() as int) == s,
{
    assert(masked(s, s.len() as int) =~= s);
}

proof fn lemma_u32_wrap_small(x: int)
    requires
        0 <= x < 0x1_0000_0000,
    ensures
        u32_wrap(x) == x,
{
    lemma_small_mod(x as nat, 0x1_0000_0000);
}

/// Fold a 32-bit accumulator into a 16-bit one's-complement sum.
fn fold_sum(sum: u32) -> (folded: u16)
    ensures
        folded == ones_fold(sum as int),
{
    let mut s = sum;
    while (s >> 16u32) != 0
        invariant
            s % 65535 == sum % 65535,
            (s == 0) == (sum == 0),
        decreases s,
    {
        assert(s >> 16u32 == s / 65536) by (bit_vector);
        assert(s & 0xffffu32 == s % 65536) by (bit_vector);
        proof {
            lemma_carry_step(s as int);
        }
        s = (s & 0xffff) + (s >> 16);
    }
    assert(s >> 16u32 == s / 65536) by (bit_vector);
    proof {
        lemma_ones_fold_props(sum as int);
        lemma_ones_fold_props(s as int);
        if sum != 0 {
            lemma_ones_fold_congruent(s as int, sum as int);
        }
    }
    s as u16
}

/// Adds the 16-bit words of `data` to `seed` in a wrapping 32-bit accumulator,
/// reading the two bytes at `field` as zero.
fn accumulate_words(data: &[u8], field: usize, seed: u32) -> (sum: u32)
    ensures
        sum == u32_wrap(seed + word_sum(masked(data@, field as int))),
{
    let ghost m = masked(data@, field as int);
    let mut sum = seed;
    let mut i: usize = 0;
    while i + 1 < data.len()
        invariant
            i % 2 == 0,
            i <= data.len(),
            m == masked(data@, field as int),
            sum == u32_wrap(seed + pair_sum(m, (i / 2) as nat)),
        decreases data.len() - i,
    {
        let hi: u8 = if i == field || (i >= 1 && i - 1 == field) { 0 } else { data[i] };
        let lo: u8 = if i + 1 == field || i == field { 0 } else { data[i + 1] };
        let word: u32 = (hi as u32) * 256 + (lo as u32);
        proof {
            assert(2 * (i / 2) == i);
            assert(m[i as int] == hi && m[i + 1] == lo);
            assert(word == nth_word(m, (i / 2) as int));
            lemma_add_mod_noop(seed + pair_sum(m, (i / 2) as nat), word as int, 0x1_0000_0000);
            assert(((i + 2) / 2) as nat == (i / 2 + 1) as nat);
        }
        sum = sum.wrapping_add(word);
        i = i + 2;
    }
    if i < data.len() {
        let last: u8 = if i == field || (i >= 1 && i - 1 == field) { 0 } else { data[i] };
        let word: u32 = (last as u32) * 256;
        proof {
            assert(2 * (i / 2) == i);
            assert(m[i as int] == last);
            assert(word == nth_word(m, (i / 2) as int));
            lemma_add_mod_noop(seed + pair_sum(m, (i / 2) as nat), word as int, 0x1_0000_0000);
            assert(word_count(m) == (i / 2 + 1) as nat);
        }
        sum = sum.wrapping_add(word);
    } else {
        assert(word_count(m) == (i / 2) as nat);
    }
    sum
}

fn checksum16_with_seed(data: &[u8], seed: u32) -> (folded: u16)
    ensures
        folded == checksum16_seeded(seed as int, data@),
{
    proof {
        lemma_masked_past_end(data@);
    }
    fold_sum(accumulate_words(data, data.len(), seed))
}

/// Returns the folded one's-complement sum over `data`.
///
/// This function does **not** apply the final bitwise complement. That makes
/// verification convenient: if a checksum field has been filled correctly,
/// recomputing over the full material yields `0xFFFF`.
pub fn checksum16(data: &[u8]) -> (folded: u16)
    ensures
        folded == checksum16_spec(data@),
{
    checksum16_with_seed(data, 0)
}

/// Compute the IPv4 header checksum for a 20-byte IPv4 header.
///
/// `hdr` must have `hdr[10..12]` set to zero before calling.
pub fn ipv4_header_checksum_20b(hdr: &[u8; 20]) -> (checksum: u16)
    ensures
        checksum == ipv4_header_checksum_spec(hdr@),
{
    proof {
        lemma_word_sum_bounds(hdr@);
        lemma_u32_wrap_small(word_sum(hdr@));
    }
    let folded = checksum16(hdr);
    assert(!folded == 0xffffu16 - folded) by (bit_vector);
    !folded
}

fn finish_checksum(folded: u16) -> (checksum: u16)
    ensures
        checksum == finish_l4(folded as int),
        checksum != 0,
{
    let complement = !folded;
    assert(!folded == 0xffffu16 - folded) by (bit_vector);
    if complement == 0 {
        0xffff
    } else {
        complement
    }
}

fn l4_checksum_ipv4(src_v4_be: u32, dst_v4_be: u32, proto: u8, segment: &[u8], field: usize) -> (checksum: u16)
    ensures
        checksum == l4_checksum_v4(src_v4_be, dst_v4_be, proto, segment@, field as int),
        checksum != 0,
{
    let src = write_u32_be(src_v4_be);
    let dst = write_u32_be(dst_v4_be);
    let segment_len = (segment.len() % 65536) as u16;

    proof {
        lemma_word_sum_bounds(src@);
        lemma_word_sum_bounds(dst@);
        lemma_u32_wrap_small(word_sum(src@));
    }
    let mut sum = checksum16_with_seed(&src, 0) as u32;
    proof {
        lemma_u32_wrap_small(sum + word_sum(dst@));
    }
    sum = checksum16_with_seed(&dst, sum) as u32;
    sum = sum.wrapping_add(proto as u32);
    sum = sum.wrapping_add(segment_len as u32);
    sum = accumulate_words(segment, field, sum);
    finish_checksum(fold_sum(sum))
}

/// The two 16-bit words of a segment length taken as a 32-bit value.
fn split_segment_len(len: usize) -> (words: (u32, u32))
    ensures
        words.0 == (len as int % 0x1_0000_0000) / 65536,
        words.1 == len as int % 65536,
{
    let len32 = (len as u64 % 0x1_0000_0000) as u32;
    assert((len32 >> 16u32) & 0xffffu32 == len32 / 65536) by (bit_vector);
    assert(len32 & 0xffffu32 == len32 % 65536) by (bit_vector);
    proof {
        vstd::arithmetic::div_mod::lemma_mod_mod(len as int, 65536, 65536);
    }
    ((len32 >> 16) & 0xffff, len32 & 0xffff)
}

fn l4_checksum_ipv6(
    src_v6: &[u8; 16],
    dst_v6: &[u8; 16],
    next_header: u8,
    segment: &[u8],
    field: usize,
) -> (checksum: u16)
    ensures
        checksum == l4_checksum_v6(src_v6@, dst_v6@, next_header, segment@, field as int),
        checksum != 0,
{
    let (len_hi, len_lo) = split_segment_len(segment.len());

    proof {
        lemma_word_sum_bounds(src_v6@);
        lemma_word_sum_bounds(dst_v6@);
        lemma_u32_wrap_small(word_sum(src_v6@));
    }
    let mut sum = checksum16_with_seed(src_v6, 0) as u32;
    proof {
        lemma_u32_wrap_small(sum + word_sum(dst_v6@));
    }
    sum = checksum16_with_seed(dst_v6, sum) as u32;
    sum = sum.wrapping_add(len_hi);
    sum = sum.wrapping_add(len_lo);
    sum = sum.wrapping_add(next_header as u32);
    sum = accumulate_words(segment, field, sum);
    finish_checksum(fold_sum(sum))
}

/// Compute TCP checksum over IPv4 pseudo-header + TCP segment.
///
/// `src_v4_be` and `dst_v4_be` are IPv4 addresses in network byte order.
/// The TCP checksum field bytes (`tcp[16]` and `tcp[17]`) are treated as zero
/// while accumulating (if present).
pub fn tcp_checksum_ipv4(src_v4_be: u32, dst_v4_be: u32, tcp: &[u8]) -> (checksum: u16)
    ensures
        checksum == l4_checksum_v4(src_v4_be, dst_v4_be, 6, tcp@, 16),
        checksum != 0,
{
    l4_checksum_ipv4(src_v4_be, dst_v4_be, 6, tcp, 16)
}

/// Compute TCP checksum over IPv6 pseudo-header + TCP segment.
///
/// `src_v6` and `dst_v6` are IPv6 addresses in network byte order.
/// The TCP checksum field bytes (`tcp[16]` and `tcp[17]`) are treated as zero
/// while accumulating (if present).
pub fn tcp_checksum_ipv6(src_v6: &[u8; 16], dst_v6: &[u8; 16], tcp: &[u8]) -> (checksum: u16)
    ensures
        checksum == l4_checksum_v6(src_v6@, dst_v6@, 6, tcp@, 16),
        checksum != 0,
{
    l4_checksum_ipv6(src_v6, dst_v6, 6, tcp, 16)
}

/// Compute UDP checksum over IPv4 pseudo-header + UDP datagram.
///
/// `src_v4_be` and `dst_v4_be` are IPv4 addresses in network byte order.
/// The UDP checksum field bytes (`udp[6]` and `udp[7]`) are treated as zero
/// while accumulating (if present).
pub fn udp_checksum_ipv4(src_v4_be: u32, dst_v4_be: u32, udp: &[u8]) -> (checksum: u16)
    ensures
        checksum == l4_checksum_v4(src_v4_be, dst_v4_be, 17, udp@, 6),
        checksum != 0,
{
    l4_checksum_ipv4(src_v4_be, dst_v4_be, 17, udp, 6)
}

/// Compute UDP checksum over IPv6 pseudo-header + UDP datagram.
///
/// `src_v6` and `dst_v6` are IPv6 addresses in network byte order.
/// The UDP checksum field bytes (`udp[6]` and `udp[7]`) are treated as zero
/// while accumulating (if present).
pub fn udp_checksum_ipv6(src_v6: &[u8; 16], dst_v6: &[u8; 16], udp: &[u8]) -> (checksum: u16)
    ensures
        checksum == l4_checksum_v6(src_v6@, dst_v6@, 17, udp@, 6),
        checksum != 0,
{
    l4_checksum_ipv6(src_v6, dst_v6, 17, udp, 6)
}

/// The 12-byte IPv4 pseudo-header: source, destination, a zero byte, the
/// protocol, and the 16-bit transport length.
pub open spec fn pseudo_header_v4(src: u32, dst: u32, l4_len: int, proto: u8) -> Seq<u8> {
    be32_bytes(src as int) + be32_bytes(dst as int) + seq![0u8, proto] + be16_bytes(l4_len)
}

/// The 40-byte IPv6 pseudo-header: source, destination, the 32-bit transport
/// length, three zero bytes and the next-header value.
pub open spec fn pseudo_header_v6(src: Seq<u8>, dst: Seq<u8>, l4_len: int, next_header: u8) -> Seq<u8> {
    src + dst + be32_bytes(l4_len) + seq![0u8, 0u8, 0u8, next_header]
}

/// `segment` with the 16-bit value `checksum` stored big-endian at `field`.
pub open spec fn with_checksum(segment: Seq<u8>, field: int, checksum: int) -> Seq<u8> {
    segment.update(field, (checksum / 256) as u8).update(field + 1, (checksum % 256) as u8)
}

proof fn lemma_word_sum_2(s: Seq<u8>)
    requires
        s.len() == 2,
    ensures
        word_sum(s) == word_at(s, 0),
{
    assert(word_count(s) == 1);
    assert(pair_sum(s, 1) == pair_sum(s, 0) + nth_word(s, 0));
}

proof fn lemma_word_sum_4(s: Seq<u8>)
    requires
        s.len() == 4,
    ensures
        word_sum(s) == word_at(s, 0) + word_at(s, 2),
{
    assert(word_count(s) == 2);
    assert(pair_sum(s, 1) == pair_sum(s, 0) + nth_word(s, 0));
    assert(pair_sum(s, 2) == pair_sum(s, 1) + nth_word(s, 1));
}

proof fn lemma_word_sum_be16(v: int)
    requires
        0 <= v < 65536,
    ensures
        word_sum(be16_bytes(v)) == v,
{
    lemma_word_sum_2(be16_bytes(v));
}

proof fn lemma_word_sum_be32(v: int)
    requires
        0 <= v < 0x1_0000_0000,
    ensures
        word_sum(be32_bytes(v)) == v / 65536 + v % 65536,
{
    lemma_word_sum_4(be32_bytes(v));
    let hi = v / 65536;
    let lo = v % 65536;
    assert(v / 16777216 == hi / 256) by {
        vstd::arithmetic::div_mod::lemma_div_denominator(v, 65536, 256);
    }
    assert((v / 65536) % 256 == hi % 256);
    assert((v / 256) % 256 == lo / 256) by {
        vstd::arithmetic::div_mod::lemma_fundamental_div_mod(v, 65536);
        vstd::arithmetic::div_mod::lemma_div_denominator(v, 256, 256);
        vstd::arithmetic::div_mod::lemma_mod_mod(v, 256, 256);
        vstd::arithmetic::div_mod::lemma_fundamental_div_mod(v / 256, 256);
    }
    assert(v % 256 == lo % 256) by {
        vstd::arithmetic::div_mod::lemma_mod_mod(v, 256, 256);
    }
}

/// Word sum of the IPv4 pseudo-header.
pub proof fn lemma_pseudo_header_v4_sum(src: u32, dst: u32, l4_len: int, proto: u8)
    requires
        0 <= l4_len < 65536,
    ensures
        word_sum(pseudo_header_v4(src, dst, l4_len, proto)) == word_sum(be32_bytes(src as int))
            + word_sum(be32_bytes(dst as int)) + proto + l4_len,
{
    let a = be32_bytes(src as int);
    let b = be32_bytes(dst as int);
    let c = seq![0u8, proto];
    let d = be16_bytes(l4_len);
    lemma_word_sum_concat(a, b);
    lemma_word_sum_concat(a + b, c);
    lemma_word_sum_concat(a + b + c, d);
    lemma_word_sum_2(c);
    lemma_word_sum_be16(l4_len);
}

/// Word sum of the IPv6 pseudo-header.
pub proof fn lemma_pseudo_header_v6_sum(src: Seq<u8>, dst: Seq<u8>, l4_len: int, next_header: u8)
    requires
        src.len() == 16,
        dst.len() == 16,
        0 <= l4_len < 0x1_0000_0000,
    ensures
        word_sum(pseudo_header_v6(src, dst, l4_len, next_header)) == word_sum(src) + word_sum(dst)
            + l4_len / 65536 + l4_len % 65536 + next_header,
{
    let c = be32_bytes(l4_len);
    let d = seq![0u8, 0u8, 0u8, next_header];
    lemma_word_sum_concat(src, dst);
    lemma_word_sum_concat(src + dst, c);
    lemma_word_sum_concat(src + dst + c, d);
    lemma_word_sum_4(d);
    lemma_word_sum_be32(l4_len);
}

/// Storing a finished checksum into a field that was summed as zero makes the
/// one's-complement sum of the whole material fold to all ones.
proof fn lemma_filled_field_folds_to_ones(
    segment: Seq<u8>,
    field: int,
    acc: int,
    pseudo_sum: int,
)
    requires
        field % 2 == 0,
        0 <= field,
        field + 1 < segment.len(),
        acc >= 0,
        pseudo_sum >= 0,
        acc % 65535 == pseudo_sum % 65535,
        acc + word_sum(masked(segment, field)) < 0x1_0000_0000,
    ensures
        ({
            let total = acc + word_sum(masked(segment, field));
            let c = finish_l4(ones_fold(u32_wrap(total)));
            ones_fold(pseudo_sum + word_sum(with_checksum(segment, field, c))) == 65535
        }),
{
    let m = masked(segment, field);
    let total = acc + word_sum(m);
    lemma_word_sum_bounds(m);
    lemma_u32_wrap_small(total);
    let f = ones_fold(total);
    lemma_ones_fold_props(total);
    let c = finish_l4(f);
    let filled = with_checksum(segment, field, c);
    lemma_word_sum_masked(segment, field);
    lemma_word_sum_replace_word(m, filled, field);
    assert(word_at(filled, field) == c);
    assert(word_sum(filled) == word_sum(m) + c);
    let x = pseudo_sum + word_sum(m) + c;
    assert(x % 65535 == 0) by {
        vstd::arithmetic::div_mod::lemma_add_mod_noop(pseudo_sum, word_sum(m), 65535);
        vstd::arithmetic::div_mod::lemma_add_mod_noop(acc, word_sum(m), 65535);
        vstd::arithmetic::div_mod::lemma_add_mod_noop(pseudo_sum + word_sum(m), c, 65535);
        vstd::arithmetic::div_mod::lemma_add_mod_noop(f, c, 65535);
    }
    lemma_ones_fold_multiple(x);
}

/// The folded address contribution agrees with the IPv4 pseudo-header sum modulo `0xFFFF`.
proof fn lemma_acc_v4_congruent(src: u32, dst: u32, proto: u8, len: int)
    requires
        0 <= len < 65536,
    ensures
        addr_fold_v4(src, dst) + proto + len >= 0,
        (addr_fold_v4(src, dst) + proto + len) % 65535 == word_sum(
            pseudo_header_v4(src, dst, len, proto),
        ) % 65535,
{
    let ws_src = word_sum(be32_bytes(src as int));
    let ws_dst = word_sum(be32_bytes(dst as int));
    lemma_pseudo_header_v4_sum(src, dst, len, proto);
    lemma_word_sum_bounds(be32_bytes(src as int));
    lemma_word_sum_bounds(be32_bytes(dst as int));
    lemma_ones_fold_props(ws_src);
    lemma_ones_fold_props(ones_fold(ws_src) + ws_dst);
    lemma_fold_sum_congruent(ones_fold(ws_src), ws_dst, ws_src);
    lemma_fold_sum_congruent(addr_fold_v4(src, dst), proto + len, ws_src + ws_dst);
}

/// `a + b` agrees with `c + b` modulo `0xFFFF` when `a` agrees with `c`.
proof fn lemma_fold_sum_congruent(a: int, b: int, c: int)
    requires
        a % 65535 == c % 65535,
    ensures
        (a + b) % 65535 == (c + b) % 65535,
{
    vstd::arithmetic::div_mod::lemma_add_mod_noop(a, b, 65535);
    vstd::arithmetic::div_mod::lemma_add_mod_noop(c, b, 65535);
}

/// A transport checksum over an IPv4 pseudo-header, once stored in its field,
/// makes the one's-complement sum over the pseudo-header and the segment come
/// out as all ones, as long as the 32-bit accumulator did not wrap.
pub proof fn lemma_l4_checksum_v4_verifies(src: u32, dst: u32, proto: u8, segment: Seq<u8>, field: int)
    requires
        field % 2 == 0,
        0 <= field,
        field + 1 < segment.len(),
        l4_acc_v4(src, dst, proto, segment, field) < 0x1_0000_0000,
    ensures
        ({
            let c = l4_checksum_v4(src, dst, proto, segment, field);
            let material = pseudo_header_v4(src, dst, segment.len() as int % 65536, proto)
                + with_checksum(segment, field, c);
            &&& ones_fold(word_sum(material)) == 65535
            &&& word_sum(material) < 0x1_0000_0000 ==> checksum16_spec(material) == 0xffff
        }),
{
    let c = l4_checksum_v4(src, dst, proto, segment, field);
    let len = segment.len() as int % 65536;
    let pseudo = pseudo_header_v4(src, dst, len, proto);
    let filled = with_checksum(segment, field, c);
    lemma_acc_v4_congruent(src, dst, proto, len);
    lemma_word_sum_bounds(pseudo);
    lemma_filled_field_folds_to_ones(segment, field, addr_fold_v4(src, dst) + proto + len, word_sum(pseudo));
    lemma_word_sum_concat(pseudo, filled);
    if word_sum(pseudo + filled) < 0x1_0000_0000 {
        lemma_word_sum_bounds(pseudo + filled);
        lemma_u32_wrap_small(word_sum(pseudo + filled));
    }
}

/// The folded address contribution agrees with the IPv6 pseudo-header sum modulo `0xFFFF`.
proof fn lemma_acc_v6_congruent(src: Seq<u8>, dst: Seq<u8>, next_header: u8, len: int)
    requires
        src.len() == 16,
        dst.len() == 16,
        0 <= len < 0x1_0000_0000,
    ensures
        addr_fold_v6(src, dst) + len / 65536 + len % 65536 + next_header >= 0,
        (addr_fold_v6(src, dst) + len / 65536 + len % 65536 + next_header) % 65535 == word_sum(
            pseudo_header_v6(src, dst, len, next_header),
        ) % 65535,
{
    let ws_src = word_sum(src);
    let ws_dst = word_sum(dst);
    lemma_pseudo_header_v6_sum(src, dst, len, next_header);
    lemma_word_sum_bounds(src);
    lemma_word_sum_bounds(dst);
    lemma_ones_fold_props(ws_src);
    lemma_ones_fold_props(ones_fold(ws_src) + ws_dst);
    lemma_fold_sum_congruent(ones_fold(ws_src), ws_dst, ws_src);
    lemma_fold_sum_congruent(
        addr_fold_v6(src, dst),
        len / 65536 + len % 65536 + next_header,
        ws_src + ws_dst,
    );
}

/// A transport checksum over an IPv6 pseudo-header, once stored in its field,
/// makes the one's-complement sum over the pseudo-header and the segment come
/// out as all ones, as long as the 32-bit accumulator did not wrap.
pub proof fn lemma_l4_checksum_v6_verifies(
    src: Seq<u8>,
    dst: Seq<u8>,
    next_header: u8,
    segment: Seq<u8>,
    field: int,
)
    requires
        src.len() == 16,
        dst.len() == 16,
        field % 2 == 0,
        0 <= field,
        field + 1 < segment.len(),
        l4_acc_v6(src, dst, next_header, segment, field) < 0x1_0000_0000,
    ensures
        ({
            let c = l4_checksum_v6(src, dst, next_header, segment, field);
            let material = pseudo_header_v6(
                src,
                dst,
                segment.len() as int % 0x1_0000_0000,
                next_header,
            ) + with_checksum(segment, field, c);
            &&& ones_fold(word_sum(material)) == 65535
            &&& word_sum(material) < 0x1_0000_0000 ==> checksum16_spec(material) == 0xffff
        }),
{
    let c = l4_checksum_v6(src, dst, next_header, segment, field);
    let len = segment.len() as int % 0x1_0000_0000;
    let pseudo = pseudo_header_v6(src, dst, len, next_header);
    let filled = with_checksum(segment, field, c);
    assert(len % 65536 == segment.len() as int % 65536) by {
        vstd::arithmetic::div_mod::lemma_mod_mod(segment.len() as int, 65536, 65536);
    }
    lemma_acc_v6_congruent(src, dst, next_header, len);
    lemma_word_sum_bounds(pseudo);
    lemma_filled_field_folds_to_ones(
        segment,
        field,
        addr_fold_v6(src, dst) + len / 65536 + len % 65536 + next_header,
        word_sum(pseudo),
    );
    lemma_word_sum_concat(pseudo, filled);
    if word_sum(pseudo + filled) < 0x1_0000_0000 {
        lemma_word_sum_bounds(pseudo + filled);
        lemma_u32_wrap_small(word_sum(pseudo + filled));
    }
}

/// Segments of at most 65535 bytes never wrap the 32-bit accumulator of a
/// transport checksum.
pub proof fn lemma_l4_acc_fits(
    src4: u32,
    dst4: u32,
    src6: Seq<u8>,
    dst6: Seq<u8>,
    proto: u8,
    segment: Seq<u8>,
    field: int,
)
    requires
        segment.len() <= 65535,
    ensures
        l4_acc_v4(src4, dst4, proto, segment, field) < 0x1_0000_0000,
        l4_acc_v6(src6, dst6, proto, segment, field) < 0x1_0000_0000,
{
    let m = masked(segment, field);
    lemma_word_sum_bounds(m);
    assert(word_count(m) <= 32768);
    assert(65535 * word_count(m) <= 65535 * 32768) by (nonlinear_arith)
        requires
            word_count(m) <= 32768,
    ;
    lemma_word_sum_bounds(be32_bytes(src4 as int));
    lemma_word_sum_bounds(be32_bytes(dst4 as int));
    lemma_word_sum_bounds(src6);
    lemma_word_sum_bounds(dst6);
    lemma_ones_fold_props(word_sum(be32_bytes(src4 as int)));
    lemma_ones_fold_props(word_sum(src6));
    lemma_ones_fold_props(
        ones_fold(word_sum(be32_bytes(src4 as int))) + word_sum(be32_bytes(dst4 as int)),
    );
    lemma_ones_fold_props(ones_fold(word_sum(src6)) + word_sum(dst6));
}

/// An IPv4 header checksum computed with its field read as zero, once stored
/// in bytes 10 and 11, makes the folded sum of the header all ones.
pub proof fn lemma_ipv4_header_checksum_verifies(hdr: Seq<u8>)
    requires
        hdr.len() == 20,
        hdr[10] == 0,
        hdr[11] == 0,
    ensures
        checksum16_spec(with_checksum(hdr, 10, ipv4_header_checksum_spec(hdr))) == 0xffff,
{
    let w = word_sum(hdr);
    let c = ipv4_header_checksum_spec(hdr);
    let filled = with_checksum(hdr, 10, c);
    lemma_word_sum_bounds(hdr);
    lemma_ones_fold_props(w);
    lemma_word_sum_replace_word(hdr, filled, 10);
    assert(word_at(filled, 10) == c);
    let x = w + c;
    assert(x % 65535 == 0) by {
        vstd::arithmetic::div_mod::lemma_add_mod_noop(w, c, 65535);
        vstd::arithmetic::div_mod::lemma_add_mod_noop(ones_fold(w), c, 65535);
    }
    lemma_ones_fold_multiple(x);
    lemma_word_sum_bounds(filled);
    lemma_u32_wrap_small(word_sum(filled));
}


/// `s` with the 16-bit value `v` stored big-endian at `at`.
pub open spec fn with_be16(s: Seq<u8>, at: int, v: int) -> Seq<u8> {
    s.update(at, (v / 256) as u8).update(at + 1, (v % 256) as u8)
}

/// Sum of the one's complements of the 16-bit big-endian words of `s`, an
/// odd trailing byte padded with zero: each word `w` contributes `0xFFFF - w`.
pub open spec fn complement_sum(s: Seq<u8>) -> int {
    65535 * word_count(s) - word_sum(s)
}

/// In-place checksum update (RFC 1624) of a transport checksum `check`: the
/// words of the pseudo-header `old_pseudo` are taken out and those of
/// `new_pseudo` put in, then the 16-bit port `old_port` is replaced by
/// `new_port`; a zero result is sent as all ones.
pub open spec fn incremental_update(
    check: int,
    old_pseudo: Seq<u8>,
    new_pseudo: Seq<u8>,
    old_port: int,
    new_port: int,
) -> int {
    finish_l4(
        ones_fold(
            (65535 - check) + complement_sum(old_pseudo) + word_sum(new_pseudo) + (65535 - old_port)
                + new_port,
        ),
    )
}

proof fn lemma_congruent_add(a: int, b: int, c: int, d: int)
    requires
        a % 65535 == b % 65535,
        c % 65535 == d % 65535,
    ensures
        (a + c) % 65535 == (b + d) % 65535,
{
    lemma_add_mod_noop(a, c, 65535);
    lemma_add_mod_noop(b, d, 65535);
}

/// Finishing two non-negative sums that agree modulo `0xFFFF` gives one checksum.
proof fn lemma_finish_congruent(x: int, y: int)
    requires
        x >= 0,
        y >= 0,
        x % 65535 == y % 65535,
    ensures
        finish_l4(ones_fold(x)) == finish_l4(ones_fold(y)),
{
    if x > 0 && y > 0 {
        lemma_ones_fold_congruent(x, y);
    } else if x == 0 && y > 0 {
        lemma_ones_fold_multiple(y);
    } else if y == 0 && x > 0 {
        lemma_ones_fold_multiple(x);
    }
}

/// The update of a checksum finished from `acc_old` agrees with finishing
/// `acc_new`, when `acc_old` sums the old pseudo-header with the segment and
/// `acc_new` the new pseudo-header with the segment whose port was replaced.
proof fn lemma_incremental_core(
    acc_old: int,
    old_pseudo: Seq<u8>,
    new_pseudo: Seq<u8>,
    segment: Seq<u8>,
    field: int,
    port_at: int,
    new_port: int,
    acc_new: int,
)
    requires
        field % 2 == 0,
        port_at % 2 == 0,
        0 <= field,
        0 <= port_at,
        field + 1 < segment.len(),
        port_at + 1 < segment.len(),
        port_at != field,
        0 <= new_port < 65536,
        0 <= acc_old < 0x1_0000_0000,
        acc_new >= 0,
        acc_old % 65535 == (word_sum(old_pseudo) + word_sum(masked(segment, field))) % 65535,
        acc_new % 65535 == (word_sum(new_pseudo) + word_sum(
            masked(with_be16(segment, port_at, new_port), field),
        )) % 65535,
    ensures
        incremental_update(
            finish_l4(ones_fold(u32_wrap(acc_old))),
            old_pseudo,
            new_pseudo,
            word_at(segment, port_at),
            new_port,
        ) == finish_l4(ones_fold(acc_new)),
{
    lemma_u32_wrap_small(acc_old);
    let f = ones_fold(acc_old);
    lemma_ones_fold_props(acc_old);
    let check = finish_l4(f);
    let old_port = word_at(segment, port_at);
    let m = masked(segment, field);
    let seg4 = with_be16(segment, port_at, new_port);
    let m4 = masked(seg4, field);
    // The port word is the only difference between the two masked segments.
    assert forall|j: int| 0 <= j < m.len() && j != port_at && j != port_at + 1 implies m[j] == m4[j] by {}
    lemma_word_sum_replace_word(m, m4, port_at);
    assert(word_at(m, port_at) == old_port);
    assert(word_at(m4, port_at) == new_port);
    lemma_word_sum_bounds(old_pseudo);
    lemma_word_sum_bounds(new_pseudo);
    lemma_word_sum_bounds(m);
    lemma_word_bounds(segment, port_at);
    // (0xFFFF - check) agrees with the old accumulator.
    let x1 = 65535 - check;
    assert(x1 % 65535 == acc_old % 65535) by {
        if f == 65535 {
            lemma_mod_multiples_vanish(1, 0, 65535);
        }
    }
    // The complemented old pseudo-header cancels its words.
    let x2 = complement_sum(old_pseudo);
    assert(x2 % 65535 == (-word_sum(old_pseudo)) % 65535) by {
        lemma_mod_multiples_vanish(word_count(old_pseudo) as int, -word_sum(old_pseudo), 65535);
    }
    let x4 = (65535 - old_port) + new_port;
    assert(x4 % 65535 == (new_port - old_port) % 65535) by {
        lemma_mod_multiples_vanish(1, new_port - old_port, 65535);
    }
    lemma_congruent_add(x1, word_sum(old_pseudo) + word_sum(m), x2, -word_sum(old_pseudo));
    lemma_congruent_add(
        x1 + x2,
        word_sum(m),
        word_sum(new_pseudo),
        word_sum(new_pseudo),
    );
    lemma_congruent_add(
        x1 + x2 + word_sum(new_pseudo),
        word_sum(m) + word_sum(new_pseudo),
        x4,
        new_port - old_port,
    );
    assert(word_sum(m) + word_sum(new_pseudo) + (new_port - old_port) == word_sum(new_pseudo)
        + word_sum(m4));
    lemma_finish_congruent(x1 + x2 + word_sum(new_pseudo) + x4, acc_new);
}

/// Translating a segment from IPv6 to IPv4 by updating its checksum in place
/// (swapping the IPv6 pseudo-header for the IPv4 one and rewriting the port
/// at `port_at`) gives exactly the checksum recomputed from scratch over the
/// IPv4 pseudo-header and the rewritten segment.
pub proof fn lemma_incremental_v6_to_v4_matches_full_recompute(
    src6: Seq<u8>,
    dst6: Seq<u8>,
    src4: u32,
    dst4: u32,
    proto: u8,
    segment: Seq<u8>,
    field: int,
    port_at: int,
    new_port: u16,
)
    requires
        src6.len() == 16,
        dst6.len() == 16,
        field % 2 == 0,
        port_at % 2 == 0,
        0 <= field,
        0 <= port_at,
        field + 1 < segment.len(),
        port_at + 1 < segment.len(),
        port_at != field,
        segment.len() <= 65535,
    ensures
        incremental_update(
            l4_checksum_v6(src6, dst6, proto, segment, field),
            pseudo_header_v6(src6, dst6, segment.len() as int, proto),
            pseudo_header_v4(src4, dst4, segment.len() as int, proto),
            word_at(segment, port_at),
            new_port as int,
        ) == l4_checksum_v4(src4, dst4, proto, with_be16(segment, port_at, new_port as int), field),
{
    let len = segment.len() as int;
    let seg4 = with_be16(segment, port_at, new_port as int);
    lemma_l4_acc_fits(src4, dst4, src6, dst6, proto, segment, field);
    lemma_l4_acc_fits(src4, dst4, src6, dst6, proto, seg4, field);
    lemma_small_mod(len as nat, 0x1_0000_0000);
    lemma_small_mod(len as nat, 65536);
    lemma_acc_v6_congruent(src6, dst6, proto, len);
    lemma_acc_v4_congruent(src4, dst4, proto, len);
    let acc6 = l4_acc_v6(src6, dst6, proto, segment, field);
    let acc4 = l4_acc_v4(src4, dst4, proto, seg4, field);
    lemma_word_sum_bounds(masked(segment, field));
    lemma_word_sum_bounds(masked(seg4, field));
    lemma_fold_sum_congruent(
        addr_fold_v6(src6, dst6) + len / 65536 + len % 65536 + proto,
        word_sum(masked(segment, field)),
        word_sum(pseudo_header_v6(src6, dst6, len, proto)),
    );
    lemma_fold_sum_congruent(
        addr_fold_v4(src4, dst4) + proto + len,
        word_sum(masked(seg4, field)),
        word_sum(pseudo_header_v4(src4, dst4, len, proto)),
    );
    lemma_u32_wrap_small(acc4);
    lemma_incremental_core(
        acc6,
        pseudo_header_v6(src6, dst6, len, proto),
        pseudo_header_v4(src4, dst4, len, proto),
        segment,
        field,
        port_at,
        new_port as int,
        acc4,
    );
}

/// Translating a segment from IPv4 to IPv6 by updating its checksum in place
/// (swapping the IPv4 pseudo-header for the IPv6 one and rewriting the port
/// at `port_at`) gives exactly the checksum recomputed from scratch over the
/// IPv6 pseudo-header and the rewritten segment.
pub proof fn lemma_incremental_v4_to_v6_matches_full_recompute(
    src4: u32,
    dst4: u32,
    src6: Seq<u8>,
    dst6: Seq<u8>,
    proto: u8,
    segment: Seq<u8>,
    field: int,
    port_at: int,
    new_port: u16,
)
    requires
        src6.len() == 16,
        dst6.len() == 16,
        field % 2 == 0,
        port_at % 2 == 0,
        0 <= field,
        0 <= port_at,
        field + 1 < segment.len(),
        port_at + 1 < segment.len(),
        port_at != field,
        segment.len() <= 65535,
    ensures
        incremental_update(
            l4_checksum_v4(src4, dst4, proto, segment, field),
            pseudo_header_v4(src4, dst4, segment.len() as int, proto),
            pseudo_header_v6(src6, dst6, segment.len() as int, proto),
            word_at(segment, port_at),
            new_port as int,
        ) == l4_checksum_v6(src6, dst6, proto, with_be16(segment, port_at, new_port as int), field),
{
    let len = segment.len() as int;
    let seg6 = with_be16(segment, port_at, new_port as int);
    lemma_l4_acc_fits(src4, dst4, src6, dst6, proto, segment, field);
    lemma_l4_acc_fits(src4, dst4, src6, dst6, proto, seg6, field);
    lemma_small_mod(len as nat, 0x1_0000_0000);
    lemma_small_mod(len as nat, 65536);
    lemma_acc_v6_congruent(src6, dst6, proto, len);
    lemma_acc_v4_congruent(src4, dst4, proto, len);
    let acc4 = l4_acc_v4(src4, dst4, proto, segment, field);
    let acc6 = l4_acc_v6(src6, dst6, proto, seg6, field);
    lemma_word_sum_bounds(masked(segment, field));
    lemma_word_sum_bounds(masked(seg6, field));
    lemma_fold_sum_congruent(
        addr_fold_v4(src4, dst4) + proto + len,
        word_sum(masked(segment, field)),
        word_sum(pseudo_header_v4(src4, dst4, len, proto)),
    );
    lemma_fold_sum_congruent(
        addr_fold_v6(src6, dst6) + len / 65536 + len % 65536 + proto,
        word_sum(masked(seg6, field)),
        word_sum(pseudo_header_v6(src6, dst6, len, proto)),
    );
    lemma_u32_wrap_small(acc6);
    lemma_incremental_core(
        acc4,
        pseudo_header_v4(src4, dst4, len, proto),
        pseudo_header_v6(src6, dst6, len, proto),
        segment,
        field,
        port_at,
        new_port as int,
        acc6,
    );
}

/// A checksum that is the complement of a sum agreeing with `target` modulo
/// `0xFFFF` completes `target` to a sum that folds to all ones.
proof fn lemma_completes_to_ones(x: int, target: int)
    requires
        x >= 0,
        target >= 0,
        x % 65535 == target % 65535,
    ensures
        ones_fold(target + finish_l4(ones_fold(x))) == 65535,
{
    let f = ones_fold(x);
    lemma_ones_fold_props(x);
    let c = finish_l4(f);
    assert((target + c) % 65535 == 0) by {
        if f == 65535 {
            lemma_mod_multiples_vanish(1, target, 65535);
            lemma_mod_multiples_vanish(1, 0, 65535);
        } else {
            lemma_add_mod_noop(target, 65535 - f, 65535);
            lemma_add_mod_noop(x, 65535 - f, 65535);
            lemma_mod_multiples_vanish(1, x - f, 65535);
            lemma_fold_sum_congruent(x, -f, f);
        }
    }
    lemma_ones_fold_multiple(target + c);
}

/// Updating a checksum in place keeps it valid: when `segment`, checksum
/// field at `field` included, verifies over `old_pseudo` (the
/// one's-complement sum of both folds to all ones), then the segment with the
/// word at `port_at` replaced by `new_port` and the updated checksum stored at
/// `field` verifies over `new_pseudo`. This holds for every valid incoming
/// checksum, whichever of its two representations of zero it uses.
pub proof fn lemma_incremental_update_keeps_checksum_valid(
    old_pseudo: Seq<u8>,
    new_pseudo: Seq<u8>,
    segment: Seq<u8>,
    field: int,
    port_at: int,
    new_port: int,
)
    requires
        old_pseudo.len() % 2 == 0,
        new_pseudo.len() % 2 == 0,
        field % 2 == 0,
        port_at % 2 == 0,
        0 <= field,
        0 <= port_at,
        field + 1 < segment.len(),
        port_at + 1 < segment.len(),
        port_at != field,
        0 <= new_port < 65536,
        ones_fold(word_sum(old_pseudo + segment)) == 65535,
    ensures
        ({
            let c = incremental_update(
                word_at(segment, field),
                old_pseudo,
                new_pseudo,
                word_at(segment, port_at),
                new_port,
            );
            ones_fold(
                word_sum(new_pseudo + with_checksum(with_be16(segment, port_at, new_port), field, c)),
            ) == 65535
        }),
{
    let check = word_at(segment, field);
    let old_port = word_at(segment, port_at);
    let m = masked(segment, field);
    let seg4 = with_be16(segment, port_at, new_port);
    let m4 = masked(seg4, field);
    let po = word_sum(old_pseudo);
    let pn = word_sum(new_pseudo);
    lemma_word_sum_concat(old_pseudo, segment);
    lemma_word_sum_masked(segment, field);
    assert forall|j: int| 0 <= j < m.len() && j != port_at && j != port_at + 1 implies m[j] == m4[j] by {}
    lemma_word_sum_replace_word(m, m4, port_at);
    assert(word_at(m, port_at) == old_port);
    assert(word_at(m4, port_at) == new_port);
    lemma_word_sum_bounds(old_pseudo);
    lemma_word_sum_bounds(new_pseudo);
    lemma_word_sum_bounds(m);
    lemma_word_sum_bounds(m4);
    lemma_word_bounds(segment, field);
    lemma_word_bounds(segment, port_at);
    // The incoming material sums to a multiple of 0xFFFF.
    let total = po + word_sum(m) + check;
    assert(total == word_sum(old_pseudo + segment));
    assert(total > 0 && total % 65535 == 0) by {
        if total == 0 {
            assert(ones_fold(total) == 0);
        }
        lemma_ones_fold_props(total);
        lemma_mod_multiples_vanish(1, 0, 65535);
    }
    let x = (65535 - check) + complement_sum(old_pseudo) + pn + (65535 - old_port) + new_port;
    let target = pn + word_sum(m4);
    // x - target is (0xFFFF multiples) - total, a multiple of 0xFFFF.
    assert(x == target + 65535 * (2 + word_count(old_pseudo)) - total);
    assert(x % 65535 == target % 65535) by {
        let k = 2 + word_count(old_pseudo) - total / 65535;
        vstd::arithmetic::div_mod::lemma_fundamental_div_mod(total, 65535);
        assert(x == target + 65535 * k) by (nonlinear_arith)
            requires
                x == target + 65535 * (2 + word_count(old_pseudo)) - total,
                total == 65535 * (total / 65535),
                k == 2 + word_count(old_pseudo) - total / 65535,
        ;
        lemma_mod_multiples_vanish(k, target, 65535);
    }
    lemma_completes_to_ones(x, target);
    let c = finish_l4(ones_fold(x));
    lemma_ones_fold_props(x);
    let out = with_checksum(seg4, field, c);
    lemma_word_sum_masked(seg4, field);
    lemma_word_sum_replace_word(m4, out, field);
    assert(word_at(m4, field) == 0);
    assert(word_at(out, field) == c);
    lemma_word_sum_concat(new_pseudo, out);
}

/// The one's-complement word sum of `s` (an odd trailing byte padded with zero).
fn word_sum_of(s: &[u8]) -> (sum: u64)
    requires
        s.len() <= 1024,
    ensures
        sum == word_sum(s@),
{
    let n: usize = (s.len() + 1) / 2;
    let mut acc: u64 = 0;
    let mut k: usize = 0;
    while k < n
        invariant
            n == word_count(s@),
            s.len() <= 1024,
            k <= n,
            acc == pair_sum(s@, k as nat),
        decreases n - k,
    {
        proof {
            lemma_pair_sum_bounds(s@, k as nat);
        }
        let hi = s[2 * k] as u64;
        let lo = if 2 * k + 1 < s.len() {
            s[2 * k + 1] as u64
        } else {
            0
        };
        assert(hi * 256 + lo == nth_word(s@, k as int));
        acc = acc + hi * 256 + lo;
        k = k + 1;
    }
    acc
}

/// Updates a transport checksum in place (RFC 1624): takes the words of
/// `old_pseudo` out, puts those of `new_pseudo` in, and replaces the port
/// `old_port` by `new_port`.
pub fn checksum_update(
    check: u16,
    old_pseudo: &[u8],
    new_pseudo: &[u8],
    old_port: u16,
    new_port: u16,
) -> (updated: u16)
    requires
        old_pseudo.len() <= 1024,
        new_pseudo.len() <= 1024,
    ensures
        updated == incremental_update(
            check as int,
            old_pseudo@,
            new_pseudo@,
            old_port as int,
            new_port as int,
        ),
{
    let old_sum = word_sum_of(old_pseudo);
    let new_sum = word_sum_of(new_pseudo);
    let count: u64 = ((old_pseudo.len() + 1) / 2) as u64;
    proof {
        lemma_word_sum_bounds(old_pseudo@);
        lemma_word_sum_bounds(new_pseudo@);
    }
    let sum: u64 = (65535 - check as u64) + (65535 * count - old_sum) + new_sum + (65535
        - old_port as u64) + new_port as u64;
    let folded: u64 = if sum == 0 {
        0
    } else {
        (sum - 1) % 65535 + 1
    };
    if folded == 65535 {
        65535
    } else {
        (65535 - folded) as u16
    }
}

} // verus!
