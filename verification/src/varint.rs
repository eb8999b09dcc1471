//! The 7z variable-length integer: the first byte's leading one-bits say
//! how many little-endian bytes follow, and its remaining bits hold the
//! highest bits of the value.

use vstd::prelude::*;
use vstd::arithmetic::div_mod::lemma_breakdown;
use vstd::arithmetic::div_mod::lemma_fundamental_div_mod;
use crate::error::Error;

verus! {

/// 256 to the power `k`.
pub open spec fn pow256(k: int) -> int
    decreases k,
{
    if k <= 0 {
        1
    } else {
        256 * pow256(k - 1)
    }
}

proof fn lemma_pow256_pos(k: int)
    ensures
        pow256(k) >= 1,
    decreases k,
{
    if k > 0 {
        lemma_pow256_pos(k - 1);
    }
}

/// The `k` low bytes of `v`, little-endian.
pub open spec fn le_bytes(v: u64, k: int) -> Seq<u8>
    decreases k,
{
    if k <= 0 {
        Seq::empty()
    } else {
        seq![(v % 256) as u8] + le_bytes(v / 256, k - 1)
    }
}

/// The value of a little-endian byte sequence.
pub open spec fn le_value(s: Seq<u8>) -> int
    decreases s.len(),
{
    if s.len() == 0 {
        0
    } else {
        s[0] + 256 * le_value(s.drop_first())
    }
}

/// The low bytes of `v` have length `k` and carry `v` modulo 256^k.
pub proof fn lemma_le_bytes_value(v: u64, k: int)
    requires
        0 <= k,
    ensures
        le_bytes(v, k).len() == k,
        le_value(le_bytes(v, k)) == (v as int) % pow256(k),
    decreases k,
{
    if k == 0 {
        assert((v as int) % 1 == 0);
    } else {
        lemma_le_bytes_value(v / 256, k - 1);
        lemma_pow256_pos(k - 1);
        let s = le_bytes(v, k);
        assert(s.drop_first() =~= le_bytes(v / 256, k - 1));
        lemma_breakdown(v as int, 256, pow256(k - 1));
    }
}

/// How many extra bytes the encoding of `v` carries.
pub open spec fn varint_extra_count(v: u64) -> int {
    if v < 0x80 {
        0
    } else if v < 0x4000 {
        1
    } else if v < 0x200000 {
        2
    } else if v < 0x10000000 {
        3
    } else if v < 0x800000000 {
        4
    } else if v < 0x40000000000 {
        5
    } else if v < 0x2000000000000 {
        6
    } else if v < 0x100000000000000 {
        7
    } else {
        8
    }
}

/// The flag bits of a first byte with `k` extra bytes: `k` leading ones.
pub open spec fn varint_mask(k: int) -> u8 {
    if k <= 0 {
        0x00u8
    } else if k == 1 {
        0x80u8
    } else if k == 2 {
        0xC0u8
    } else if k == 3 {
        0xE0u8
    } else if k == 4 {
        0xF0u8
    } else if k == 5 {
        0xF8u8
    } else if k == 6 {
        0xFCu8
    } else if k == 7 {
        0xFEu8
    } else {
        0xFFu8
    }
}

/// The first byte of the encoding of `v`: the flag bits, then the bits of
/// `v` above its extra bytes. The two parts never overlap.
pub open spec fn varint_first_byte(v: u64) -> u8 {
    let k = varint_extra_count(v);
    (varint_mask(k) + (v as int) / pow256(k)) as u8
}

/// The encoding of `v`: one flag-and-high byte, then the low bytes.
pub open spec fn varint_encode(v: u64) -> Seq<u8> {
    seq![varint_first_byte(v)] + le_bytes(v, varint_extra_count(v))
}

/// How many extra bytes a first byte announces.
pub open spec fn varint_extra_of_first(b: u8) -> int {
    if b < 0x80 {
        0
    } else if b < 0xC0 {
        1
    } else if b < 0xE0 {
        2
    } else if b < 0xF0 {
        3
    } else if b < 0xF8 {
        4
    } else if b < 0xFC {
        5
    } else if b < 0xFE {
        6
    } else if b < 0xFF {
        7
    } else {
        8
    }
}

/// What decoding the front of `s` yields: the value and how many bytes
/// it took, or nothing when `s` is too short.
pub open spec fn varint_decode(s: Seq<u8>) -> Option<(u64, int)> {
    if s.len() < 1 {
        None
    } else {
        let k = varint_extra_of_first(s[0]);
        if s.len() < 1 + k {
            None
        } else {
            let high = s[0] - varint_mask(k);
            Some(((high * pow256(k) + le_value(s.subrange(1, 1 + k))) as u64, 1 + k))
        }
    }
}

proof fn lemma_pow256_table()
    ensures
        pow256(0) == 1,
        pow256(1) == 0x100,
        pow256(2) == 0x10000,
        pow256(3) == 0x1000000,
        pow256(4) == 0x100000000,
        pow256(5) == 0x10000000000,
        pow256(6) == 0x1000000000000,
        pow256(7) == 0x100000000000000,
        pow256(8) == 0x10000000000000000,
{
    assert(pow256(0) == 1);
    assert(pow256(1) == 0x100);
    assert(pow256(2) == 0x10000);
    assert(pow256(3) == 0x1000000);
    assert(pow256(4) == 0x100000000);
    assert(pow256(5) == 0x10000000000);
    assert(pow256(6) == 0x1000000000000);
    assert(pow256(7) == 0x100000000000000);
    assert(pow256(8) == 0x10000000000000000);
}

/// Round trip: decoding bytes that start with the encoding of `v` yields
/// `v` and consumes exactly the encoding.
pub proof fn lemma_varint_roundtrip(v: u64, rest: Seq<u8>)
    ensures
        varint_decode(varint_encode(v) + rest) == Some((v, 1 + varint_extra_count(v))),
{
    lemma_pow256_table();
    let k = varint_extra_count(v);
    let p = pow256(k);
    lemma_le_bytes_value(v, k);
    lemma_fundamental_div_mod(v as int, p);
    let s = varint_encode(v) + rest;
    assert(s[0] == varint_first_byte(v));
    assert({
        &&& k < 8 ==> (v as int) / p < varint_mask(k + 1) - varint_mask(k)
        &&& k == 8 ==> (v as int) / p == 0
    }) by {
        lemma_pow256_table();
        if k == 0 {
            assert(v / 1 == v as int);
        } else if k == 1 {
            assert(v < 0x4000 ==> v / 0x100 < 0x40) by (nonlinear_arith);
        } else if k == 2 {
            assert(v < 0x200000 ==> v / 0x10000 < 0x20) by (nonlinear_arith);
        } else if k == 3 {
            assert(v < 0x10000000 ==> v / 0x1000000 < 0x10) by (nonlinear_arith);
        } else if k == 4 {
            assert(v < 0x800000000 ==> v / 0x100000000 < 0x8) by (nonlinear_arith);
        } else if k == 5 {
            assert(v < 0x40000000000 ==> v / 0x10000000000 < 0x4) by (nonlinear_arith);
        } else if k == 6 {
            assert(v < 0x2000000000000 ==> v / 0x1000000000000 < 0x2) by (nonlinear_arith);
        } else if k == 7 {
            assert(v < 0x100000000000000 ==> v / 0x100000000000000 < 0x1) by (nonlinear_arith);
        } else {
            assert((v as int) < 0x10000000000000000 ==> (v as int) / 0x10000000000000000 == 0)
                by (nonlinear_arith);
        }
    }
    assert(s.subrange(1, 1 + k) =~= le_bytes(v, k));
    assert(varint_extra_of_first(s[0]) == k);
}

/// Encode `value` as a 7z variable-length integer: at most nine bytes.
pub fn write_varint(value: u64) -> (r: Vec<u8>)
    ensures
        r@ == varint_encode(value),
        1 <= r@.len() <= 9,
{
    proof {
        lemma_pow256_table();
        lemma_le_bytes_value(value, varint_extra_count(value));
    }
    let mut out: Vec<u8> = Vec::new();
    let (k, mask): (usize, u64) = if value < 0x80 {
        (0, 0x00)
    } else if value < 0x4000 {
        (1, 0x80)
    } else if value < 0x200000 {
        (2, 0xC0)
    } else if value < 0x10000000 {
        (3, 0xE0)
    } else if value < 0x800000000 {
        (4, 0xF0)
    } else if value < 0x40000000000 {
        (5, 0xF8)
    } else if value < 0x2000000000000 {
        (6, 0xFC)
    } else if value < 0x100000000000000 {
        (7, 0xFE)
    } else {
        (8, 0xFF)
    };
    let high: u64 = if k == 8 {
        0
    } else {
        value >> ((8 * k) as u32)
    };
    proof {
        assert(value >> 8u32 == value / 0x100) by (bit_vector);
        assert(value >> 16u32 == value / 0x10000) by (bit_vector);
        assert(value >> 24u32 == value / 0x1000000) by (bit_vector);
        assert(value >> 32u32 == value / 0x100000000) by (bit_vector);
        assert(value >> 40u32 == value / 0x10000000000) by (bit_vector);
        assert(value >> 48u32 == value / 0x1000000000000) by (bit_vector);
        assert(value >> 56u32 == value / 0x100000000000000) by (bit_vector);
        assert(value >> 0u32 == value) by (bit_vector);
        assert(mask + high == varint_mask(k as int) + (value as int) / pow256(k as int));
    }
    out.push((mask + high) as u8);
    let mut cur = value;
    let mut i: usize = 0;
    while i < k
        invariant
            0 <= i <= k <= 8,
            cur == (value as int) / pow256(i as int),
            out@ == seq![varint_first_byte(value)] + le_bytes(value, i as int),
            k == varint_extra_count(value),
        decreases k - i,
    {
        proof {
            lemma_split_le_bytes(value, i as int);
        }
        out.push((cur % 256) as u8);
        cur = cur / 256;
        i = i + 1;
        proof {
            assert(out@ =~= seq![varint_first_byte(value)] + le_bytes(value, i as int));
        }
    }
    out
}

/// Splitting the low bytes of `v` one byte before `i + 1`: the next byte
/// is the low byte of `v` shifted down `i` bytes.
proof fn lemma_split_le_bytes(v: u64, i: int)
    requires
        0 <= i,
    ensures
        le_bytes(v, i + 1) == le_bytes(v, i).push((((v as int) / pow256(i)) % 256) as u8),
        (v as int) / pow256(i) / 256 == (v as int) / pow256(i + 1),
    decreases i,
{
    lemma_pow256_pos(i);
    if i == 0 {
        assert((v as int) / 1 == v as int);
        assert(le_bytes(v, 0) =~= Seq::<u8>::empty());
        assert(le_bytes(v, 1) == seq![(v % 256) as u8] + le_bytes(v / 256, 0));
        assert(le_bytes(v, 1) =~= le_bytes(v, 0).push((((v as int) / 1) % 256) as u8));
        vstd::arithmetic::div_mod::lemma_div_denominator(v as int, 1, 256);
    } else {
        lemma_split_le_bytes(v / 256, i - 1);
        assert(le_bytes(v, i + 1) =~= le_bytes(v, i).push(
            ((((v / 256) as int) / pow256(i - 1)) % 256) as u8,
        ));
        vstd::arithmetic::div_mod::lemma_div_denominator(v as int, 256, pow256(i - 1));
        vstd::arithmetic::div_mod::lemma_div_denominator(v as int, pow256(i), 256);
        assert(((v / 256) as int) == (v as int) / 256);
    }
}

/// Read one variable-length integer from the front of `data`: the value
/// and how many bytes it took. Too little input is truncation.
#[verifier::loop_isolation(false)]
#[verifier::rlimit(60)]
pub fn read_varint(data: &[u8]) -> (r: Result<(u64, usize), Error>)
    ensures
        match varint_decode(data@) {
            Some(t) => r matches Ok(o) && o.0 == t.0 && o.1 == t.1,
            None => r == Err::<(u64, usize), Error>(Error::Truncated),
        },
{
    proof {
        lemma_pow256_table();
    }
    if data.len() < 1 {
        return Err(Error::Truncated);
    }
    let first = data[0];
    let mut k: usize = 0;
    let mut mask: u8 = 0x00;
    let mut p: u64 = 1;
    if first < 0x80 {
    } else if first < 0xC0 {
        k = 1;
        mask = 0x80;
        p = 0x100;
    } else if first < 0xE0 {
        k = 2;
        mask = 0xC0;
        p = 0x10000;
    } else if first < 0xF0 {
        k = 3;
        mask = 0xE0;
        p = 0x1000000;
    } else if first < 0xF8 {
        k = 4;
        mask = 0xF0;
        p = 0x100000000;
    } else if first < 0xFC {
        k = 5;
        mask = 0xF8;
        p = 0x10000000000;
    } else if first < 0xFE {
        k = 6;
        mask = 0xFC;
        p = 0x1000000000000;
    } else if first < 0xFF {
        k = 7;
        mask = 0xFE;
        p = 0x100000000000000;
    } else {
        k = 8;
        mask = 0xFF;
        p = 1;
    }
    if data.len() < 1 + k {
        return Err(Error::Truncated);
    }
    let high: u64 = (first - mask) as u64;
    let mut value: u64 = 0;
    let mut i: usize = k;
    while i > 0
        invariant
            0 <= i <= k <= 8,
            1 + k <= data@.len(),
            value == le_value(data@.subrange(1 + i as int, 1 + k as int)),
            0 <= value < pow256(k as int - i as int),
            pow256(k as int - i as int) <= pow256(8),
            pow256(8) == 0x10000000000000000,
        decreases i,
    {
        i = i - 1;
        proof {
            lemma_pow256_table();
            assert(data@.subrange(1 + i as int, 1 + k as int).drop_first() =~= data@.subrange(
                2 + i as int,
                1 + k as int,
            ));
            lemma_pow256_monotone(k as int - i as int, 8);
        }
        value = (data[1 + i] as u64) + 0x100 * value;
    }
    proof {
        assert(data@.subrange(1int, 1 + k as int) == data@.subrange(
            1 + 0int,
            1 + k as int,
        ));
        if k < 8 {
            lemma_pow256_monotone(k as int, 7);
        }
        assert(high * p + value < 0x10000000000000000) by {
            lemma_pow256_table();
            if k == 0 {
                assert(p == 1 && high < 0x80 && value < 1);
                assert(high * p + value < 0x10000000000000000) by (nonlinear_arith)
                    requires
                        p == 1,
                        high < 0x80,
                        value < 1,
                ;
            } else if k == 1 {
                assert(p == 0x100 && high < 0x40 && value < 0x100);
                assert(high * p + value < 0x10000000000000000) by (nonlinear_arith)
                    requires
                        p == 0x100,
                        high < 0x40,
                        value < 0x100,
                ;
            } else if k == 2 {
                assert(p == 0x10000 && high < 0x20 && value < 0x10000);
                assert(high * p + value < 0x10000000000000000) by (nonlinear_arith)
                    requires
                        p == 0x10000,
                        high < 0x20,
                        value < 0x10000,
                ;
            } else if k == 3 {
                assert(p == 0x1000000 && high < 0x10 && value < 0x1000000);
                assert(high * p + value < 0x10000000000000000) by (nonlinear_arith)
                    requires
                        p == 0x1000000,
                        high < 0x10,
                        value < 0x1000000,
                ;
            } else if k == 4 {
                assert(p == 0x100000000 && high < 0x8 && value < 0x100000000);
                assert(high * p + value < 0x10000000000000000) by (nonlinear_arith)
                    requires
                        p == 0x100000000,
                        high < 0x8,
                        value < 0x100000000,
                ;
            } else if k == 5 {
                assert(p == 0x10000000000 && high < 0x4 && value < 0x10000000000);
                assert(high * p + value < 0x10000000000000000) by (nonlinear_arith)
                    requires
                        p == 0x10000000000,
                        high < 0x4,
                        value < 0x10000000000,
                ;
            } else if k == 6 {
                assert(p == 0x1000000000000 && high < 0x2 && value < 0x1000000000000);
                assert(high * p + value < 0x10000000000000000) by (nonlinear_arith)
                    requires
                        p == 0x1000000000000,
                        high < 0x2,
                        value < 0x1000000000000,
                ;
            } else if k == 7 {
                assert(p == 0x100000000000000 && high < 0x1 && value < 0x100000000000000);
                assert(high * p + value < 0x10000000000000000) by (nonlinear_arith)
                    requires
                        p == 0x100000000000000,
                        high < 0x1,
                        value < 0x100000000000000,
                ;
            } else {
                assert(p == 1 && high == 0);
            }
        }

        assert(k < 8 ==> p == pow256(k as int));
        assert(k == 8 ==> high == 0 && p == 1);
        assert(k as int == varint_extra_of_first(data@[0]));
        assert(high == data@[0] - varint_mask(k as int));
        assert(value == le_value(data@.subrange(1, 1 + k as int)));
        assert((high * p + value) as int == (data@[0] - varint_mask(k as int)) * pow256(k as int)
            + le_value(data@.subrange(1, 1 + k as int)));
    }
    Ok((high * p + value, 1 + k))
}

proof fn lemma_pow256_monotone(a: int, b: int)
    requires
        a <= b,
    ensures
        pow256(a) <= pow256(b),
    decreases b - a,
{
    lemma_pow256_pos(a);
    if a < b {
        lemma_pow256_monotone(a, b - 1);
        lemma_pow256_pos(b - 1);
    }
}

} // verus!
