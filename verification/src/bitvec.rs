//! The header's bit vectors: `n` flags packed MSB-first into whole bytes,
//! or a single marker byte saying every flag is set.

use vstd::prelude::*;
use crate::error::Error;

verus! {

/// The weight of bit `r` inside a byte, MSB first.
pub open spec fn bit_weight(r: int) -> int {
    if r == 0 {
        128
    } else if r == 1 {
        64
    } else if r == 2 {
        32
    } else if r == 3 {
        16
    } else if r == 4 {
        8
    } else if r == 5 {
        4
    } else if r == 6 {
        2
    } else {
        1
    }
}

/// Flag `i` of a packed bit vector: bit `i % 8` of byte `i / 8`, MSB
/// first.
pub open spec fn bit_at(bytes: Seq<u8>, i: int) -> bool {
    (bytes[i / 8] as int / bit_weight(i % 8)) % 2 == 1
}

/// Unpack `n` flags from the front of `data`.
pub fn read_bits(data: &[u8], n: usize) -> (r: Result<Vec<bool>, Error>)
    requires
        n + 7 <= usize::MAX,
    ensures
        r matches Ok(v) ==> ({
            &&& data@.len() >= (n + 7) / 8
            &&& v@.len() == n
            &&& forall|i: int| 0 <= i < n ==> #[trigger] v@[i] == bit_at(data@, i)
        }),
        r matches Err(e) ==> e == Error::Truncated && data@.len() < (n + 7) / 8,
{
    let needed = (n + 7) / 8;
    if data.len() < needed {
        return Err(Error::Truncated);
    }
    let mut out: Vec<bool> = Vec::new();
    let mut i: usize = 0;
    while i < n
        invariant
            0 <= i <= n,
            (n + 7) / 8 <= data@.len(),
            n + 7 <= usize::MAX,
            out@.len() == i,
            forall|j: int| 0 <= j < i ==> #[trigger] out@[j] == bit_at(data@, j),
        decreases n - i,
    {
        let r = i % 8;
        let weight: u8 = if r == 0 {
            128
        } else if r == 1 {
            64
        } else if r == 2 {
            32
        } else if r == 3 {
            16
        } else if r == 4 {
            8
        } else if r == 5 {
            4
        } else if r == 6 {
            2
        } else {
            1
        };
        let byte = data[i / 8];
        out.push((byte / weight) % 2 == 1);
        i = i + 1;
    }
    Ok(out)
}

/// A flag's contribution to its byte: its weight when it is set and
/// inside the vector, nothing otherwise.
pub open spec fn bit_term(bits: Seq<bool>, i: int, r: int) -> int {
    if i < bits.len() && bits[i] {
        bit_weight(r)
    } else {
        0
    }
}

fn bit_term_exec(bits: &Vec<bool>, i: usize, r: usize, weight: u8) -> (t: u8)
    requires
        r < 8,
        weight == bit_weight(r as int),
    ensures
        t == bit_term(bits@, i as int, r as int),
{
    if i < bits.len() && bits[i] {
        weight
    } else {
        0
    }
}

/// Recover each flag from a byte assembled from weighted flag bits.
proof fn lemma_unpack_byte(c0: int, c1: int, c2: int, c3: int, c4: int, c5: int, c6: int, c7: int, x: int)
    requires
        0 <= c0 <= 1,
        0 <= c1 <= 1,
        0 <= c2 <= 1,
        0 <= c3 <= 1,
        0 <= c4 <= 1,
        0 <= c5 <= 1,
        0 <= c6 <= 1,
        0 <= c7 <= 1,
        x == 128 * c0 + 64 * c1 + 32 * c2 + 16 * c3 + 8 * c4 + 4 * c5 + 2 * c6 + c7,
    ensures
        (x / 128) % 2 == c0,
        (x / 64) % 2 == c1,
        (x / 32) % 2 == c2,
        (x / 16) % 2 == c3,
        (x / 8) % 2 == c4,
        (x / 4) % 2 == c5,
        (x / 2) % 2 == c6,
        (x / 1) % 2 == c7,
{
    assert((x / 128) % 2 == c0 && (x / 64) % 2 == c1 && (x / 32) % 2 == c2 && (x / 16) % 2 == c3
        && (x / 8) % 2 == c4 && (x / 4) % 2 == c5 && (x / 2) % 2 == c6 && (x / 1) % 2 == c7)
        by (nonlinear_arith)
        requires
            0 <= c0 <= 1,
            0 <= c1 <= 1,
            0 <= c2 <= 1,
            0 <= c3 <= 1,
            0 <= c4 <= 1,
            0 <= c5 <= 1,
            0 <= c6 <= 1,
            0 <= c7 <= 1,
            x == 128 * c0 + 64 * c1 + 32 * c2 + 16 * c3 + 8 * c4 + 4 * c5 + 2 * c6 + c7,
    ;
}

/// Pack the flags into whole bytes, MSB first; the padding bits of the
/// last byte are clear.
#[verifier::rlimit(100)]
#[verifier::spinoff_prover]
pub fn write_bits(bits: &Vec<bool>) -> (r: Vec<u8>)
    requires
        bits@.len() + 7 <= usize::MAX,
    ensures
        r@.len() == (bits@.len() + 7) / 8,
        forall|i: int| 0 <= i < r@.len() * 8 ==> #[trigger] bit_at(r@, i) == (i < bits@.len()
            && bits@[i]),
{
    let n = bits.len();
    let nbytes = (n + 7) / 8;
    let mut out: Vec<u8> = Vec::new();
    let mut j: usize = 0;
    while j < nbytes
        invariant
            0 <= j <= nbytes,
            nbytes == (bits@.len() + 7) / 8,
            n == bits@.len(),
            n + 7 <= usize::MAX,
            out@.len() == j,
            forall|i: int| 0 <= i < j * 8 ==> #[trigger] bit_at(out@, i) == (i < bits@.len()
                && bits@[i]),
        decreases nbytes - j,
    {
        let base = j * 8;
        let t0 = bit_term_exec(bits, base, 0, 128);
        let t1 = bit_term_exec(bits, base + 1, 1, 64);
        let t2 = bit_term_exec(bits, base + 2, 2, 32);
        let t3 = bit_term_exec(bits, base + 3, 3, 16);
        let t4 = bit_term_exec(bits, base + 4, 4, 8);
        let t5 = bit_term_exec(bits, base + 5, 5, 4);
        let t6 = bit_term_exec(bits, base + 6, 6, 2);
        let t7 = bit_term_exec(bits, base + 7, 7, 1);
        let byte = t0 + t1 + t2 + t3 + t4 + t5 + t6 + t7;
        let ghost pre = out@;
        out.push(byte);
        proof {
            let c0: int = if t0 == 0 { 0 } else { 1 };
            let c1: int = if t1 == 0 { 0 } else { 1 };
            let c2: int = if t2 == 0 { 0 } else { 1 };
            let c3: int = if t3 == 0 { 0 } else { 1 };
            let c4: int = if t4 == 0 { 0 } else { 1 };
            let c5: int = if t5 == 0 { 0 } else { 1 };
            let c6: int = if t6 == 0 { 0 } else { 1 };
            let c7: int = if t7 == 0 { 0 } else { 1 };
            lemma_unpack_byte(c0, c1, c2, c3, c4, c5, c6, c7, byte as int);
            assert forall|i: int| 0 <= i < out@.len() * 8 implies #[trigger] bit_at(out@, i) == (i
                < bits@.len() && bits@[i]) by {
                if i < j * 8 {
                    assert(out@[i / 8] == pre[i / 8]);
                    assert(bit_at(out@, i) == bit_at(pre, i));
                } else {
                    assert(out@[i / 8] == byte);
                    let r = i % 8;
                    assert(i == base + r);
                    if r == 0 {
                        assert((byte as int / 128) % 2 == c0);
                    } else if r == 1 {
                        assert((byte as int / 64) % 2 == c1);
                    } else if r == 2 {
                        assert((byte as int / 32) % 2 == c2);
                    } else if r == 3 {
                        assert((byte as int / 16) % 2 == c3);
                    } else if r == 4 {
                        assert((byte as int / 8) % 2 == c4);
                    } else if r == 5 {
                        assert((byte as int / 4) % 2 == c5);
                    } else if r == 6 {
                        assert((byte as int / 2) % 2 == c6);
                    } else {
                        assert((byte as int / 1) % 2 == c7);
                    }
                }
            }
        }
        j = j + 1;
    }
    out
}

/// Unpack `n` flags in the header's optional form: a leading non-zero
/// marker byte means every flag is set and nothing follows; a zero marker
/// is followed by the packed bits. Returns the flags and the bytes
/// consumed.
pub fn read_all_or_bits(data: &[u8], n: usize) -> (r: Result<(Vec<bool>, usize), Error>)
    requires
        n + 7 <= usize::MAX,
    ensures
        r matches Ok(o) ==> ({
            &&& data@.len() >= 1
            &&& o.0@.len() == n
            &&& data@[0] != 0 ==> o.1 == 1 && (forall|i: int| 0 <= i < n ==> #[trigger] o.0@[i])
            &&& data@[0] == 0 ==> o.1 == 1 + (n + 7) / 8 && (forall|i: int|
                0 <= i < n ==> #[trigger] o.0@[i] == bit_at(data@.skip(1), i))
        }),
        r is Err <==> (data@.len() < 1 || (data@[0] == 0 && data@.len() < 1 + (n + 7) / 8)),
        r matches Err(e) ==> e == Error::Truncated,
{
    if data.len() < 1 {
        return Err(Error::Truncated);
    }
    if data[0] != 0 {
        let mut out: Vec<bool> = Vec::new();
        let mut i: usize = 0;
        while i < n
            invariant
                0 <= i <= n,
                out@.len() == i,
                forall|j: int| 0 <= j < i ==> #[trigger] out@[j],
            decreases n - i,
        {
            out.push(true);
            i = i + 1;
        }
        Ok((out, 1))
    } else {
        let rest = vstd::slice::slice_subrange(data, 1, data.len());
        match read_bits(rest, n) {
            Ok(v) => {
                proof {
                    assert(rest@ =~= data@.skip(1));
                }
                Ok((v, 1 + (n + 7) / 8))
            },
            Err(e) => Err(e),
        }
    }
}

} // verus!
