//! CRC-32 with the IEEE polynomial (0xEDB88320, reflected form, initial
//! value 0xFFFFFFFF, final XOR 0xFFFFFFFF), as the 7z format uses it for
//! the start header, the header block, folder output and file contents.

use vstd::prelude::*;

verus! {

/// One step of the reflected CRC-32 recurrence on the 32-bit register.
pub open spec fn crc32_bit_step(r: u32) -> u32 {
    if r & 1u32 == 1u32 {
        (r >> 1u32) ^ 0xEDB88320u32
    } else {
        r >> 1u32
    }
}

/// Feed one byte into the register: xor it in, then shift eight times.
pub open spec fn crc32_byte_step(r: u32, b: u8) -> u32 {
    crc32_bit_step(crc32_bit_step(crc32_bit_step(crc32_bit_step(crc32_bit_step(
        crc32_bit_step(crc32_bit_step(crc32_bit_step(r ^ (b as u32)))),
    )))))
}

/// Register state after feeding the first `i` bytes of `s`, starting
/// from the initial value 0xFFFFFFFF.
pub open spec fn crc32_acc(s: Seq<u8>, i: int) -> u32
    decreases i,
{
    if i <= 0 {
        0xFFFFFFFFu32
    } else {
        crc32_byte_step(crc32_acc(s, i - 1), s[i - 1])
    }
}

/// CRC-32 of a byte sequence.
pub open spec fn crc32_spec(s: Seq<u8>) -> u32 {
    crc32_acc(s, s.len() as int) ^ 0xFFFFFFFFu32
}

/// The register after feeding all of `s`, starting from `r`.
pub open spec fn crc32_fold(r: u32, s: Seq<u8>) -> u32
    decreases s.len(),
{
    if s.len() == 0 {
        r
    } else {
        crc32_byte_step(crc32_fold(r, s.drop_last()), s.last())
    }
}

/// Feeding a prefix from the initial value is folding over that prefix.
pub proof fn lemma_crc32_acc_is_fold(s: Seq<u8>, i: int)
    requires
        0 <= i <= s.len(),
    ensures
        crc32_acc(s, i) == crc32_fold(0xFFFFFFFFu32, s.take(i)),
    decreases i,
{
    if i > 0 {
        lemma_crc32_acc_is_fold(s, i - 1);
        assert(s.take(i).drop_last() =~= s.take(i - 1));
        assert(s.take(i).last() == s[i - 1]);
    }
}

/// Folding a concatenation is folding the parts in order.
pub proof fn lemma_crc32_fold_concat(r: u32, a: Seq<u8>, b: Seq<u8>)
    ensures
        crc32_fold(r, a + b) == crc32_fold(crc32_fold(r, a), b),
    decreases b.len(),
{
    if b.len() == 0 {
        assert(a + b =~= a);
    } else {
        lemma_crc32_fold_concat(r, a, b.drop_last());
        assert((a + b).drop_last() =~= a + b.drop_last());
        assert((a + b).last() == b.last());
    }
}

/// The CRC of a sequence is the fold from the initial value, inverted.
pub proof fn lemma_crc32_spec_is_fold(s: Seq<u8>)
    ensures
        crc32_spec(s) == crc32_fold(0xFFFFFFFFu32, s) ^ 0xFFFFFFFFu32,
{
    lemma_crc32_acc_is_fold(s, s.len() as int);
    assert(s.take(s.len() as int) =~= s);
}

fn crc32_bit_step_exec(r: u32) -> (out: u32)
    ensures
        out == crc32_bit_step(r),
{
    if r & 1u32 == 1u32 {
        (r >> 1u32) ^ 0xEDB88320u32
    } else {
        r >> 1u32
    }
}

fn crc32_byte_step_exec(r: u32, b: u8) -> (out: u32)
    ensures
        out == crc32_byte_step(r, b),
{
    let mut x: u32 = r ^ (b as u32);
    x = crc32_bit_step_exec(x);
    x = crc32_bit_step_exec(x);
    x = crc32_bit_step_exec(x);
    x = crc32_bit_step_exec(x);
    x = crc32_bit_step_exec(x);
    x = crc32_bit_step_exec(x);
    x = crc32_bit_step_exec(x);
    x = crc32_bit_step_exec(x);
    x
}

/// Feed `data` into a running CRC register.
pub fn crc32_update(state: u32, data: &[u8]) -> (out: u32)
    ensures
        out == crc32_fold(state, data@),
{
    let mut r: u32 = state;
    let mut i: usize = 0;
    proof {
        assert(data@.take(0) =~= Seq::<u8>::empty());
    }
    while i < data.len()
        invariant
            0 <= i <= data@.len(),
            r == crc32_fold(state, data@.take(i as int)),
        decreases data@.len() - i,
    {
        r = crc32_byte_step_exec(r, data[i]);
        i = i + 1;
        proof {
            assert(data@.take(i as int).drop_last() =~= data@.take(i as int - 1));
            assert(data@.take(i as int).last() == data@[i as int - 1]);
        }
    }
    proof {
        assert(data@.take(data@.len() as int) =~= data@);
    }
    r
}

/// CRC-32 of `data`, equal to the mathematical `crc32_spec` of its bytes.
pub fn crc32(data: &[u8]) -> (out: u32)
    ensures
        out == crc32_spec(data@),
{
    let mut r: u32 = 0xFFFFFFFFu32;
    let mut i: usize = 0;
    while i < data.len()
        invariant
            0 <= i <= data@.len(),
            r == crc32_acc(data@, i as int),
        decreases data@.len() - i,
    {
        r = crc32_byte_step_exec(r, data[i]);
        i = i + 1;
    }
    r ^ 0xFFFFFFFFu32
}

} // verus!
