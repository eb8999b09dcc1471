//! Entry names as the header stores them: little-endian 16-bit code
//! units, terminated by a zero unit.

use vstd::prelude::*;
use vstd::bytes::lemma_auto_spec_u16_to_from_le_bytes;
use vstd::bytes::spec_u16_from_le_bytes;
use vstd::bytes::spec_u16_to_le_bytes;
use vstd::bytes::u16_from_le_bytes;
use vstd::bytes::u16_to_le_bytes;
use vstd::slice::slice_subrange;
use crate::error::Error;
use crate::util::push_all;

verus! {

/// The unit starting at byte `2 * i`.
pub open spec fn unit_at(s: Seq<u8>, i: int) -> u16 {
    spec_u16_from_le_bytes(s.subrange(2 * i, 2 * i + 2))
}

/// Emit the units of `name` in little-endian order, then the zero
/// terminator.
pub fn write_utf16_name(name: &Vec<u16>) -> (r: Vec<u8>)
    requires
        forall|i: int| 0 <= i < name@.len() ==> name@[i] != 0,
        2 * name@.len() + 2 <= usize::MAX,
    ensures
        r@.len() == 2 * name@.len() + 2,
        forall|i: int| 0 <= i < name@.len() ==> #[trigger] unit_at(r@, i) == name@[i],
        unit_at(r@, name@.len() as int) == 0,
{
    proof {
        lemma_auto_spec_u16_to_from_le_bytes();
    }
    let mut out: Vec<u8> = Vec::new();
    let mut i: usize = 0;
    while i < name.len()
        invariant
            0 <= i <= name@.len(),
            out@.len() == 2 * i,
            forall|j: int| 0 <= j < i ==> #[trigger] out@.subrange(2 * j, 2 * j + 2)
                == spec_u16_to_le_bytes(name@[j]),
        decreases name@.len() - i,
    {
        let ghost pre = out@;
        let unit = u16_to_le_bytes(name[i]);
        push_all(&mut out, unit.as_slice());
        proof {
            assert forall|j: int| 0 <= j < i + 1 implies #[trigger] out@.subrange(2 * j, 2 * j + 2)
                == spec_u16_to_le_bytes(name@[j]) by {
                if j < i {
                    assert(out@.subrange(2 * j, 2 * j + 2) =~= pre.subrange(2 * j, 2 * j + 2));
                } else {
                    assert(out@.subrange(2 * j, 2 * j + 2) =~= unit@);
                }
            }
        }
        i = i + 1;
    }
    let ghost body = out@;
    let term = u16_to_le_bytes(0u16);
    push_all(&mut out, term.as_slice());
    proof {
        lemma_auto_spec_u16_to_from_le_bytes();
        assert forall|j: int| 0 <= j < name@.len() implies #[trigger] unit_at(out@, j)
            == name@[j] by {
            assert(out@.subrange(2 * j, 2 * j + 2) =~= body.subrange(2 * j, 2 * j + 2));
        }
        assert(out@.subrange(2 * name@.len() as int, 2 * name@.len() as int + 2)
            =~= spec_u16_to_le_bytes(0u16));
    }
    out
}

/// Read one name from the front of `data`: the units before the first
/// zero unit, and the bytes consumed including the terminator. Input
/// that ends before a terminator is truncation.
pub fn read_utf16_name(data: &[u8]) -> (r: Result<(Vec<u16>, usize), Error>)
    ensures
        r matches Ok(o) ==> ({
            &&& o.1 == 2 * o.0@.len() + 2 <= data@.len()
            &&& forall|i: int| 0 <= i < o.0@.len() ==> #[trigger] o.0@[i] == unit_at(data@, i)
                && o.0@[i] != 0
            &&& unit_at(data@, o.0@.len() as int) == 0
        }),
        r matches Err(e) ==> e == Error::Truncated && (forall|i: int|
            0 <= i && 2 * i + 2 <= data@.len() ==> #[trigger] unit_at(data@, i) != 0),
{
    let mut out: Vec<u16> = Vec::new();
    let mut i: usize = 0;
    while i < data.len() / 2
        invariant
            0 <= i <= data@.len() / 2,
            out@.len() == i,
            forall|j: int| 0 <= j < i ==> #[trigger] out@[j] == unit_at(data@, j) && out@[j] != 0,
        decreases data@.len() / 2 - i,
    {
        let off = 2 * i;
        let unit = u16_from_le_bytes(slice_subrange(data, off, off + 2));
        if unit == 0 {
            return Ok((out, off + 2));
        }
        out.push(unit);
        i = i + 1;
    }
    proof {
        assert forall|t: int| 0 <= t && 2 * t + 2 <= data@.len() implies #[trigger] unit_at(
            data@,
            t,
        ) != 0 by {
            assert(t < data@.len() / 2) by (nonlinear_arith)
                requires
                    2 * t + 2 <= data@.len(),
            ;
            assert(out@[t] == unit_at(data@, t) && out@[t] != 0);
        }
    }
    Err(Error::Truncated)
}

} // verus!
