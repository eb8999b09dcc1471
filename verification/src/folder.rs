//! The folder model: the coders of one compressed substream, the bind
//! pairs wiring them, and the validation that the graph has exactly one
//! unbound output, which is the folder's uncompressed output.

use vstd::prelude::*;
use crate::error::Error;

verus! {

/// One stage of a folder's coder graph, as the header records it.
#[derive(Clone, Debug, PartialEq, Eq)]
pub struct Coder {
    pub method_id: Vec<u8>,
    pub num_in_streams: usize,
    pub num_out_streams: usize,
    pub properties: Vec<u8>,
}

/// An edge from one coder's output to another coder's input.
#[derive(Clone, Copy, Debug, PartialEq, Eq, Structural)]
pub struct BindPair {
    pub in_index: usize,
    pub out_index: usize,
}

/// One compressed substream: its coders, the wiring between them, which
/// inputs come from the packed region, the size of each coder output,
/// how many files share the substream, and its optional CRC.
#[derive(Clone, Debug, PartialEq, Eq)]
pub struct Folder {
    pub coders: Vec<Coder>,
    pub bind_pairs: Vec<BindPair>,
    pub packed_streams: Vec<usize>,
    pub unpack_sizes: Vec<u64>,
    pub num_unpack_substreams: u64,
    pub crc: Option<u32>,
}

/// Total number of coder inputs of the first `i` coders.
pub open spec fn total_in_streams(coders: Seq<Coder>, i: int) -> int
    decreases i,
{
    if i <= 0 {
        0
    } else {
        total_in_streams(coders, i - 1) + coders[i - 1].num_in_streams
    }
}

/// Total number of coder outputs of the first `i` coders.
pub open spec fn total_out_streams(coders: Seq<Coder>, i: int) -> int
    decreases i,
{
    if i <= 0 {
        0
    } else {
        total_out_streams(coders, i - 1) + coders[i - 1].num_out_streams
    }
}

/// Output totals only grow as more coders are counted.
pub proof fn lemma_total_out_monotone(coders: Seq<Coder>, i: int, j: int)
    requires
        0 <= i <= j,
    ensures
        total_out_streams(coders, i) <= total_out_streams(coders, j),
    decreases j - i,
{
    if i < j {
        lemma_total_out_monotone(coders, i, j - 1);
    }
}

impl Folder {
    /// All coder inputs, folder-wide.
    pub open spec fn num_in_total(self) -> int {
        total_in_streams(self.coders@, self.coders@.len() as int)
    }

    /// All coder outputs, folder-wide.
    pub open spec fn num_out_total(self) -> int {
        total_out_streams(self.coders@, self.coders@.len() as int)
    }

    /// Output `o` is consumed by some bind pair.
    pub open spec fn output_bound(self, o: int) -> bool {
        exists|j: int|
            0 <= j < self.bind_pairs@.len() && #[trigger] self.bind_pairs@[j].out_index == o
    }

    /// The structural invariant of a folder's wiring: every input is fed
    /// exactly once (by a bind pair or the packed region), one output per
    /// coder output size, and exactly one output is unbound.
    pub open spec fn wf(self) -> bool {
        &&& self.coders@.len() >= 1
        &&& self.bind_pairs@.len() + self.packed_streams@.len() == self.num_in_total()
        &&& self.unpack_sizes@.len() == self.num_out_total()
        &&& forall|j: int|
            0 <= j < self.bind_pairs@.len() ==> #[trigger] self.bind_pairs@[j].out_index
                < self.num_out_total() && self.bind_pairs@[j].in_index < self.num_in_total()
        &&& exists|o: int|
            0 <= o < self.num_out_total() && !self.output_bound(o) && (forall|o2: int|
                0 <= o2 < self.num_out_total() && !self.output_bound(o2) ==> o2 == o)
    }

    /// Whether some bind pair consumes output `o`.
    pub fn is_output_bound(&self, o: usize) -> (b: bool)
        ensures
            b == self.output_bound(o as int),
    {
        let mut j: usize = 0;
        while j < self.bind_pairs.len()
            invariant
                0 <= j <= self.bind_pairs@.len(),
                forall|k: int| 0 <= k < j ==> #[trigger] self.bind_pairs@[k].out_index != o,
            decreases self.bind_pairs@.len() - j,
        {
            if self.bind_pairs[j].out_index == o {
                return true;
            }
            j = j + 1;
        }
        false
    }

    /// Count the coder outputs, refusing a folder whose counts do not fit
    /// the machine.
    fn count_outputs(&self) -> (r: Result<usize, Error>)
        ensures
            r matches Ok(n) ==> n == self.num_out_total(),
            r matches Err(e) ==> e is MalformedHeader && self.num_out_total() > usize::MAX,
    {
        let mut total: usize = 0;
        let mut i: usize = 0;
        while i < self.coders.len()
            invariant
                0 <= i <= self.coders@.len(),
                total == total_out_streams(self.coders@, i as int),
            decreases self.coders@.len() - i,
        {
            total = match total.checked_add(self.coders[i].num_out_streams) {
                Some(t) => t,
                None => {
                    proof {
                        lemma_total_out_monotone(
                            self.coders@,
                            i as int + 1,
                            self.coders@.len() as int,
                        );
                    }
                    return Err(Error::MalformedHeader("too many output streams".to_owned()));
                },
            };
            i = i + 1;
        }
        Ok(total)
    }

    /// The folder's uncompressed output: the single coder output no bind
    /// pair consumes. A folder whose graph leaves none or several outputs
    /// unbound is malformed.
    pub fn find_unbound_output(&self) -> (r: Result<usize, Error>)
        ensures
            r matches Ok(o) ==> ({
                &&& 0 <= o < self.num_out_total()
                &&& !self.output_bound(o as int)
                &&& forall|o2: int|
                    0 <= o2 < self.num_out_total() && !self.output_bound(o2) ==> o2 == o
            }),
            r matches Err(e) ==> e is MalformedHeader && (self.num_out_total() > usize::MAX || !(
            exists|o: int|
                0 <= o < self.num_out_total() && !self.output_bound(o) && (forall|o2: int|
                    0 <= o2 < self.num_out_total() && !self.output_bound(o2) ==> o2 == o))),
    {
        let total = match self.count_outputs() {
            Ok(t) => t,
            Err(e) => return Err(e),
        };
        let mut found: Option<usize> = None;
        let mut o: usize = 0;
        while o < total
            invariant
                0 <= o <= total,
                total == self.num_out_total(),
                match found {
                    Some(f) => 0 <= f < o && !self.output_bound(f as int) && (forall|j: int|
                        0 <= j < o && !self.output_bound(j) ==> j == f),
                    None => forall|j: int| 0 <= j < o ==> self.output_bound(j),
                },
            decreases total - o,
        {
            if !self.is_output_bound(o) {
                match found {
                    Some(_) => {
                        return Err(
                            Error::MalformedHeader("more than one unbound output".to_owned()),
                        );
                    },
                    None => {
                        found = Some(o);
                    },
                }
            }
            o = o + 1;
        }
        match found {
            Some(f) => Ok(f),
            None => Err(Error::MalformedHeader("no unbound output".to_owned())),
        }
    }
}

} // verus!
