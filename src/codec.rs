use crate::vector::Hypervector;
use embeddenator_io::{from_bincode, to_bincode};
use embeddenator_vsa::SparseVec;
use vstd::arithmetic::power::pow;
use vstd::prelude::*;

verus! {

/// The eight little-endian bytes of a 64-bit integer.
pub open spec fn le_u64(n: nat) -> Seq<u8> {
    Seq::new(8, |i: int| ((n as int / pow(256, i as nat)) % 256) as u8)
}

/// Each index as eight little-endian bytes, in order.
pub open spec fn index_bytes(s: Seq<usize>) -> Seq<u8>
    decreases s.len(),
{
    if s.len() == 0 {
        Seq::empty()
    } else {
        index_bytes(s.drop_last()) + le_u64(s.last() as nat)
    }
}

/// A list of indices in bincode's fixed-width form: its length, then its items.
pub open spec fn list_bytes(s: Seq<usize>) -> Seq<u8> {
    le_u64(s.len()) + index_bytes(s)
}

/// The bincode bytes of a hypervector: its `pos` list, then its `neg` list.
pub open spec fn bincode_of(v: (Seq<usize>, Seq<usize>)) -> Seq<u8> {
    list_bytes(v.0) + list_bytes(v.1)
}

/// `r` is the successful serialisation of `v`.
pub open spec fn serialised(v: (Seq<usize>, Seq<usize>), r: Result<Vec<u8>, SerializeError>) -> bool {
    r is Ok && r->Ok_0@ == bincode_of(v)
}

/// `r` is what reading `b` back gives: the vector whose bytes `b` are.
pub open spec fn read_back(b: Seq<u8>, r: Result<Hypervector, SerializeError>) -> bool {
    forall|w: (Seq<usize>, Seq<usize>)|
        #![trigger bincode_of(w)]
        b == bincode_of(w) ==> (r is Ok && r->Ok_0@ == w)
}

/// Relies on `embeddenator_io::to_bincode` on `SparseVec`: bincode 1 with
/// fixed-width little-endian integers writes each `Vec<usize>` as its length
/// and items, eight bytes each; with known lengths and no size limit it does
/// not fail.
#[verifier::external_body]
fn to_bytes(v: &Hypervector) -> (r: Result<Vec<u8>, String>)
    ensures
        r is Ok,
        r->Ok_0@ == bincode_of(v@),
{
    let s = SparseVec { pos: v.pos.clone(), neg: v.neg.clone() };
    to_bincode(&s).map_err(|e| e.to_string())
}

/// Relies on `embeddenator_io::from_bincode` on `SparseVec`: bytes written by
/// bincode for a vector read back as that vector.
#[verifier::external_body]
fn from_bytes(b: &[u8]) -> (r: Result<Hypervector, String>)
    ensures
        forall|w: (Seq<usize>, Seq<usize>)|
            #![trigger bincode_of(w)]
            b@ == bincode_of(w) ==> (r is Ok && r->Ok_0@ == w),
{
    match from_bincode::<SparseVec>(b) {
        Ok(s) => Ok(Hypervector { pos: s.pos, neg: s.neg }),
        Err(e) => Err(e.to_string()),
    }
}

/// Why a vector could not be written or read as bytes.
#[derive(Debug, PartialEq, Eq)]
pub struct SerializeError {
    pub detail: String,
}

/// Serialises a vector to its persisted byte form: exactly its bincode bytes,
/// which are never empty.
pub fn serialise_vector(v: &Hypervector) -> (r: Result<Vec<u8>, SerializeError>)
    ensures
        serialised(v@, r),
        r is Ok && r->Ok_0@.len() >= 16,
{
    match to_bytes(v) {
        Ok(b) => Ok(b),
        Err(detail) => Err(SerializeError { detail }),
    }
}

/// Reads a vector back from its persisted byte form; the bytes of any vector
/// read back as that vector.
pub fn deserialise_vector(b: &[u8]) -> (r: Result<Hypervector, SerializeError>)
    ensures
        read_back(b@, r),
{
    match from_bytes(b) {
        Ok(v) => Ok(v),
        Err(detail) => Err(SerializeError { detail }),
    }
}

/// Serialising, reading back and serialising again succeeds each time and
/// gives the same bytes both times.
pub proof fn lemma_serialise_round_trip(
    v: Hypervector,
    first: Result<Vec<u8>, SerializeError>,
    back: Result<Hypervector, SerializeError>,
    second: Result<Vec<u8>, SerializeError>,
)
    requires
        serialised(v@, first),
        read_back(first->Ok_0@, back),
        back is Ok ==> serialised(back->Ok_0@, second),
    ensures
        back is Ok,
        back->Ok_0@ == v@,
        second is Ok,
        second->Ok_0@ == first->Ok_0@,
{
}

} // verus!
