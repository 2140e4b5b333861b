//! Codec for the free-d camera-tracking wire protocol: typed payloads are
//! encoded into fixed-length big-endian frames with a trailing checksum, and
//! decoded back, with every step specified and verified.

pub mod checksum;
pub mod commands;
pub mod error;
pub mod flags;
pub mod message;
pub mod packed;
pub mod payloads;
pub mod status;

use vstd::prelude::*;

use crate::error::DeserialiseError;

verus! {

/// Camera id that addresses every camera at once.
pub const ALL_CAMERAS: u8 = 0xFF;

/// Encoding half of the codec contract: a value knows its exact wire bytes.
pub trait Serialise: Sized {
    /// The exact byte sequence this value encodes to.
    spec fn bytes(&self) -> Seq<u8>;

    /// Encodes this value; deterministic, total and pure.
    fn serialise(self) -> (r: Vec<u8>)
        ensures
            r@ == self.bytes(),
    ;
}

/// Decoding half of the codec contract: a byte buffer is turned back into a
/// typed value, or into a typed error.
pub trait Deserialise: Sized {
    /// The mathematical decoding of a byte sequence.
    spec fn spec_deserialise(s: Seq<u8>) -> Result<Self, DeserialiseError>;

    /// Decodes a byte buffer, returning exactly what the specification-level
    /// decoding says.
    fn deserialise(array: &[u8]) -> (r: Result<Self, DeserialiseError>)
        ensures
            r == Self::spec_deserialise(array@),
    ;
}

/// Construction of a value from a fixed number of big-endian bytes.
pub trait FromBytes<const A: usize>: Sized {
    /// The value the bytes decode to.
    spec fn spec_from_be_bytes(arr: [u8; A]) -> Self;

    /// Decodes the bytes.
    fn from_be_bytes(arr: [u8; A]) -> (r: Self)
        ensures
            r == Self::spec_from_be_bytes(arr),
    ;
}

/// Copies `arr` into the front of a larger zero-filled array.
pub fn extend_array<const A: usize, const B: usize>(arr: [u8; A]) -> (r: [u8; B])
    requires
        A <= B,
    ensures
        r@.subrange(0, A as int) == arr@,
        forall|i: int| A <= i < B ==> r@[i] == 0,
{
    let mut out: [u8; B] = [0; B];
    let mut i: usize = 0;
    while i < A
        invariant
            i <= A <= B,
            out@.len() == B,
            forall|j: int| 0 <= j < i ==> out@[j] == arr@[j],
            forall|j: int| i <= j < B ==> out@[j] == 0,
        decreases A - i,
    {
        out[i] = arr[i];
        i = i + 1;
    }
    proof {
        assert(out@.subrange(0, A as int) =~= arr@);
    }
    out
}

} // verus!
