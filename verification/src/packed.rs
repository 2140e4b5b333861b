//! 24-bit packed integers. The protocol transmits most numeric fields as
//! exactly three big-endian bytes holding the low 24 bits of a 32-bit
//! two's-complement value; no native primitive has that width, so `u24` and
//! `i24` wrap a 32-bit integer with range validation on construction.

use vstd::prelude::*;

use crate::error::DeserialiseError;

verus! {

/// The three big-endian bytes of the low 24 bits of `v`.
pub open spec fn be3(v: u32) -> Seq<u8> {
    seq![((v >> 16) & 0xFF) as u8, ((v >> 8) & 0xFF) as u8, (v & 0xFF) as u8]
}

/// The unsigned value held by three big-endian bytes.
pub open spec fn from_be3(b0: u8, b1: u8, b2: u8) -> u32 {
    ((b0 as u32) << 16) | ((b1 as u32) << 8) | (b2 as u32)
}

/// The two big-endian bytes of `v`.
pub open spec fn be2(v: u16) -> Seq<u8> {
    seq![((v >> 8) & 0xFF) as u8, (v & 0xFF) as u8]
}

/// The unsigned value held by two big-endian bytes.
pub open spec fn from_be2(b0: u8, b1: u8) -> u16 {
    ((b0 as u16) << 8) | (b1 as u16)
}

/// The low 24 bits of the 32-bit two's-complement representation of `v`, as
/// an unsigned value; meaningful for `v` in the signed 24-bit range.
pub open spec fn i24_to_bits(v: i32) -> u32 {
    if v >= 0 {
        v as u32
    } else {
        (v + 0x1000000) as u32
    }
}

/// The signed value whose low 24 two's-complement bits are `n`: bit 23 is the
/// sign and is extended. Meaningful for `n` below 2^24.
pub open spec fn i24_from_bits(n: u32) -> i32 {
    if n < 0x800000 {
        n as i32
    } else {
        (n - 0x1000000) as i32
    }
}

/// Decoding the three big-endian bytes of an unsigned 24-bit value yields the
/// value back.
pub proof fn lemma_u24_roundtrip(v: u32)
    requires
        v <= 0xFFFFFF,
    ensures
        from_be3(be3(v)[0], be3(v)[1], be3(v)[2]) == v,
{
    let b0 = ((v >> 16) & 0xFF) as u8;
    let b1 = ((v >> 8) & 0xFF) as u8;
    let b2 = (v & 0xFF) as u8;
    assert(((b0 as u32) << 16) | ((b1 as u32) << 8) | (b2 as u32) == v) by (bit_vector)
        requires
            b0 == ((v >> 16) & 0xFF) as u8,
            b1 == ((v >> 8) & 0xFF) as u8,
            b2 == (v & 0xFF) as u8,
            v <= 0xFFFFFF,
    ;
}

/// Re-encoding the unsigned value held by three bytes yields the same bytes.
pub proof fn lemma_be3_of_from_be3(b0: u8, b1: u8, b2: u8)
    ensures
        be3(from_be3(b0, b1, b2)) == seq![b0, b1, b2],
{
    let n = from_be3(b0, b1, b2);
    assert(((n >> 16) & 0xFF) as u8 == b0 && ((n >> 8) & 0xFF) as u8 == b1 && (n & 0xFF) as u8
        == b2) by (bit_vector)
        requires
            n == ((b0 as u32) << 16) | ((b1 as u32) << 8) | (b2 as u32),
    ;
    assert(be3(n) =~= seq![b0, b1, b2]);
}

/// Three bytes always hold an unsigned value below 2^24.
pub proof fn lemma_from_be3_bound(b0: u8, b1: u8, b2: u8)
    ensures
        from_be3(b0, b1, b2) <= 0xFFFFFF,
{
    assert(((b0 as u32) << 16) | ((b1 as u32) << 8) | (b2 as u32) <= 0xFFFFFF) by (bit_vector);
}

/// Decoding the two big-endian bytes of a 16-bit value yields the value back.
pub proof fn lemma_u16_roundtrip(v: u16)
    ensures
        from_be2(be2(v)[0], be2(v)[1]) == v,
{
    let b0 = ((v >> 8) & 0xFF) as u8;
    let b1 = (v & 0xFF) as u8;
    assert(((b0 as u16) << 8) | (b1 as u16) == v) by (bit_vector)
        requires
            b0 == ((v >> 8) & 0xFF) as u8,
            b1 == (v & 0xFF) as u8,
    ;
}

/// Re-encoding the 16-bit value held by two bytes yields the same bytes.
pub proof fn lemma_be2_of_from_be2(b0: u8, b1: u8)
    ensures
        be2(from_be2(b0, b1)) == seq![b0, b1],
{
    let n = from_be2(b0, b1);
    assert(((n >> 8) & 0xFF) as u8 == b0 && (n & 0xFF) as u8 == b1) by (bit_vector)
        requires
            n == ((b0 as u16) << 8) | (b1 as u16),
    ;
    assert(be2(n) =~= seq![b0, b1]);
}

/// Sign-extending the low 24 bits of a signed 24-bit value yields the value
/// back, and those bits always fit in three bytes.
pub proof fn lemma_i24_roundtrip(v: i32)
    requires
        -0x800000 <= v < 0x800000,
    ensures
        i24_to_bits(v) <= 0xFFFFFF,
        i24_from_bits(i24_to_bits(v)) == v,
{
}

/// Taking the low 24 bits of a sign-extended 24-bit pattern yields the
/// pattern back, and the signed value is always in the signed 24-bit range.
pub proof fn lemma_i24_bits_roundtrip(n: u32)
    requires
        n <= 0xFFFFFF,
    ensures
        -0x800000 <= i24_from_bits(n) < 0x800000,
        i24_to_bits(i24_from_bits(n)) == n,
{
}

/// An unsigned 24-bit integer: a `u32` constrained to [0, 2^24 - 1].
#[allow(non_camel_case_types)]
#[derive(Clone, Copy, Debug, PartialEq, Eq, Structural)]
pub struct u24 {
    v: u32,
}

/// A signed 24-bit integer: an `i32` constrained to [-2^23, 2^23 - 1].
#[allow(non_camel_case_types)]
#[derive(Clone, Copy, Debug, PartialEq, Eq, Structural)]
pub struct i24 {
    v: i32,
}

impl View for u24 {
    type V = u32;

    closed spec fn view(&self) -> u32 {
        self.v
    }
}

impl View for i24 {
    type V = i32;

    closed spec fn view(&self) -> i32 {
        self.v
    }
}

impl u24 {
    #[verifier::type_invariant]
    spec fn type_inv(self) -> bool {
        self.v <= 0xFFFFFF
    }

    /// The `u24` holding `v`; meaningful for `v` up to 2^24 - 1.
    pub closed spec fn spec_from(v: u32) -> u24 {
        u24 { v }
    }

    /// Whether the held value is in the unsigned 24-bit range. Values built
    /// by this module's constructors always are.
    pub open spec fn in_range(self) -> bool {
        self@ <= 0xFFFFFF
    }

    /// Constructs a `u24`, failing with a `RangeError` when `value` does not
    /// fit in 24 bits.
    pub fn new(value: u32) -> (r: Result<u24, DeserialiseError>)
        ensures
            value <= 0xFFFFFF ==> r == Ok::<u24, DeserialiseError>(u24::spec_from(value)),
            value > 0xFFFFFF ==> r == Err::<u24, DeserialiseError>(
                DeserialiseError::RangeError { value: value as i64, min: 0, max: 0xFFFFFF },
            ),
    {
        if value <= 0xFFFFFF {
            Ok(u24 { v: value })
        } else {
            Err(DeserialiseError::RangeError { value: value as i64, min: 0, max: 0xFFFFFF })
        }
    }

    /// The held value.
    pub fn value(self) -> (r: u32)
        ensures
            r == self@,
            r <= 0xFFFFFF,
    {
        proof {
            use_type_invariant(self);
        }
        self.v
    }

    /// Appends the three big-endian bytes of this value.
    pub fn encode_onto(self, out: &mut Vec<u8>)
        ensures
            final(out)@ == old(out)@ + be3(self@),
    {
        proof {
            use_type_invariant(self);
        }
        out.push(((self.v >> 16) & 0xFF) as u8);
        out.push(((self.v >> 8) & 0xFF) as u8);
        out.push((self.v & 0xFF) as u8);
        proof {
            assert(out@ =~= old(out)@ + be3(self@));
        }
    }
}

impl i24 {
    #[verifier::type_invariant]
    spec fn type_inv(self) -> bool {
        -0x800000 <= self.v < 0x800000
    }

    /// The `i24` holding `v`; meaningful for `v` in the signed 24-bit range.
    pub closed spec fn spec_from(v: i32) -> i24 {
        i24 { v }
    }

    /// Whether the held value is in the signed 24-bit range. Values built by
    /// this module's constructors always are.
    pub open spec fn in_range(self) -> bool {
        -0x800000 <= self@ < 0x800000
    }

    /// Constructs an `i24`, failing with a `RangeError` when `value` does not
    /// fit in 24 bits.
    pub fn new(value: i32) -> (r: Result<i24, DeserialiseError>)
        ensures
            -0x800000 <= value < 0x800000 ==> r == Ok::<i24, DeserialiseError>(
                i24::spec_from(value),
            ),
            !(-0x800000 <= value < 0x800000) ==> r == Err::<i24, DeserialiseError>(
                DeserialiseError::RangeError {
                    value: value as i64,
                    min: -0x800000i64,
                    max: 0x7FFFFFi64,
                },
            ),
    {
        if -0x800000 <= value && value < 0x800000 {
            Ok(i24 { v: value })
        } else {
            Err(DeserialiseError::RangeError { value: value as i64, min: -0x800000i64, max: 0x7FFFFF })
        }
    }

    /// The held value.
    pub fn value(self) -> (r: i32)
        ensures
            r == self@,
            -0x800000 <= r < 0x800000,
    {
        proof {
            use_type_invariant(self);
        }
        self.v
    }

    /// Appends the three big-endian bytes of the low 24 two's-complement bits
    /// of this value.
    pub fn encode_onto(self, out: &mut Vec<u8>)
        ensures
            final(out)@ == old(out)@ + be3(i24_to_bits(self@)),
    {
        proof {
            use_type_invariant(self);
        }
        let bits: u32 = if self.v >= 0 {
            self.v as u32
        } else {
            (self.v + 0x1000000) as u32
        };
        out.push(((bits >> 16) & 0xFF) as u8);
        out.push(((bits >> 8) & 0xFF) as u8);
        out.push((bits & 0xFF) as u8);
        proof {
            assert(out@ =~= old(out)@ + be3(i24_to_bits(self@)));
        }
    }
}

impl Default for u24 {
    /// The zero value.
    fn default() -> (r: Self)
        ensures
            r == u24::spec_from(0),
    {
        u24 { v: 0 }
    }
}

impl Default for i24 {
    /// The zero value.
    fn default() -> (r: Self)
        ensures
            r == i24::spec_from(0),
    {
        i24 { v: 0 }
    }
}

/// Two `u24` values holding the same number are the same value.
pub proof fn lemma_u24_eq(a: u24, b: u24)
    requires
        a@ == b@,
    ensures
        a == b,
{
}

/// Two `i24` values holding the same number are the same value.
pub proof fn lemma_i24_eq(a: i24, b: i24)
    requires
        a@ == b@,
    ensures
        a == b,
{
}

/// The value held by `u24::spec_from` is its argument.
pub proof fn lemma_u24_spec_from(v: u32)
    ensures
        u24::spec_from(v)@ == v,
{
}

/// The value held by `i24::spec_from` is its argument.
pub proof fn lemma_i24_spec_from(v: i32)
    ensures
        i24::spec_from(v)@ == v,
{
}

/// Reads an unsigned 24-bit field from three big-endian bytes of a slice.
pub fn read_u24(a: &[u8], off: usize) -> (r: u24)
    requires
        off + 3 <= a@.len(),
    ensures
        r == u24::spec_from(from_be3(a@[off as int], a@[off as int + 1], a@[off as int + 2])),
{
    let b0 = a[off];
    let b1 = a[off + 1];
    let b2 = a[off + 2];
    proof {
        lemma_from_be3_bound(b0, b1, b2);
    }
    u24 { v: ((b0 as u32) << 16) | ((b1 as u32) << 8) | (b2 as u32) }
}

/// Reads a signed 24-bit field from three big-endian bytes of a slice,
/// sign-extending from bit 23.
pub fn read_i24(a: &[u8], off: usize) -> (r: i24)
    requires
        off + 3 <= a@.len(),
    ensures
        r == i24::spec_from(
            i24_from_bits(from_be3(a@[off as int], a@[off as int + 1], a@[off as int + 2])),
        ),
{
    let b0 = a[off];
    let b1 = a[off + 1];
    let b2 = a[off + 2];
    proof {
        lemma_from_be3_bound(b0, b1, b2);
    }
    let n: u32 = ((b0 as u32) << 16) | ((b1 as u32) << 8) | (b2 as u32);
    let value: i32 = if n < 0x800000 {
        n as i32
    } else {
        (n as i32) - 0x1000000
    };
    i24 { v: value }
}

/// Reads a 16-bit field from two big-endian bytes of a slice.
pub fn read_u16(a: &[u8], off: usize) -> (r: u16)
    requires
        off + 2 <= a@.len(),
    ensures
        r == from_be2(a@[off as int], a@[off as int + 1]),
{
    let b0 = a[off];
    let b1 = a[off + 1];
    ((b0 as u16) << 8) | (b1 as u16)
}

/// Appends the two big-endian bytes of a 16-bit value.
pub fn encode_u16_onto(v: u16, out: &mut Vec<u8>)
    ensures
        final(out)@ == old(out)@ + be2(v),
{
    out.push(((v >> 8) & 0xFF) as u8);
    out.push((v & 0xFF) as u8);
    proof {
        assert(out@ =~= old(out)@ + be2(v));
    }
}

impl crate::FromBytes<3> for u24 {
    open spec fn spec_from_be_bytes(arr: [u8; 3]) -> Self {
        u24::spec_from(from_be3(arr[0], arr[1], arr[2]))
    }

    /// Decodes three big-endian bytes, zero-extending into 32 bits.
    fn from_be_bytes(arr: [u8; 3]) -> (r: Self) {
        let b0 = arr[0];
        let b1 = arr[1];
        let b2 = arr[2];
        proof {
            lemma_from_be3_bound(b0, b1, b2);
        }
        u24 { v: ((b0 as u32) << 16) | ((b1 as u32) << 8) | (b2 as u32) }
    }
}

impl crate::FromBytes<3> for i24 {
    open spec fn spec_from_be_bytes(arr: [u8; 3]) -> Self {
        i24::spec_from(i24_from_bits(from_be3(arr[0], arr[1], arr[2])))
    }

    /// Decodes three big-endian bytes, sign-extending from bit 23.
    fn from_be_bytes(arr: [u8; 3]) -> (r: Self) {
        let b0 = arr[0];
        let b1 = arr[1];
        let b2 = arr[2];
        proof {
            lemma_from_be3_bound(b0, b1, b2);
        }
        let n: u32 = ((b0 as u32) << 16) | ((b1 as u32) << 8) | (b2 as u32);
        let value: i32 = if n < 0x800000 {
            n as i32
        } else {
            (n as i32) - 0x1000000
        };
        i24 { v: value }
    }
}

/// An RMS error reading; each unit is 1/32768th of a pixel.
#[derive(Clone, Copy, Debug, PartialEq, Eq)]
pub struct Pixel32768th(pub u24);

/// A camera-control distance; each unit is 1/64th of a millimetre.
#[derive(Clone, Copy, Debug, PartialEq, Eq)]
pub struct Millimetre64th(pub i24);

/// A position reading; each unit is 1/32768th of a millimetre.
#[derive(Clone, Copy, Debug, PartialEq, Eq)]
pub struct Millimetre32768th(pub i24);

} // verus!
