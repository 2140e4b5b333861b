//! The frame checksum: a running subtraction, modulo 256, from the seed 0x40.

use vstd::prelude::*;

verus! {

/// One checksum step: subtract a byte from the accumulator, modulo 256.
pub open spec fn byte_sub(acc: u8, byte: u8) -> u8 {
    (((acc as int) - (byte as int)) % 256) as u8
}

/// Checksum of a byte sequence: start from 0x40 and subtract every byte in
/// turn, modulo 256.
pub open spec fn checksum_of(s: Seq<u8>) -> u8
    decreases s.len(),
{
    if s.len() == 0 {
        0x40
    } else {
        byte_sub(checksum_of(s.drop_last()), s.last())
    }
}

/// Computes the checksum of `serialised`: the accumulator starts at 0x40 and
/// every byte is subtracted from it in turn, modulo 256.
pub fn generate_checksum(serialised: &[u8]) -> (r: u8)
    ensures
        r == checksum_of(serialised@),
{
    let mut acc: u8 = 0x40;
    let mut i: usize = 0;
    while i < serialised.len()
        invariant
            i <= serialised@.len(),
            acc == checksum_of(serialised@.take(i as int)),
        decreases serialised@.len() - i,
    {
        let byte = serialised[i];
        proof {
            assert(serialised@.take(i + 1).drop_last() =~= serialised@.take(i as int));
            assert(serialised@.take(i + 1).last() == serialised@[i as int]);
        }
        acc = sub_mod256(acc, byte);
        i = i + 1;
    }
    proof {
        assert(serialised@.take(serialised@.len() as int) =~= serialised@);
    }
    acc
}

/// The integer sum of a byte sequence.
pub open spec fn sum_of(s: Seq<u8>) -> int
    decreases s.len(),
{
    if s.len() == 0 {
        0
    } else {
        sum_of(s.drop_last()) + s.last()
    }
}

/// The checksum in closed form: the seed 0x40 minus the byte sum, modulo 256.
pub proof fn lemma_checksum_closed_form(s: Seq<u8>)
    ensures
        checksum_of(s) == ((0x40 - sum_of(s)) % 256) as u8,
    decreases s.len(),
{
    if s.len() == 0 {
    } else {
        let d = s.drop_last();
        let last = s.last();
        lemma_checksum_closed_form(d);
        let a = 0x40 - sum_of(d);
        vstd::arithmetic::div_mod::lemma_mod_bound(a, 256);
        vstd::arithmetic::div_mod::lemma_small_mod(last as nat, 256);
        vstd::arithmetic::div_mod::lemma_sub_mod_noop(a, last as int, 256);
        assert(((a % 256) - (last as int) % 256) % 256 == (a - last) % 256);
        vstd::arithmetic::div_mod::lemma_mod_bound(a - last, 256);
    }
}

/// Replacing one byte of a sequence changes its sum by the difference of the
/// bytes.
pub proof fn lemma_sum_update(s: Seq<u8>, i: int, b: u8)
    requires
        0 <= i < s.len(),
    ensures
        sum_of(s.update(i, b)) == sum_of(s) - s[i] + b,
    decreases s.len(),
{
    let t = s.update(i, b);
    if i == s.len() - 1 {
        assert(t.drop_last() =~= s.drop_last());
    } else {
        assert(t.drop_last() =~= s.drop_last().update(i, b));
        lemma_sum_update(s.drop_last(), i, b);
    }
}

/// Changing any single byte of a sequence changes its checksum: the checksum
/// moves by the difference of the bytes, which is never a multiple of 256.
pub proof fn lemma_checksum_detects_single_flip(s: Seq<u8>, i: int, b: u8)
    requires
        0 <= i < s.len(),
        b != s[i],
    ensures
        checksum_of(s.update(i, b)) != checksum_of(s),
{
    let t = s.update(i, b);
    lemma_checksum_closed_form(s);
    lemma_checksum_closed_form(t);
    lemma_sum_update(s, i, b);
    let x = 0x40 - sum_of(s);
    let d = (s[i] as int) - (b as int);
    assert(0x40 - sum_of(t) == x + d);
    vstd::arithmetic::div_mod::lemma_mod_bound(x, 256);
    vstd::arithmetic::div_mod::lemma_mod_bound(x + d, 256);
    vstd::arithmetic::div_mod::lemma_mod_equivalence(x + d, x, 256);
    if d > 0 {
        vstd::arithmetic::div_mod::lemma_small_mod(d as nat, 256);
    } else {
        vstd::arithmetic::div_mod::lemma_mod_add_multiples_vanish(d, 256);
        vstd::arithmetic::div_mod::lemma_small_mod((d + 256) as nat, 256);
    }
    assert(d % 256 != 0);
}

/// One executable checksum step, equal to the spec-level `byte_sub`.
fn sub_mod256(acc: u8, byte: u8) -> (r: u8)
    ensures
        r == byte_sub(acc, byte),
{
    let r = acc.wrapping_sub(byte);
    proof {
        assert(r == (((acc as int) - (byte as int)) % 256) as u8) by (bit_vector)
            requires
                r == (if acc >= byte {
                    (acc - byte) as u8
                } else {
                    (acc + 256 - byte) as u8
                }),
        ;
    }
    r
}

} // verus!
