//! Byte-level primitives of the canonical encoding: little-endian integer
//! fields, digest fields, and the lemmas tying them back to their values.

use crate::digest::H256;
use crate::u256::U256;
use vstd::prelude::*;

verus! {

/// The 32 little-endian bytes of a 256-bit field: its limbs in order, least
/// significant first.
pub open spec fn spec_u256_le(d: U256) -> Seq<u8> {
    spec_u64_le(d.l0) + spec_u64_le(d.l1) + spec_u64_le(d.l2) + spec_u64_le(d.l3)
}

/// The four little-endian bytes of a 32-bit field.
pub open spec fn spec_u32_le(x: u32) -> Seq<u8> {
    seq![
        (x % 0x100) as u8,
        ((x / 0x100) % 0x100) as u8,
        ((x / 0x10000) % 0x100) as u8,
        ((x / 0x1000000) % 0x100) as u8,
    ]
}

/// The eight little-endian bytes of a 64-bit field.
pub open spec fn spec_u64_le(x: u64) -> Seq<u8> {
    seq![
        (x % 0x100) as u8,
        ((x / 0x100) % 0x100) as u8,
        ((x / 0x10000) % 0x100) as u8,
        ((x / 0x1000000) % 0x100) as u8,
        ((x / 0x100000000) % 0x100) as u8,
        ((x / 0x10000000000) % 0x100) as u8,
        ((x / 0x1000000000000) % 0x100) as u8,
        ((x / 0x100000000000000) % 0x100) as u8,
    ]
}

/// The value a little-endian byte string denotes.
pub open spec fn le_bytes_val(s: Seq<u8>) -> nat
    decreases s.len(),
{
    if s.len() == 0 {
        0
    } else {
        s[0] as nat + 256 * le_bytes_val(s.subrange(1, s.len() as int))
    }
}

pub(crate) proof fn lemma_le_bytes_val_4(s: Seq<u8>)
    requires
        s.len() == 4,
    ensures
        le_bytes_val(s) == s[0] + s[1] * 0x100 + s[2] * 0x10000 + s[3] * 0x1000000,
        le_bytes_val(s) < 0x100000000,
{
    let s1 = s.subrange(1, 4);
    let s2 = s1.subrange(1, 3);
    let s3 = s2.subrange(1, 2);
    let s4 = s3.subrange(1, 1);
    assert(le_bytes_val(s4) == 0);
    assert(le_bytes_val(s3) == s3[0] + 256 * le_bytes_val(s4));
    assert(le_bytes_val(s2) == s2[0] + 256 * le_bytes_val(s3));
    assert(le_bytes_val(s1) == s1[0] + 256 * le_bytes_val(s2));
    assert(le_bytes_val(s) == s[0] + 256 * le_bytes_val(s1));
}

pub(crate) proof fn lemma_le_bytes_val_8(s: Seq<u8>)
    requires
        s.len() == 8,
    ensures
        le_bytes_val(s) == s[0] + s[1] * 0x100 + s[2] * 0x10000 + s[3] * 0x1000000 + s[4]
            * 0x100000000 + s[5] * 0x10000000000 + s[6] * 0x1000000000000 + s[7]
            * 0x100000000000000,
        le_bytes_val(s) < 0x10000000000000000,
{
    let s1 = s.subrange(1, 8);
    let s2 = s1.subrange(1, 7);
    let s3 = s2.subrange(1, 6);
    let s4 = s3.subrange(1, 5);
    let s5 = s4.subrange(1, 4);
    let s6 = s5.subrange(1, 3);
    let s7 = s6.subrange(1, 2);
    let s8 = s7.subrange(1, 1);
    assert(le_bytes_val(s8) == 0);
    assert(le_bytes_val(s7) == s7[0] + 256 * le_bytes_val(s8));
    assert(le_bytes_val(s6) == s6[0] + 256 * le_bytes_val(s7));
    assert(le_bytes_val(s5) == s5[0] + 256 * le_bytes_val(s6));
    assert(le_bytes_val(s4) == s4[0] + 256 * le_bytes_val(s5));
    assert(le_bytes_val(s3) == s3[0] + 256 * le_bytes_val(s4));
    assert(le_bytes_val(s2) == s2[0] + 256 * le_bytes_val(s3));
    assert(le_bytes_val(s1) == s1[0] + 256 * le_bytes_val(s2));
    assert(le_bytes_val(s) == s[0] + 256 * le_bytes_val(s1));
}

/// Reading back the four little-endian bytes of a 32-bit field yields the
/// field value.
pub(crate) proof fn lemma_u32_le_val(x: u32)
    ensures
        le_bytes_val(spec_u32_le(x)) == x,
{
    let s = spec_u32_le(x);
    lemma_le_bytes_val_4(s);
    assert(x == x % 0x100 + (x / 0x100 % 0x100) * 0x100 + (x / 0x10000 % 0x100) * 0x10000 + (x
        / 0x1000000 % 0x100) * 0x1000000) by (bit_vector);
}

/// Reading back the eight little-endian bytes of a 64-bit field yields the
/// field value.
pub(crate) proof fn lemma_u64_le_val(x: u64)
    ensures
        le_bytes_val(spec_u64_le(x)) == x,
{
    let s = spec_u64_le(x);
    lemma_le_bytes_val_8(s);
    assert(x == x % 0x100 + (x / 0x100 % 0x100) * 0x100 + (x / 0x10000 % 0x100) * 0x10000 + (x
        / 0x1000000 % 0x100) * 0x1000000 + (x / 0x100000000 % 0x100) * 0x100000000 + (x
        / 0x10000000000 % 0x100) * 0x10000000000 + (x / 0x1000000000000 % 0x100) * 0x1000000000000
        + (x / 0x100000000000000 % 0x100) * 0x100000000000000) by (bit_vector);
}

/// Appends the four little-endian bytes of a 32-bit field.
pub(crate) fn push_u32_le(v: &mut Vec<u8>, x: u32)
    ensures
        final(v)@ == old(v)@ + spec_u32_le(x),
{
    v.push((x % 0x100) as u8);
    v.push(((x / 0x100) % 0x100) as u8);
    v.push(((x / 0x10000) % 0x100) as u8);
    v.push(((x / 0x1000000) % 0x100) as u8);
    proof {
        assert(v@ =~= old(v)@ + spec_u32_le(x));
    }
}

/// Appends the eight little-endian bytes of a 64-bit field.
pub(crate) fn push_u64_le(v: &mut Vec<u8>, x: u64)
    ensures
        final(v)@ == old(v)@ + spec_u64_le(x),
{
    v.push((x % 0x100) as u8);
    v.push(((x / 0x100) % 0x100) as u8);
    v.push(((x / 0x10000) % 0x100) as u8);
    v.push(((x / 0x1000000) % 0x100) as u8);
    v.push(((x / 0x100000000) % 0x100) as u8);
    v.push(((x / 0x10000000000) % 0x100) as u8);
    v.push(((x / 0x1000000000000) % 0x100) as u8);
    v.push(((x / 0x100000000000000) % 0x100) as u8);
    proof {
        assert(v@ =~= old(v)@ + spec_u64_le(x));
    }
}

/// Appends the 32 bytes of a digest field.
pub(crate) fn push_digest(v: &mut Vec<u8>, d: &H256)
    ensures
        final(v)@ == old(v)@ + d@,
{
    let mut i: usize = 0;
    while i < 32
        invariant
            i <= 32,
            v@ == old(v)@ + d@.subrange(0, i as int),
        decreases 32 - i,
    {
        v.push(d.bytes[i]);
        proof {
            assert(v@ =~= old(v)@ + d@.subrange(0, i + 1));
        }
        i = i + 1;
    }
    proof {
        assert(v@ =~= old(v)@ + d@);
    }
}

/// Appends a byte string.
pub(crate) fn push_bytes(v: &mut Vec<u8>, b: &[u8])
    ensures
        final(v)@ == old(v)@ + b@,
{
    let n: usize = b.len();
    let mut i: usize = 0;
    while i < n
        invariant
            i <= n == b@.len(),
            v@ == old(v)@ + b@.subrange(0, i as int),
        decreases n - i,
    {
        v.push(b[i]);
        proof {
            assert(v@ =~= old(v)@ + b@.subrange(0, i + 1));
        }
        i = i + 1;
    }
    proof {
        assert(v@ =~= old(v)@ + b@);
    }
}

/// Reads a 32-bit little-endian field.
pub(crate) fn read_u32_le(bytes: &[u8], offset: usize) -> (r: u32)
    requires
        offset + 4 <= bytes@.len(),
    ensures
        r == le_bytes_val(bytes@.subrange(offset as int, offset as int + 4)),
{
    let _n: usize = bytes.len();
    let b0: u32 = bytes[offset] as u32;
    let b1: u32 = bytes[offset + 1] as u32;
    let b2: u32 = bytes[offset + 2] as u32;
    let b3: u32 = bytes[offset + 3] as u32;
    let r: u32 = b0 + b1 * 0x100 + b2 * 0x10000 + b3 * 0x1000000;
    proof {
        lemma_le_bytes_val_4(bytes@.subrange(offset as int, offset as int + 4));
    }
    r
}

/// Reads a 64-bit little-endian field.
pub(crate) fn read_u64_le(bytes: &[u8], offset: usize) -> (r: u64)
    requires
        offset + 8 <= bytes@.len(),
    ensures
        r == le_bytes_val(bytes@.subrange(offset as int, offset as int + 8)),
{
    let _n: usize = bytes.len();
    let b0: u64 = bytes[offset] as u64;
    let b1: u64 = bytes[offset + 1] as u64;
    let b2: u64 = bytes[offset + 2] as u64;
    let b3: u64 = bytes[offset + 3] as u64;
    let b4: u64 = bytes[offset + 4] as u64;
    let b5: u64 = bytes[offset + 5] as u64;
    let b6: u64 = bytes[offset + 6] as u64;
    let b7: u64 = bytes[offset + 7] as u64;
    let r: u64 = b0 + b1 * 0x100 + b2 * 0x10000 + b3 * 0x1000000 + b4 * 0x100000000 + b5
        * 0x10000000000 + b6 * 0x1000000000000 + b7 * 0x100000000000000;
    proof {
        lemma_le_bytes_val_8(bytes@.subrange(offset as int, offset as int + 8));
    }
    r
}

} // verus!
