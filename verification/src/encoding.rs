//! Byte encodings of the values that enter a digest.

use vstd::prelude::*;

verus! {

/// The `width` low-order bytes of `value`, least significant first.
pub open spec fn le_bytes(value: nat, width: nat) -> Seq<u8>
    decreases width,
{
    if width == 0 {
        Seq::empty()
    } else {
        seq![(value % 256) as u8] + le_bytes(value / 256, (width - 1) as nat)
    }
}

/// The eight bytes of an unsigned 64-bit number, least significant first.
pub open spec fn u64_le_bytes(value: u64) -> Seq<u8> {
    le_bytes(value as nat, 8)
}

/// The unsigned number with the same 64 bits as `value` in two's
/// complement.
pub open spec fn twos_complement(value: i64) -> nat {
    if value >= 0 {
        value as nat
    } else {
        (value + 0x1_0000_0000_0000_0000) as nat
    }
}

/// The eight bytes of a signed 64-bit number in two's complement, least
/// significant first.
pub open spec fn i64_le_bytes(value: i64) -> Seq<u8> {
    le_bytes(twos_complement(value), 8)
}

/// A little-endian encoding has as many bytes as its width.
pub proof fn lemma_le_bytes_len(value: nat, width: nat)
    ensures
        le_bytes(value, width).len() == width,
    decreases width,
{
    if width > 0 {
        lemma_le_bytes_len(value / 256, (width - 1) as nat);
    }
}

/// Appends the eight bytes of `value`, least significant first.
pub fn append_u64_le(out: &mut Vec<u8>, value: u64)
    ensures
        final(out)@ == old(out)@ + u64_le_bytes(value),
{
    let mut rest: u64 = value;
    let mut i: usize = 0;
    while i < 8
        invariant
            i <= 8,
            old(out)@ + le_bytes(value as nat, 8) == out@ + le_bytes(rest as nat, (8 - i) as nat),
        decreases 8 - i,
    {
        let byte: u8 = (rest % 256) as u8;
        let ghost before = out@;
        out.push(byte);
        proof {
            let tail = le_bytes((rest / 256) as nat, (8 - i - 1) as nat);
            assert(le_bytes(rest as nat, (8 - i) as nat) == seq![byte] + tail);
            assert(before + (seq![byte] + tail) =~= before.push(byte) + tail);
        }
        rest = rest / 256;
        i += 1;
    }
    assert(out@ + le_bytes(rest as nat, 0) =~= out@);
}

/// Appends the eight bytes of `value` in two's complement, least
/// significant first.
pub fn append_i64_le(out: &mut Vec<u8>, value: i64)
    ensures
        final(out)@ == old(out)@ + i64_le_bytes(value),
{
    let unsigned: u64 = if value >= 0 {
        value as u64
    } else {
        ((value as i128) + 0x1_0000_0000_0000_0000) as u64
    };
    append_u64_le(out, unsigned);
}

/// Appends 32 bytes.
pub fn append_bytes32(out: &mut Vec<u8>, bytes: &[u8; 32])
    ensures
        final(out)@ == old(out)@ + bytes@,
{
    let mut i: usize = 0;
    while i < 32
        invariant
            i <= 32,
            out@ == old(out)@ + bytes@.take(i as int),
        decreases 32 - i,
    {
        let ghost before = out@;
        out.push(bytes[i]);
        assert(out@ =~= old(out)@ + bytes@.take(i + 1));
        i += 1;
    }
    assert(bytes@.take(32) =~= bytes@);
}

} // verus!
