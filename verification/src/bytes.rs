//! Little-endian integer layouts and byte-buffer helpers shared by the codecs.
use vstd::prelude::*;

verus! {

/// The unsigned value of two little-endian bytes.
pub open spec fn le_u16(low: u8, high: u8) -> u16 {
    ((low as u16) | ((high as u16) << 8u16)) as u16
}

/// The two little-endian bytes of a 16-bit value.
pub open spec fn u16_le_bytes(value: u16) -> Seq<u8> {
    seq![(value & 0xFFu16) as u8, ((value >> 8u16) & 0xFFu16) as u8]
}

/// The unsigned value of eight little-endian bytes.
pub open spec fn le_u64(bytes: Seq<u8>) -> u64 {
    ((bytes[0] as u64) | ((bytes[1] as u64) << 8u64) | ((bytes[2] as u64) << 16u64) | ((
    bytes[3] as u64) << 24u64) | ((bytes[4] as u64) << 32u64) | ((bytes[5] as u64) << 40u64) | ((
    bytes[6] as u64) << 48u64) | ((bytes[7] as u64) << 56u64)) as u64
}

/// The byte of `value` at position `index` (0 is the least significant byte).
pub open spec fn u64_byte(value: u64, index: u64) -> u8 {
    ((value >> (8 * index) as u64) & 0xFFu64) as u8
}

/// The eight little-endian bytes of a 64-bit value.
pub open spec fn u64_le_bytes(value: u64) -> Seq<u8> {
    seq![
        u64_byte(value, 0),
        u64_byte(value, 1),
        u64_byte(value, 2),
        u64_byte(value, 3),
        u64_byte(value, 4),
        u64_byte(value, 5),
        u64_byte(value, 6),
        u64_byte(value, 7),
    ]
}

/// Reading back the bytes of a 16-bit value gives the value.
pub proof fn lemma_u16_round_trip(value: u16)
    ensures
        u16_le_bytes(value).len() == 2,
        le_u16(u16_le_bytes(value)[0], u16_le_bytes(value)[1]) == value,
{
    assert(((((value & 0xFFu16) as u8) as u16) | (((((value >> 8u16) & 0xFFu16) as u8) as u16)
        << 8u16)) == value) by (bit_vector);
}

/// The bytes of the value of two bytes are those two bytes.
pub proof fn lemma_u16_bytes_of_value(low: u8, high: u8)
    ensures
        u16_le_bytes(le_u16(low, high)) == seq![low, high],
{
    let v = le_u16(low, high);
    assert((((low as u16) | ((high as u16) << 8u16)) & 0xFFu16) as u8 == low) by (bit_vector);
    assert(((((low as u16) | ((high as u16) << 8u16)) >> 8u16) & 0xFFu16) as u8 == high)
        by (bit_vector);
    assert(u16_le_bytes(v) =~= seq![low, high]);
}

/// Reading back the bytes of a 64-bit value gives the value.
pub proof fn lemma_u64_round_trip(value: u64)
    ensures
        u64_le_bytes(value).len() == 8,
        le_u64(u64_le_bytes(value)) == value,
{
    let b = u64_le_bytes(value);
    assert(b[0] == ((value >> 0u64) & 0xFFu64) as u8);
    assert(b[1] == ((value >> 8u64) & 0xFFu64) as u8);
    assert(b[2] == ((value >> 16u64) & 0xFFu64) as u8);
    assert(b[3] == ((value >> 24u64) & 0xFFu64) as u8);
    assert(b[4] == ((value >> 32u64) & 0xFFu64) as u8);
    assert(b[5] == ((value >> 40u64) & 0xFFu64) as u8);
    assert(b[6] == ((value >> 48u64) & 0xFFu64) as u8);
    assert(b[7] == ((value >> 56u64) & 0xFFu64) as u8);
    assert(((((value >> 0u64) & 0xFFu64) as u8) as u64 | (((((value >> 8u64) & 0xFFu64) as u8)
        as u64) << 8u64) | (((((value >> 16u64) & 0xFFu64) as u8) as u64) << 16u64) | (((((value
        >> 24u64) & 0xFFu64) as u8) as u64) << 24u64) | (((((value >> 32u64) & 0xFFu64) as u8)
        as u64) << 32u64) | (((((value >> 40u64) & 0xFFu64) as u8) as u64) << 40u64) | (((((value
        >> 48u64) & 0xFFu64) as u8) as u64) << 48u64) | (((((value >> 56u64) & 0xFFu64) as u8)
        as u64) << 56u64)) == value) by (bit_vector);
}

/// The bytes of the value of eight bytes are those eight bytes.
pub proof fn lemma_u64_bytes_of_value(bytes: Seq<u8>)
    requires
        bytes.len() == 8,
    ensures
        u64_le_bytes(le_u64(bytes)) == bytes,
{
    let (b0, b1, b2, b3, b4, b5, b6, b7) = (
        bytes[0],
        bytes[1],
        bytes[2],
        bytes[3],
        bytes[4],
        bytes[5],
        bytes[6],
        bytes[7],
    );
    let v = le_u64(bytes);
    assert(v == ((b0 as u64) | ((b1 as u64) << 8u64) | ((b2 as u64) << 16u64) | ((b3 as u64)
        << 24u64) | ((b4 as u64) << 32u64) | ((b5 as u64) << 40u64) | ((b6 as u64) << 48u64) | ((
    b7 as u64) << 56u64)));
    assert({
        let w = ((b0 as u64) | ((b1 as u64) << 8u64) | ((b2 as u64) << 16u64) | ((b3 as u64)
            << 24u64) | ((b4 as u64) << 32u64) | ((b5 as u64) << 40u64) | ((b6 as u64) << 48u64)
            | ((b7 as u64) << 56u64));
        &&& ((w >> 0u64) & 0xFFu64) as u8 == b0
        &&& ((w >> 8u64) & 0xFFu64) as u8 == b1
        &&& ((w >> 16u64) & 0xFFu64) as u8 == b2
        &&& ((w >> 24u64) & 0xFFu64) as u8 == b3
        &&& ((w >> 32u64) & 0xFFu64) as u8 == b4
        &&& ((w >> 40u64) & 0xFFu64) as u8 == b5
        &&& ((w >> 48u64) & 0xFFu64) as u8 == b6
        &&& ((w >> 56u64) & 0xFFu64) as u8 == b7
    }) by (bit_vector);
    assert(u64_le_bytes(v) =~= bytes);
}

/// The value of two little-endian bytes.
pub fn read_le_u16(low: u8, high: u8) -> (value: u16)
    ensures
        value == le_u16(low, high),
{
    (low as u16) | ((high as u16) << 8u16)
}

/// The value of eight little-endian bytes starting at `start`.
pub fn read_le_u64(bytes: &[u8], start: usize) -> (value: u64)
    requires
        start + 8 <= bytes@.len(),
    ensures
        value == le_u64(bytes@.subrange(start as int, start + 8)),
{
    let ghost window = bytes@.subrange(start as int, start + 8);
    assert(window[0] == bytes@[start as int]);
    assert(window[7] == bytes@[start + 7]);
    (bytes[start] as u64) | ((bytes[start + 1] as u64) << 8u64) | ((bytes[start + 2] as u64)
        << 16u64) | ((bytes[start + 3] as u64) << 24u64) | ((bytes[start + 4] as u64) << 32u64)
        | ((bytes[start + 5] as u64) << 40u64) | ((bytes[start + 6] as u64) << 48u64) | ((
    bytes[start + 7] as u64) << 56u64)
}

/// Appends the two little-endian bytes of `value`.
pub fn push_le_u16(out: &mut Vec<u8>, value: u16)
    ensures
        final(out)@ == old(out)@ + u16_le_bytes(value),
{
    out.push((value & 0xFF) as u8);
    out.push(((value >> 8u16) & 0xFF) as u8);
    assert(final(out)@ =~= old(out)@ + u16_le_bytes(value));
}

/// Appends the eight little-endian bytes of `value`.
pub fn push_le_u64(out: &mut Vec<u8>, value: u64)
    ensures
        final(out)@ == old(out)@ + u64_le_bytes(value),
{
    let mut index: u64 = 0;
    while index < 8
        invariant
            index <= 8,
            out@ == old(out)@ + u64_le_bytes(value).take(index as int),
        decreases 8 - index,
    {
        let byte = ((value >> (8 * index)) & 0xFF) as u8;
        assert(u64_le_bytes(value)[index as int] == u64_byte(value, index));
        out.push(byte);
        assert(u64_le_bytes(value).take(index + 1) =~= u64_le_bytes(value).take(index as int).push(
            u64_byte(value, index),
        ));
        index += 1;
    }
    assert(u64_le_bytes(value).take(8) =~= u64_le_bytes(value));
}

/// Appends every byte of `bytes`.
pub fn push_bytes(out: &mut Vec<u8>, bytes: &[u8])
    ensures
        final(out)@ == old(out)@ + bytes@,
{
    let mut index: usize = 0;
    while index < bytes.len()
        invariant
            index <= bytes@.len(),
            out@ == old(out)@ + bytes@.take(index as int),
        decreases bytes.len() - index,
    {
        out.push(bytes[index]);
        assert(bytes@.take(index + 1) =~= bytes@.take(index as int).push(bytes@[index as int]));
        index += 1;
    }
    assert(bytes@.take(bytes.len() as int) =~= bytes@);
}

/// A fresh vector holding `bytes[start..end]`.
pub fn copy_range(bytes: &[u8], start: usize, end: usize) -> (copy: Vec<u8>)
    requires
        start <= end <= bytes@.len(),
    ensures
        copy@ == bytes@.subrange(start as int, end as int),
{
    let mut copy: Vec<u8> = Vec::new();
    let mut index: usize = start;
    while index < end
        invariant
            start <= index <= end <= bytes@.len(),
            copy@ == bytes@.subrange(start as int, index as int),
        decreases end - index,
    {
        copy.push(bytes[index]);
        assert(bytes@.subrange(start as int, index + 1) =~= bytes@.subrange(
            start as int,
            index as int,
        ).push(bytes@[index as int]));
        index += 1;
    }
    copy
}

} // verus!
