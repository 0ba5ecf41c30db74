//! Integers as the bytes of a packet.

use vstd::prelude::*;

verus! {

/// The four bytes of `x`, least significant first.
pub open spec fn le_bytes(x: u32) -> Seq<u8> {
    seq![
        (x % 256) as u8,
        ((x / 256) % 256) as u8,
        ((x / 256 / 256) % 256) as u8,
        ((x / 256 / 256 / 256) % 256) as u8,
    ]
}

/// The number that four bytes spell, least significant first.
pub open spec fn le_value(b: Seq<u8>) -> int
    recommends
        b.len() == 4,
{
    b[0] + 256 * b[1] + 65536 * b[2] + 16777216 * b[3]
}

/// The byte that stands for the signed value `x` (two's complement).
pub open spec fn byte_of(x: i8) -> u8 {
    if x >= 0 {
        x as u8
    } else {
        (x + 256) as u8
    }
}

/// The signed value that the byte `b` stands for (two's complement).
pub open spec fn signed_of(b: u8) -> i8 {
    if b < 128 {
        b as i8
    } else {
        (b - 256) as i8
    }
}

/// Reading back the bytes of a number gives the number.
pub proof fn lemma_le_value_of_bytes(x: u32)
    ensures
        le_bytes(x).len() == 4,
        le_value(le_bytes(x)) == x,
{
}

/// Four bytes spell a 32-bit number, whose bytes they are.
pub proof fn lemma_le_bytes_of_value(b: Seq<u8>)
    requires
        b.len() == 4,
    ensures
        0 <= le_value(b) <= u32::MAX,
        le_bytes(le_value(b) as u32) == b,
{
    assert(le_bytes(le_value(b) as u32) =~= b);
}

/// A signed value survives the way through its byte.
pub proof fn lemma_signed_of_byte(x: i8)
    ensures
        signed_of(byte_of(x)) == x,
{
}

/// A byte survives the way through its signed value.
pub proof fn lemma_byte_of_signed(b: u8)
    ensures
        byte_of(signed_of(b)) == b,
{
}

/// The byte of a signed value.
pub fn to_byte(x: i8) -> (r: u8)
    ensures
        r == byte_of(x),
{
    if x >= 0 {
        x as u8
    } else {
        (x as i16 + 256) as u8
    }
}

/// The signed value of a byte.
pub fn to_signed(b: u8) -> (r: i8)
    ensures
        r == signed_of(b),
{
    if b < 128 {
        b as i8
    } else {
        (b as i16 - 256) as i8
    }
}

/// Writes `value` at `offset`, least significant byte first; every other byte stays.
pub fn write_u32(buf: &mut Vec<u8>, offset: usize, value: u32)
    requires
        offset + 4 <= old(buf).len(),
    ensures
        final(buf)@.len() == old(buf)@.len(),
        forall|i: int|
            0 <= i < old(buf)@.len() ==> #[trigger] final(buf)@[i] == (if offset <= i < offset + 4 {
                le_bytes(value)[i - offset]
            } else {
                old(buf)@[i]
            }),
{
    buf[offset] = (value % 256) as u8;
    buf[offset + 1] = ((value / 256) % 256) as u8;
    buf[offset + 2] = ((value / 256 / 256) % 256) as u8;
    buf[offset + 3] = ((value / 256 / 256 / 256) % 256) as u8;
}

/// Reads the number that the four bytes at `offset` spell.
pub fn read_u32(buf: &[u8], offset: usize) -> (r: u32)
    requires
        offset + 4 <= buf.len(),
    ensures
        r == le_value(buf@.subrange(offset as int, offset + 4)),
{
    let b0: u32 = buf[offset] as u32;
    let b1: u32 = buf[offset + 1] as u32;
    let b2: u32 = buf[offset + 2] as u32;
    let b3: u32 = buf[offset + 3] as u32;
    b0 + 256 * b1 + 65536 * b2 + 16777216 * b3
}

/// Byte `k` of the code units `units`, each laid down low byte first.
pub open spec fn wide_byte(units: Seq<u16>, k: int) -> u8
    recommends
        0 <= k < 2 * units.len(),
{
    if k % 2 == 0 {
        (units[k / 2] % 256) as u8
    } else {
        (units[k / 2] / 256) as u8
    }
}

/// A field of `capacity` bytes that holds the code units `units`, each low
/// byte first: cut off where the field ends, zero where the units end.
pub open spec fn wide_field(units: Seq<u16>, capacity: nat) -> Seq<u8> {
    Seq::new(
        capacity,
        |k: int|
            if k < 2 * units.len() {
                wide_byte(units, k)
            } else {
                0u8
            },
    )
}

/// Copies `bytes` to `offset`; every other byte stays.
pub fn write_bytes(buf: &mut Vec<u8>, offset: usize, bytes: &[u8])
    requires
        offset + bytes.len() <= old(buf).len(),
    ensures
        final(buf)@.len() == old(buf)@.len(),
        forall|i: int|
            0 <= i < old(buf)@.len() ==> #[trigger] final(buf)@[i] == (if offset <= i < offset
                + bytes.len() {
                bytes@[i - offset]
            } else {
                old(buf)@[i]
            }),
{
    let n: usize = bytes.len();
    let mut k: usize = 0;
    while k < n
        invariant
            n == bytes.len(),
            k <= n,
            offset + n <= buf.len(),
            buf@.len() == old(buf)@.len(),
            forall|i: int|
                0 <= i < buf@.len() ==> #[trigger] buf@[i] == (if offset <= i < offset + k {
                    bytes@[i - offset]
                } else {
                    old(buf)@[i]
                }),
        decreases n - k,
    {
        buf[offset + k] = bytes[k];
        k += 1;
    }
}

/// Fills the field of `capacity` bytes at `offset` with the code units
/// `units`, each low byte first: what does not fit is left out, what is left
/// of the field is set to zero, and every byte outside the field stays.
pub fn write_wide(buf: &mut Vec<u8>, offset: usize, capacity: usize, units: &[u16])
    requires
        offset + capacity <= old(buf).len(),
    ensures
        final(buf)@.len() == old(buf)@.len(),
        forall|i: int|
            0 <= i < old(buf)@.len() ==> #[trigger] final(buf)@[i] == (if offset <= i < offset
                + capacity {
                wide_field(units@, capacity as nat)[i - offset]
            } else {
                old(buf)@[i]
            }),
{
    let n: usize = units.len();
    let mut k: usize = 0;
    while k < capacity
        invariant
            n == units.len(),
            k <= capacity,
            offset + capacity <= buf.len(),
            buf@.len() == old(buf)@.len(),
            forall|i: int|
                0 <= i < buf@.len() ==> #[trigger] buf@[i] == (if offset <= i < offset + k {
                    wide_field(units@, capacity as nat)[i - offset]
                } else {
                    old(buf)@[i]
                }),
        decreases capacity - k,
    {
        let byte: u8 = if k / 2 < n {
            let unit: u16 = units[k / 2];
            if k % 2 == 0 {
                (unit % 256) as u8
            } else {
                (unit / 256) as u8
            }
        } else {
            0
        };
        buf[offset + k] = byte;
        k += 1;
    }
}

} // verus!
