//! A cursor over a byte slice that reads big-endian values. Each read advances the cursor; reading
//! past the end of the bytes is a caller error, so every read states how many bytes it needs.
use vstd::prelude::*;

verus! {

/// The big-endian value of the two bytes at `i`.
pub open spec fn be16(b: Seq<u8>, i: int) -> nat {
    b[i] as nat * 256 + b[i + 1] as nat
}

/// The big-endian value of the four bytes at `i`.
pub open spec fn be32(b: Seq<u8>, i: int) -> nat {
    be16(b, i) * 65536 + be16(b, i + 2)
}

/// The big-endian value of the eight bytes at `i`.
pub open spec fn be64(b: Seq<u8>, i: int) -> nat {
    be32(b, i) * 4294967296 + be32(b, i + 4)
}

/// The signed byte at `i`.
pub open spec fn sbe8(b: Seq<u8>, i: int) -> int {
    if b[i] >= 128 { b[i] - 256 } else { b[i] as int }
}

/// The signed big-endian value of the two bytes at `i`.
pub open spec fn sbe16(b: Seq<u8>, i: int) -> int {
    if be16(b, i) >= 32768 { be16(b, i) - 65536 } else { be16(b, i) as int }
}

/// The signed big-endian value of the four bytes at `i`.
pub open spec fn sbe32(b: Seq<u8>, i: int) -> int {
    if be32(b, i) >= 0x8000_0000 { be32(b, i) - 0x1_0000_0000 } else { be32(b, i) as int }
}

/// The signed big-endian value of the eight bytes at `i`.
pub open spec fn sbe64(b: Seq<u8>, i: int) -> int {
    if be64(b, i) >= 0x8000_0000_0000_0000 {
        be64(b, i) - 0x1_0000_0000_0000_0000
    } else {
        be64(b, i) as int
    }
}

pub fn u16_from_be(b0: u8, b1: u8) -> (r: u16)
    ensures
        r == b0 as nat * 256 + b1 as nat,
{
    assert(((b0 as u16) << 8u16 | b1 as u16) == b0 as u16 * 256 + b1 as u16) by (bit_vector);
    (b0 as u16) << 8u16 | b1 as u16
}

pub fn u32_from_be(hi: u16, lo: u16) -> (r: u32)
    ensures
        r == hi as nat * 65536 + lo as nat,
{
    assert(((hi as u32) << 16u32 | lo as u32) == hi as u32 * 65536 + lo as u32) by (bit_vector);
    (hi as u32) << 16u32 | lo as u32
}

pub fn u64_from_be(hi: u32, lo: u32) -> (r: u64)
    ensures
        r == hi as nat * 4294967296 + lo as nat,
{
    assert(((hi as u64) << 32u64 | lo as u64) == hi as u64 * 4294967296 + lo as u64) by (bit_vector);
    (hi as u64) << 32u64 | lo as u64
}

pub fn i8_from_u8(x: u8) -> (r: i8)
    ensures
        r == (if x >= 128 { x - 256 } else { x as int }),
{
    if x >= 128 {
        assert(x >= 128 ==> (x as i8) as int == x - 256) by (bit_vector);
    } else {
        assert(x < 128 ==> (x as i8) as int == x) by (bit_vector);
    }
    x as i8
}

pub fn i16_from_u16(x: u16) -> (r: i16)
    ensures
        r == (if x >= 32768 { x - 65536 } else { x as int }),
{
    if x >= 32768 {
        assert(x >= 32768 ==> (x as i16) as int == x - 65536) by (bit_vector);
    } else {
        assert(x < 32768 ==> (x as i16) as int == x) by (bit_vector);
    }
    x as i16
}

pub fn i32_from_u32(x: u32) -> (r: i32)
    ensures
        r == (if x >= 0x8000_0000 { x - 0x1_0000_0000 } else { x as int }),
{
    if x >= 0x8000_0000 {
        assert(x >= 0x8000_0000 ==> (x as i32) as int == x - 0x1_0000_0000) by (bit_vector);
    } else {
        assert(x < 0x8000_0000 ==> (x as i32) as int == x) by (bit_vector);
    }
    x as i32
}

pub fn i64_from_u64(x: u64) -> (r: i64)
    ensures
        r == (if x >= 0x8000_0000_0000_0000 { x - 0x1_0000_0000_0000_0000 } else { x as int }),
{
    if x >= 0x8000_0000_0000_0000 {
        assert(x >= 0x8000_0000_0000_0000 ==> (x as i64) as int == x - 0x1_0000_0000_0000_0000)
            by (bit_vector);
    } else {
        assert(x < 0x8000_0000_0000_0000 ==> (x as i64) as int == x) by (bit_vector);
    }
    x as i64
}

/// A read cursor over font data.
pub struct Stream<'a> {
    pub bytes: &'a [u8],
    pub offset: usize,
}

impl<'a> Stream<'a> {
    /// True when `n` bytes can be read at the cursor.
    pub open spec fn can_read(&self, n: int) -> bool {
        self.offset + n <= self.bytes@.len()
    }

    pub fn new(bytes: &'a [u8]) -> (s: Stream<'a>)
        ensures
            s.bytes@ == bytes@,
            s.offset == 0,
    {
        Stream { bytes, offset: 0 }
    }

    pub fn reset(&mut self)
        ensures
            final(self).bytes@ == old(self).bytes@,
            final(self).offset == 0,
    {
        self.offset = 0;
    }

    pub fn offset(&self) -> (r: usize)
        ensures
            r == self.offset,
    {
        self.offset
    }

    pub fn seek(&mut self, offset: usize)
        ensures
            final(self).bytes@ == old(self).bytes@,
            final(self).offset == offset,
    {
        self.offset = offset;
    }

    pub fn skip(&mut self, offset: usize)
        requires
            old(self).offset + offset <= usize::MAX,
        ensures
            final(self).bytes@ == old(self).bytes@,
            final(self).offset == old(self).offset + offset,
    {
        self.offset += offset;
    }

    pub fn read_u8(&mut self) -> (r: u8)
        requires
            old(self).can_read(1),
        ensures
            r == old(self).bytes@[old(self).offset as int],
            final(self).bytes@ == old(self).bytes@,
            final(self).offset == old(self).offset + 1,
    {
        let result = self.bytes[self.offset];
        self.offset += 1;
        result
    }

    pub fn read_u16(&mut self) -> (r: u16)
        requires
            old(self).can_read(2),
        ensures
            r == be16(old(self).bytes@, old(self).offset as int),
            final(self).bytes@ == old(self).bytes@,
            final(self).offset == old(self).offset + 2,
    {
        let b0 = self.bytes[self.offset];
        let b1 = self.bytes[self.offset + 1];
        self.offset += 2;
        u16_from_be(b0, b1)
    }

    pub fn read_u32(&mut self) -> (r: u32)
        requires
            old(self).can_read(4),
        ensures
            r == be32(old(self).bytes@, old(self).offset as int),
            final(self).bytes@ == old(self).bytes@,
            final(self).offset == old(self).offset + 4,
    {
        let hi = self.read_u16();
        let lo = self.read_u16();
        u32_from_be(hi, lo)
    }

    pub fn read_u64(&mut self) -> (r: u64)
        requires
            old(self).can_read(8),
        ensures
            r == be64(old(self).bytes@, old(self).offset as int),
            final(self).bytes@ == old(self).bytes@,
            final(self).offset == old(self).offset + 8,
    {
        let hi = self.read_u32();
        let lo = self.read_u32();
        u64_from_be(hi, lo)
    }

    pub fn read_array_u16(&mut self, count: usize) -> (r: Vec<u16>)
        requires
            old(self).can_read(2 * count),
        ensures
            r@.len() == count,
            forall|i: int|
                0 <= i < count ==> #[trigger] r@[i] == be16(old(self).bytes@, old(self).offset + 2 * i),
            final(self).bytes@ == old(self).bytes@,
            final(self).offset == old(self).offset + 2 * count,
    {
        let mut values: Vec<u16> = Vec::with_capacity(count);
        let ghost start = self.offset as int;
        let mut k: usize = 0;
        while k < count
            invariant
                k <= count,
                self.bytes@ == old(self).bytes@,
                self.offset == start + 2 * k,
                start == old(self).offset,
                start + 2 * count <= self.bytes@.len(),
                values@.len() == k,
                forall|i: int| 0 <= i < k ==> #[trigger] values@[i] == be16(self.bytes@, start + 2 * i),
            decreases count - k,
        {
            let v = self.read_u16();
            values.push(v);
            k += 1;
        }
        values
    }

    pub fn read_i8(&mut self) -> (r: i8)
        requires
            old(self).can_read(1),
        ensures
            r == sbe8(old(self).bytes@, old(self).offset as int),
            final(self).bytes@ == old(self).bytes@,
            final(self).offset == old(self).offset + 1,
    {
        let v = self.read_u8();
        i8_from_u8(v)
    }

    pub fn read_i16(&mut self) -> (r: i16)
        requires
            old(self).can_read(2),
        ensures
            r == sbe16(old(self).bytes@, old(self).offset as int),
            final(self).bytes@ == old(self).bytes@,
            final(self).offset == old(self).offset + 2,
    {
        let v = self.read_u16();
        i16_from_u16(v)
    }

    pub fn read_i32(&mut self) -> (r: i32)
        requires
            old(self).can_read(4),
        ensures
            r == sbe32(old(self).bytes@, old(self).offset as int),
            final(self).bytes@ == old(self).bytes@,
            final(self).offset == old(self).offset + 4,
    {
        let v = self.read_u32();
        i32_from_u32(v)
    }

    pub fn read_i64(&mut self) -> (r: i64)
        requires
            old(self).can_read(8),
        ensures
            r == sbe64(old(self).bytes@, old(self).offset as int),
            final(self).bytes@ == old(self).bytes@,
            final(self).offset == old(self).offset + 8,
    {
        let v = self.read_u64();
        i64_from_u64(v)
    }

    pub fn read_tag(&mut self) -> (r: [u8; 4])
        requires
            old(self).can_read(4),
        ensures
            r@ == old(self).bytes@.subrange(old(self).offset as int, old(self).offset + 4),
            final(self).bytes@ == old(self).bytes@,
            final(self).offset == old(self).offset + 4,
    {
        let a = self.read_u8();
        let b = self.read_u8();
        let c = self.read_u8();
        let d = self.read_u8();
        let r = [a, b, c, d];
        assert(r@ =~= old(self).bytes@.subrange(old(self).offset as int, old(self).offset + 4));
        r
    }
}

pub fn flag_u8(value: u8, flags: u8) -> (r: bool)
    ensures
        r == (value & flags == flags),
{
    value & flags == flags
}

pub fn flag_u16(value: u16, flags: u16) -> (r: bool)
    ensures
        r == (value & flags == flags),
{
    value & flags == flags
}

pub fn flag_u32(value: u32, flags: u32) -> (r: bool)
    ensures
        r == (value & flags == flags),
{
    value & flags == flags
}

pub fn flag_u64(value: u64, flags: u64) -> (r: bool)
    ensures
        r == (value & flags == flags),
{
    value & flags == flags
}

pub fn flag_u128(value: u128, flags: u128) -> (r: bool)
    ensures
        r == (value & flags == flags),
{
    value & flags == flags
}

pub fn flag_i8(value: i8, flags: i8) -> (r: bool)
    ensures
        r == (value & flags == flags),
{
    value & flags == flags
}

pub fn flag_i16(value: i16, flags: i16) -> (r: bool)
    ensures
        r == (value & flags == flags),
{
    value & flags == flags
}

pub fn flag_i32(value: i32, flags: i32) -> (r: bool)
    ensures
        r == (value & flags == flags),
{
    value & flags == flags
}

pub fn flag_i64(value: i64, flags: i64) -> (r: bool)
    ensures
        r == (value & flags == flags),
{
    value & flags == flags
}

pub fn flag_i128(value: i128, flags: i128) -> (r: bool)
    ensures
        r == (value & flags == flags),
{
    value & flags == flags
}

} // verus!
