//! A cursor over a byte slice whose reads return `None` when the data runs out, and views of
//! runs of big-endian values read from it.
use crate::parse::{be16, be32, i16_from_u16, i32_from_u32, i8_from_u8, sbe16, sbe32, sbe8, u16_from_be, u32_from_be};
use vstd::prelude::*;

verus! {

/// A run of bytes.
pub struct StreamSliceU8<'a>(&'a [u8]);

/// A run of big-endian u16 values.
pub struct StreamSliceU16<'a>(&'a [u8]);

/// A run of big-endian u32 values.
pub struct StreamSliceU32<'a>(&'a [u8]);

impl<'a> StreamSliceU8<'a> {
    pub closed spec fn data(&self) -> Seq<u8> {
        self.0@
    }

    pub fn get(&self, index: usize) -> (r: Option<u8>)
        requires
            index + 1 <= usize::MAX,
        ensures
            r == (if index + 1 <= self.data().len() { Some(self.data()[index as int]) } else { None::<u8> }),
    {
        if index + 1 <= self.0.len() {
            Some(self.0[index])
        } else {
            None
        }
    }
}

impl<'a> StreamSliceU16<'a> {
    pub closed spec fn data(&self) -> Seq<u8> {
        self.0@
    }

    pub fn get(&self, index: usize) -> (r: Option<u16>)
        requires
            2 * index + 2 <= usize::MAX,
        ensures
            r == (if 2 * index + 2 <= self.data().len() {
                Some(be16(self.data(), 2 * index) as u16)
            } else {
                None::<u16>
            }),
    {
        let offset = index * 2;
        if offset + 2 <= self.0.len() {
            Some(u16_from_be(self.0[offset], self.0[offset + 1]))
        } else {
            None
        }
    }
}

impl<'a> StreamSliceU32<'a> {
    pub closed spec fn data(&self) -> Seq<u8> {
        self.0@
    }

    pub fn get(&self, index: usize) -> (r: Option<u32>)
        requires
            4 * index + 4 <= usize::MAX,
        ensures
            r == (if 4 * index + 4 <= self.data().len() {
                Some(be32(self.data(), 4 * index) as u32)
            } else {
                None::<u32>
            }),
    {
        let offset = index * 4;
        if offset + 4 <= self.0.len() {
            let hi = u16_from_be(self.0[offset], self.0[offset + 1]);
            let lo = u16_from_be(self.0[offset + 2], self.0[offset + 3]);
            Some(u32_from_be(hi, lo))
        } else {
            None
        }
    }
}

/// A run of signed bytes.
pub struct StreamSliceI8<'a>(StreamSliceU8<'a>);

/// A run of big-endian i16 values.
pub struct StreamSliceI16<'a>(StreamSliceU16<'a>);

/// A run of big-endian i32 values.
pub struct StreamSliceI32<'a>(StreamSliceU32<'a>);

impl<'a> StreamSliceI8<'a> {
    pub closed spec fn data(&self) -> Seq<u8> {
        self.0.data()
    }

    pub fn get(&self, index: usize) -> (r: Option<i8>)
        requires
            index + 1 <= usize::MAX,
        ensures
            r == (if index + 1 <= self.data().len() {
                Some(sbe8(self.data(), index as int) as i8)
            } else {
                None::<i8>
            }),
    {
        match self.0.get(index) {
            Some(v) => Some(i8_from_u8(v)),
            None => None,
        }
    }
}

impl<'a> StreamSliceI16<'a> {
    pub closed spec fn data(&self) -> Seq<u8> {
        self.0.data()
    }

    pub fn get(&self, index: usize) -> (r: Option<i16>)
        requires
            2 * index + 2 <= usize::MAX,
        ensures
            r == (if 2 * index + 2 <= self.data().len() {
                Some(sbe16(self.data(), 2 * index) as i16)
            } else {
                None::<i16>
            }),
    {
        match self.0.get(index) {
            Some(v) => Some(i16_from_u16(v)),
            None => None,
        }
    }
}

impl<'a> StreamSliceI32<'a> {
    pub closed spec fn data(&self) -> Seq<u8> {
        self.0.data()
    }

    pub fn get(&self, index: usize) -> (r: Option<i32>)
        requires
            4 * index + 4 <= usize::MAX,
        ensures
            r == (if 4 * index + 4 <= self.data().len() {
                Some(sbe32(self.data(), 4 * index) as i32)
            } else {
                None::<i32>
            }),
    {
        match self.0.get(index) {
            Some(v) => Some(i32_from_u32(v)),
            None => None,
        }
    }
}

/// A read cursor over font data whose reads fail softly.
pub struct Stream<'a> {
    bytes: &'a [u8],
    offset: usize,
}

impl<'a> Stream<'a> {
    /// The bytes under the cursor.
    pub closed spec fn data(&self) -> Seq<u8> {
        self.bytes@
    }

    /// The cursor's position.
    pub closed spec fn pos(&self) -> int {
        self.offset as int
    }

    pub proof fn lemma_pos(&self)
        ensures
            0 <= self.pos() <= usize::MAX,
    {
    }

    /// True when `n` more bytes can be read at the cursor.
    pub open spec fn has(&self, n: int) -> bool {
        self.pos() + n <= self.data().len()
    }

    /// The cursor after a read of `n` bytes: the same data, `n` bytes further on.
    pub open spec fn advanced(&self, before: Stream<'a>, n: int) -> bool {
        self.data() == before.data() && self.pos() == before.pos() + n
    }

    pub fn new(bytes: &'a [u8]) -> (s: Stream<'a>)
        ensures
            s.data() == bytes@,
            s.pos() == 0,
    {
        Stream { bytes, offset: 0 }
    }

    pub fn reset(&mut self)
        ensures
            final(self).advanced(*old(self), -old(self).pos()),
    {
        self.offset = 0;
    }

    pub fn offset(&self) -> (r: usize)
        ensures
            r == self.pos(),
    {
        self.offset
    }

    pub fn seek(&mut self, offset: usize)
        ensures
            final(self).data() == old(self).data(),
            final(self).pos() == offset,
    {
        self.offset = offset;
    }

    pub fn skip(&mut self, offset: usize)
        requires
            old(self).pos() + offset <= usize::MAX,
        ensures
            final(self).advanced(*old(self), offset as int),
    {
        self.offset += offset;
    }

    pub fn read_u8_slice(&mut self, len: usize) -> (r: Option<StreamSliceU8<'a>>)
        requires
            old(self).pos() + len <= usize::MAX,
        ensures
            r is Some <==> old(self).has(len as int),
            r matches Some(v) ==> v.data() == old(self).data().subrange(old(self).pos(), old(self).pos() + len)
                && final(self).advanced(*old(self), len as int),
            r is None ==> *final(self) == *old(self),
    {
        let end = self.offset + len;
        if end <= self.bytes.len() {
            let slice = vstd::slice::slice_subrange(self.bytes, self.offset, end);
            self.offset = end;
            Some(StreamSliceU8(slice))
        } else {
            None
        }
    }

    pub fn read_u16_slice(&mut self, len: usize) -> (r: Option<StreamSliceU16<'a>>)
        requires
            old(self).pos() + 2 * len <= usize::MAX,
        ensures
            r is Some <==> old(self).has(2 * len),
            r matches Some(v) ==> v.data() == old(self).data().subrange(old(self).pos(), old(self).pos() + 2 * len)
                && final(self).advanced(*old(self), 2 * len),
            r is None ==> *final(self) == *old(self),
    {
        let end = self.offset + len * 2;
        if end <= self.bytes.len() {
            let slice = vstd::slice::slice_subrange(self.bytes, self.offset, end);
            self.offset = end;
            Some(StreamSliceU16(slice))
        } else {
            None
        }
    }

    pub fn read_u32_slice(&mut self, len: usize) -> (r: Option<StreamSliceU32<'a>>)
        requires
            old(self).pos() + 4 * len <= usize::MAX,
        ensures
            r is Some <==> old(self).has(4 * len),
            r matches Some(v) ==> v.data() == old(self).data().subrange(old(self).pos(), old(self).pos() + 4 * len)
                && final(self).advanced(*old(self), 4 * len),
            r is None ==> *final(self) == *old(self),
    {
        let end = self.offset + len * 4;
        if end <= self.bytes.len() {
            let slice = vstd::slice::slice_subrange(self.bytes, self.offset, end);
            self.offset = end;
            Some(StreamSliceU32(slice))
        } else {
            None
        }
    }

    pub fn read_i8_slice(&mut self, len: usize) -> (r: Option<StreamSliceI8<'a>>)
        requires
            old(self).pos() + len <= usize::MAX,
        ensures
            r is Some <==> old(self).has(len as int),
            r matches Some(v) ==> v.data() == old(self).data().subrange(old(self).pos(), old(self).pos() + len)
                && final(self).advanced(*old(self), len as int),
            r is None ==> *final(self) == *old(self),
    {
        match self.read_u8_slice(len) {
            Some(s) => Some(StreamSliceI8(s)),
            None => None,
        }
    }

    pub fn read_i16_slice(&mut self, len: usize) -> (r: Option<StreamSliceI16<'a>>)
        requires
            old(self).pos() + 2 * len <= usize::MAX,
        ensures
            r is Some <==> old(self).has(2 * len),
            r matches Some(v) ==> v.data() == old(self).data().subrange(old(self).pos(), old(self).pos() + 2 * len)
                && final(self).advanced(*old(self), 2 * len),
            r is None ==> *final(self) == *old(self),
    {
        match self.read_u16_slice(len) {
            Some(s) => Some(StreamSliceI16(s)),
            None => None,
        }
    }

    pub fn read_i32_slice(&mut self, len: usize) -> (r: Option<StreamSliceI32<'a>>)
        requires
            old(self).pos() + 4 * len <= usize::MAX,
        ensures
            r is Some <==> old(self).has(4 * len),
            r matches Some(v) ==> v.data() == old(self).data().subrange(old(self).pos(), old(self).pos() + 4 * len)
                && final(self).advanced(*old(self), 4 * len),
            r is None ==> *final(self) == *old(self),
    {
        match self.read_u32_slice(len) {
            Some(s) => Some(StreamSliceI32(s)),
            None => None,
        }
    }

    pub fn read_u8(&mut self) -> (r: Option<u8>)
        requires
            old(self).pos() + 1 <= usize::MAX,
        ensures
            r is Some <==> old(self).has(1),
            r matches Some(v) ==> v == old(self).data()[old(self).pos()] && final(self).advanced(*old(self), 1),
            r is None ==> *final(self) == *old(self),
    {
        if self.offset + 1 <= self.bytes.len() {
            let v = self.bytes[self.offset];
            self.offset += 1;
            Some(v)
        } else {
            None
        }
    }

    pub fn read_u16(&mut self) -> (r: Option<u16>)
        requires
            old(self).pos() + 2 <= usize::MAX,
        ensures
            r is Some <==> old(self).has(2),
            r matches Some(v) ==> v == be16(old(self).data(), old(self).pos()) && final(self).advanced(*old(self), 2),
            r is None ==> *final(self) == *old(self),
    {
        if self.offset + 2 <= self.bytes.len() {
            let v = u16_from_be(self.bytes[self.offset], self.bytes[self.offset + 1]);
            self.offset += 2;
            Some(v)
        } else {
            None
        }
    }

    pub fn read_u32(&mut self) -> (r: Option<u32>)
        requires
            old(self).pos() + 4 <= usize::MAX,
        ensures
            r is Some <==> old(self).has(4),
            r matches Some(v) ==> v == be32(old(self).data(), old(self).pos()) && final(self).advanced(*old(self), 4),
            r is None ==> *final(self) == *old(self),
    {
        if self.offset + 4 <= self.bytes.len() {
            let o = self.offset;
            let hi = u16_from_be(self.bytes[o], self.bytes[o + 1]);
            let lo = u16_from_be(self.bytes[o + 2], self.bytes[o + 3]);
            self.offset += 4;
            Some(u32_from_be(hi, lo))
        } else {
            None
        }
    }

    pub fn read_i8(&mut self) -> (r: Option<i8>)
        requires
            old(self).pos() + 1 <= usize::MAX,
        ensures
            r is Some <==> old(self).has(1),
            r matches Some(v) ==> v == sbe8(old(self).data(), old(self).pos()) && final(self).advanced(*old(self), 1),
            r is None ==> *final(self) == *old(self),
    {
        match self.read_u8() {
            Some(v) => Some(i8_from_u8(v)),
            None => None,
        }
    }

    pub fn read_i16(&mut self) -> (r: Option<i16>)
        requires
            old(self).pos() + 2 <= usize::MAX,
        ensures
            r is Some <==> old(self).has(2),
            r matches Some(v) ==> v == sbe16(old(self).data(), old(self).pos()) && final(self).advanced(*old(self), 2),
            r is None ==> *final(self) == *old(self),
    {
        match self.read_u16() {
            Some(v) => Some(i16_from_u16(v)),
            None => None,
        }
    }

    pub fn read_i32(&mut self) -> (r: Option<i32>)
        requires
            old(self).pos() + 4 <= usize::MAX,
        ensures
            r is Some <==> old(self).has(4),
            r matches Some(v) ==> v == sbe32(old(self).data(), old(self).pos()) && final(self).advanced(*old(self), 4),
            r is None ==> *final(self) == *old(self),
    {
        match self.read_u32() {
            Some(v) => Some(i32_from_u32(v)),
            None => None,
        }
    }

    pub fn read_tag(&mut self) -> (r: Option<[u8; 4]>)
        requires
            old(self).pos() + 4 <= usize::MAX,
        ensures
            r is Some <==> old(self).has(4),
            r matches Some(v) ==> v@ == old(self).data().subrange(old(self).pos(), old(self).pos() + 4)
                && final(self).advanced(*old(self), 4),
            r is None ==> *final(self) == *old(self),
    {
        if self.offset + 4 <= self.bytes.len() {
            let o = self.offset;
            let t = [self.bytes[o], self.bytes[o + 1], self.bytes[o + 2], self.bytes[o + 3]];
            self.offset += 4;
            assert(t@ =~= self.bytes@.subrange(o as int, o + 4));
            Some(t)
        } else {
            None
        }
    }
}

} // verus!
