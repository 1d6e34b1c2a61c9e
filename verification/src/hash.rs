//! FxHash, the hashing algorithm of rustc, used to fingerprint font files. It is not a
//! cryptographic hash.
use vstd::prelude::*;

verus! {

pub const ROTATE: u32 = 5;
pub const SEED64: u64 = 0x517cc1b727220a95;
pub const SEED32: u32 = 0x27220a95;

/// Left rotation of a 64 bit word.
pub open spec fn rotl64(x: u64, n: u32) -> u64
    recommends 0 < n < 64,
{
    ((x << n) | (x >> ((64 - n) as u32))) as u64
}

/// One mixing step of FxHash on a 64 bit state.
pub open spec fn fx_word64(state: u64, word: u64) -> u64 {
    vstd::wrapping::u64_specs::wrapping_mul(rotl64(state, ROTATE) ^ word, SEED64)
}

/// The little-endian value of the bytes of `s`.
pub open spec fn le_value(s: Seq<u8>) -> nat
    decreases s.len(),
{
    if s.len() == 0 {
        0
    } else {
        s[0] as nat + 256 * le_value(s.skip(1))
    }
}

/// Mixes each remaining byte into the state, one byte at a time.
pub open spec fn fx_bytes(state: u64, bytes: Seq<u8>) -> u64
    decreases bytes.len(),
{
    if bytes.len() == 0 {
        state
    } else {
        fx_bytes(fx_word64(state, bytes[0] as u64), bytes.skip(1))
    }
}

/// FxHash of `bytes` from the given state: eight bytes at a time while eight remain, then one
/// word of four bytes if four remain, then single bytes.
pub open spec fn fx_write(state: u64, bytes: Seq<u8>) -> u64
    decreases bytes.len(),
{
    if bytes.len() >= 8 {
        fx_write(fx_word64(state, le_value(bytes.take(8)) as u64), bytes.skip(8))
    } else if bytes.len() >= 4 {
        fx_bytes(fx_word64(state, le_value(bytes.take(4)) as u64), bytes.skip(4))
    } else {
        fx_bytes(state, bytes)
    }
}

/// The FxHash of a whole byte string, from the zero state.
pub open spec fn fx_hash(bytes: Seq<u8>) -> u64 {
    fx_write(0, bytes)
}

/// Left rotation of a 32 bit word.
pub open spec fn rotl32(x: u32, n: u32) -> u32
    recommends 0 < n < 32,
{
    ((x << n) | (x >> ((32 - n) as u32))) as u32
}

/// One mixing step of FxHash on a 32 bit state.
pub open spec fn fx_word32(state: u32, word: u32) -> u32 {
    vstd::wrapping::u32_specs::wrapping_mul(rotl32(state, ROTATE) ^ word, SEED32)
}

/// Mixes each remaining byte into a 32 bit state, one byte at a time.
pub open spec fn fx_bytes32(state: u32, bytes: Seq<u8>) -> u32
    decreases bytes.len(),
{
    if bytes.len() == 0 {
        state
    } else {
        fx_bytes32(fx_word32(state, bytes[0] as u32), bytes.skip(1))
    }
}

/// FxHash with a 32 bit state: four bytes at a time while four remain, then single bytes.
pub open spec fn fx_write32(state: u32, bytes: Seq<u8>) -> u32
    decreases bytes.len(),
{
    if bytes.len() >= 4 {
        fx_write32(fx_word32(state, le_value(bytes.take(4)) as u32), bytes.skip(4))
    } else {
        fx_bytes32(state, bytes)
    }
}

/// The 32 bit FxHash of a whole byte string, from the zero state.
pub open spec fn fx_hash32(bytes: Seq<u8>) -> u32 {
    fx_write32(0, bytes)
}

/// The FxHash a target computes: with a 32 bit state where `usize` has 32 bits, with a 64 bit
/// state otherwise.
pub open spec fn fx_hash_usize(bytes: Seq<u8>) -> usize {
    if usize::BITS == 32 { fx_hash32(bytes) as usize } else { fx_hash(bytes) as usize }
}

fn hash_word(state: u64, word: u64) -> (r: u64)
    ensures
        r == fx_word64(state, word),
{
    let rot = (state << 5u32) | (state >> 59u32);
    (rot ^ word).wrapping_mul(SEED64)
}

fn hash_word32(state: u32, word: u32) -> (r: u32)
    ensures
        r == fx_word32(state, word),
{
    let rot = (state << 5u32) | (state >> 27u32);
    (rot ^ word).wrapping_mul(SEED32)
}

proof fn lemma_le4(s: Seq<u8>)
    requires
        s.len() == 4,
    ensures
        le_value(s) == s[0] as nat + 256 * s[1] as nat + 65536 * s[2] as nat + 16777216 * s[3] as nat,
{
    reveal_with_fuel(le_value, 5);
    assert(s.skip(1).skip(1) =~= s.subrange(2, 4));
    assert(s.skip(1).skip(1).skip(1) =~= s.subrange(3, 4));
    assert(s.skip(1).skip(1).skip(1).skip(1) =~= Seq::<u8>::empty());
}

proof fn lemma_le8(s: Seq<u8>)
    requires
        s.len() == 8,
    ensures
        le_value(s) == le_value(s.take(4)) + 4294967296 * le_value(s.skip(4)),
{
    let t = s.skip(4);
    lemma_le4(s.take(4));
    lemma_le4(t);
    reveal_with_fuel(le_value, 9);
    assert(s.skip(1) =~= s.subrange(1, 8));
    assert(s.skip(1).skip(1) =~= s.subrange(2, 8));
    assert(s.skip(1).skip(1).skip(1) =~= s.subrange(3, 8));
    assert(s.skip(1).skip(1).skip(1).skip(1) =~= t);
    assert(t.skip(1).skip(1).skip(1).skip(1) =~= Seq::<u8>::empty());
}

/// Reads a little-endian word of four bytes.
fn read_le32(buf: &[u8], at: usize) -> (r: u32)
    requires
        at + 4 <= buf@.len(),
    ensures
        r as nat == le_value(buf@.subrange(at as int, at + 4)),
{
    let b0 = buf[at];
    let b1 = buf[at + 1];
    let b2 = buf[at + 2];
    let b3 = buf[at + 3];
    proof {
        lemma_le4(buf@.subrange(at as int, at + 4));
        assert((b0 as u32 | (b1 as u32) << 8u32 | (b2 as u32) << 16u32 | (b3 as u32) << 24u32)
            == b0 as u32 + 256 * b1 as u32 + 65536 * b2 as u32 + 16777216 * b3 as u32) by (bit_vector);
    }
    b0 as u32 | (b1 as u32) << 8u32 | (b2 as u32) << 16u32 | (b3 as u32) << 24u32
}

/// Reads a little-endian word of eight bytes.
fn read_le64(buf: &[u8], at: usize) -> (r: u64)
    requires
        at + 8 <= buf@.len(),
    ensures
        r as nat == le_value(buf@.subrange(at as int, at + 8)),
{
    assert(buf@.len() == buf.len());
    let lo = read_le32(buf, at);
    let hi = read_le32(buf, at + 4);
    proof {
        let s = buf@.subrange(at as int, at + 8);
        lemma_le8(s);
        assert(s.take(4) =~= buf@.subrange(at as int, at + 4));
        assert(s.skip(4) =~= buf@.subrange(at + 4, at + 8));
        assert((lo as u64 | (hi as u64) << 32u64) == lo as u64 + 4294967296 * hi as u64) by (bit_vector);
    }
    lo as u64 | (hi as u64) << 32u64
}

proof fn lemma_fx_bytes_step(state: u64, bytes: Seq<u8>, i: int)
    requires
        0 <= i < bytes.len(),
    ensures
        fx_bytes(state, bytes.skip(i)) == fx_bytes(fx_word64(state, bytes[i] as u64), bytes.skip(i + 1)),
{
    assert(bytes.skip(i).skip(1) =~= bytes.skip(i + 1));
}

proof fn lemma_fx_write_step(state: u64, bytes: Seq<u8>, i: int)
    requires
        0 <= i,
        i + 8 <= bytes.len(),
    ensures
        fx_write(state, bytes.skip(i)) == fx_write(
            fx_word64(state, le_value(bytes.subrange(i, i + 8)) as u64),
            bytes.skip(i + 8),
        ),
{
    assert(bytes.skip(i).take(8) =~= bytes.subrange(i, i + 8));
    assert(bytes.skip(i).skip(8) =~= bytes.skip(i + 8));
}

/// FxHash of the bytes with a 64 bit state.
fn hash64(bytes: &[u8]) -> (r: u64)
    ensures
        r == fx_hash(bytes@),
{
    let len = bytes.len();
    let mut h: u64 = 0;
    let mut i: usize = 0;
    assert(bytes@.skip(0) =~= bytes@);
    while len - i >= 8
        invariant
            len == bytes@.len(),
            i <= len,
            fx_write(h, bytes@.skip(i as int)) == fx_hash(bytes@),
        decreases len - i,
    {
        let n = read_le64(bytes, i);
        proof {
            lemma_fx_write_step(h, bytes@, i as int);
        }
        h = hash_word(h, n);
        i = i + 8;
    }
    if len - i >= 4 {
        let n = read_le32(bytes, i);
        proof {
            assert(bytes@.skip(i as int).take(4) =~= bytes@.subrange(i as int, i + 4));
            assert(bytes@.skip(i as int).skip(4) =~= bytes@.skip(i + 4));
        }
        h = hash_word(h, n as u64);
        i = i + 4;
    }
    while i < len
        invariant
            len == bytes@.len(),
            i <= len,
            fx_bytes(h, bytes@.skip(i as int)) == fx_hash(bytes@),
        decreases len - i,
    {
        proof {
            lemma_fx_bytes_step(h, bytes@, i as int);
        }
        h = hash_word(h, bytes[i] as u64);
        i = i + 1;
    }
    proof {
        assert(bytes@.skip(len as int) =~= Seq::<u8>::empty());
    }
    h
}

proof fn lemma_fx_bytes32_step(state: u32, bytes: Seq<u8>, i: int)
    requires
        0 <= i < bytes.len(),
    ensures
        fx_bytes32(state, bytes.skip(i)) == fx_bytes32(fx_word32(state, bytes[i] as u32), bytes.skip(i + 1)),
{
    assert(bytes.skip(i).skip(1) =~= bytes.skip(i + 1));
}

proof fn lemma_fx_write32_step(state: u32, bytes: Seq<u8>, i: int)
    requires
        0 <= i,
        i + 4 <= bytes.len(),
    ensures
        fx_write32(state, bytes.skip(i)) == fx_write32(
            fx_word32(state, le_value(bytes.subrange(i, i + 4)) as u32),
            bytes.skip(i + 4),
        ),
{
    assert(bytes.skip(i).take(4) =~= bytes.subrange(i, i + 4));
    assert(bytes.skip(i).skip(4) =~= bytes.skip(i + 4));
}

/// FxHash of the bytes with a 32 bit state.
fn hash32(bytes: &[u8]) -> (r: u32)
    ensures
        r == fx_hash32(bytes@),
{
    let len = bytes.len();
    let mut h: u32 = 0;
    let mut i: usize = 0;
    assert(bytes@.skip(0) =~= bytes@);
    while len - i >= 4
        invariant
            len == bytes@.len(),
            i <= len,
            fx_write32(h, bytes@.skip(i as int)) == fx_hash32(bytes@),
        decreases len - i,
    {
        let n = read_le32(bytes, i);
        proof {
            lemma_fx_write32_step(h, bytes@, i as int);
        }
        h = hash_word32(h, n);
        i = i + 4;
    }
    while i < len
        invariant
            len == bytes@.len(),
            i <= len,
            fx_bytes32(h, bytes@.skip(i as int)) == fx_hash32(bytes@),
        decreases len - i,
    {
        proof {
            lemma_fx_bytes32_step(h, bytes@, i as int);
        }
        h = hash_word32(h, bytes[i] as u32);
        i = i + 1;
    }
    proof {
        assert(bytes@.skip(len as int) =~= Seq::<u8>::empty());
    }
    h
}

/// FxHash of the bytes, as the target computes it: with a 32 bit state where `usize` has 32 bits,
/// with a 64 bit state otherwise.
pub fn hash(bytes: &[u8]) -> (r: usize)
    ensures
        r == fx_hash_usize(bytes@),
{
    if usize::BITS == 32 {
        hash32(bytes) as usize
    } else {
        hash64(bytes) as usize
    }
}

} // verus!
