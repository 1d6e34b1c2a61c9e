//! Unicode helpers for layout: decoding UTF-8 and UTF-16, linebreak priorities and the character
//! classes layout cares about.
pub mod tables;

use crate::parse::be16;
use crate::unicode::tables::{LINEBREAK_STATE_MACHINE, N_LINEBREAK_CATEGORIES, N_LINEBREAK_STATES};
use vstd::prelude::*;
use vstd::utf8::{decode_first_scalar, length_of_first_scalar, valid_first_scalar};

verus! {

pub const CONT_MASK: u8 = 0b0011_1111;

/// `char::from_u32`: the character of a unicode scalar value, `None` for surrogates and values
/// above 0x10FFFF.
#[verifier::external_body]
fn char_from_u32(v: u32) -> (r: Option<char>)
    ensures
        r == (if vstd::utf8::is_scalar(v) { Some(v as char) } else { None::<char> }),
{
    char::from_u32(v)
}

/// `String::push`: appends the character.
#[verifier::external_body]
fn string_push(s: &mut String, c: char)
    ensures
        final(s)@ == old(s)@.push(c),
{
    s.push(c)
}

/// Adds the six payload bits of a continuation byte below the bits gathered so far.
pub fn utf8_acc_cont_byte(ch: u32, byte: u8) -> (r: u32)
    ensures
        r == ((ch << 6u32) | (byte & CONT_MASK) as u32),
{
    (ch << 6u32) | (byte & CONT_MASK) as u32
}

/// The scalar a UTF-16 unit at `pos` starts, with its width in bytes: a unit outside the
/// surrogate range stands for itself; a high surrogate combines with the unit after it. `None`
/// when the units run past the data, the second unit is below 0xDC00, or the combination is not
/// a scalar.
pub open spec fn utf16_scalar(b: Seq<u8>, pos: int) -> Option<(u32, int)> {
    if pos < 0 || pos + 2 > b.len() {
        None
    } else {
        let a = be16(b, pos) as u16;
        if a < 0xD800 || 0xDFFF < a {
            Some((a as u32, 2))
        } else if pos + 4 > b.len() {
            None
        } else {
            let lo = be16(b, pos + 2) as u16;
            if lo < 0xDC00 {
                None
            } else {
                let c = ((((a - 0xD800) as u32) << 10u32) | ((lo - 0xDC00) as u32)) + 0x1_0000;
                if c > u32::MAX || !vstd::utf8::is_scalar(c as u32) { None } else { Some((c as u32, 4)) }
            }
        }
    }
}

/// The characters of big-endian UTF-16 data from `pos` on; `None` when any unit cannot be read.
pub open spec fn utf16_chars(b: Seq<u8>, pos: int) -> Option<Seq<char>>
    decreases b.len() - pos,
{
    if pos >= b.len() {
        Some(Seq::empty())
    } else {
        match utf16_scalar(b, pos) {
            None => None,
            Some((c, w)) => match utf16_chars(b, pos + w) {
                None => None,
                Some(rest) => Some(seq![c as char] + rest),
            },
        }
    }
}

/// A UTF-16 code unit as two big-endian bytes.
pub open spec fn unit_bytes(u: int) -> Seq<u8> {
    seq![(u / 256) as u8, (u % 256) as u8]
}

/// The big-endian UTF-16 encoding of a character: one code unit below 0x10000, a surrogate pair
/// above.
pub open spec fn encode_utf16_char(c: char) -> Seq<u8> {
    let v = c as u32 as int;
    if v < 0x10000 {
        unit_bytes(v)
    } else {
        unit_bytes(0xD800 + (v - 0x10000) / 1024) + unit_bytes(0xDC00 + (v - 0x10000) % 1024)
    }
}

/// The big-endian UTF-16 encoding of a string.
pub open spec fn encode_utf16(s: Seq<char>) -> Seq<u8>
    decreases s.len(),
{
    if s.len() == 0 {
        Seq::empty()
    } else {
        encode_utf16_char(s[0]) + encode_utf16(s.drop_first())
    }
}

/// Decoding only looks at the data from the position on.
proof fn lemma_utf16_shift(p: Seq<u8>, b: Seq<u8>, pos: int)
    requires
        0 <= pos,
    ensures
        utf16_chars(p + b, p.len() + pos) == utf16_chars(b, pos),
    decreases b.len() - pos,
{
    let q = p + b;
    let k = p.len() + pos;
    if pos < b.len() {
        assert(q[k] == b[pos]);
    }
    if pos + 1 < b.len() {
        assert(q[k + 1] == b[pos + 1]);
    }
    if pos + 2 < b.len() {
        assert(q[k + 2] == b[pos + 2]);
    }
    if pos + 3 < b.len() {
        assert(q[k + 3] == b[pos + 3]);
    }
    assert(utf16_scalar(q, k) == utf16_scalar(b, pos));
    if pos < b.len() {
        match utf16_scalar(b, pos) {
            None => {},
            Some((c, w)) => {
                lemma_utf16_shift(p, b, pos + w);
            },
        }
    }
}

/// The first scalar of the encoding of a character followed by anything is that character.
proof fn lemma_utf16_first(c: char, rest: Seq<u8>)
    ensures
        utf16_scalar(encode_utf16_char(c) + rest, 0) == Some((c as u32, encode_utf16_char(c).len() as int)),
{
    vstd::utf8::char_is_scalar(c);
    let v = c as u32;
    let b = encode_utf16_char(c) + rest;
    if v < 0x10000 {
        assert(b[0] == (v / 256) as u8 && b[1] == (v % 256) as u8);
        assert(be16(b, 0) == v);
    } else {
        let w = (v - 0x10000) as u32;
        let hi = (0xD800 + w / 1024) as u16;
        let lo = (0xDC00 + w % 1024) as u16;
        assert(w / 1024 < 1024);
        assert(b[0] == (hi / 256) as u8 && b[1] == (hi % 256) as u8);
        assert(b[2] == (lo / 256) as u8 && b[3] == (lo % 256) as u8);
        assert(be16(b, 0) == hi);
        assert(be16(b, 2) == lo);
        let x = (hi - 0xD800) as u32;
        let y = (lo - 0xDC00) as u32;
        assert(x == w / 1024 && y == w % 1024);
        assert((x << 10u32) | y == w) by (bit_vector)
            requires x == w / 1024, y == w % 1024, w < 0x100000;
    }
}

/// Decoding the UTF-16 encoding of a string gives the string back.
pub proof fn lemma_decode_encode_utf16(s: Seq<char>)
    ensures
        utf16_chars(encode_utf16(s), 0) == Some(s),
    decreases s.len(),
{
    if s.len() > 0 {
        let e = encode_utf16_char(s[0]);
        let rest = encode_utf16(s.drop_first());
        lemma_utf16_first(s[0], rest);
        lemma_utf16_shift(e, rest, 0);
        lemma_decode_encode_utf16(s.drop_first());
        vstd::utf8::char_u32_cast(s[0], s[0] as u32);
        assert(seq![s[0]] + s.drop_first() =~= s);
    }
}

/// The width in bytes of the UTF-16 scalar at `pos`, if one can be read there.
fn utf16_width(bytes: &[u8], pos: usize) -> (r: Option<usize>)
    ensures
        match utf16_scalar(bytes@, pos as int) {
            Some((_, w)) => r == Some(w as usize),
            None => r is None,
        },
{
    if bytes.len() < 2 || pos > bytes.len() - 2 {
        return None;
    }
    let a = crate::parse::u16_from_be(bytes[pos], bytes[pos + 1]);
    if a < 0xD800 || 0xDFFF < a {
        return Some(2);
    }
    if bytes.len() < 4 || pos > bytes.len() - 4 {
        return None;
    }
    let lo = crate::parse::u16_from_be(bytes[pos + 2], bytes[pos + 3]);
    if lo < 0xDC00 {
        return None;
    }
    let hi_bits = ((a - 0xD800) as u32) << 10u32;
    assert(hi_bits <= 0x1FFC00) by (bit_vector)
        requires hi_bits == ((a - 0xD800) as u32) << 10u32, 0xD800 <= a <= 0xDFFF;
    let lo_bits = (lo - 0xDC00) as u32;
    assert((hi_bits | lo_bits) <= 0x1FFFFF) by (bit_vector)
        requires hi_bits <= 0x1FFC00, lo_bits <= 0x23FF;
    match char_from_u32((hi_bits | lo_bits) + 0x1_0000) {
        Some(_) => Some(4),
        None => None,
    }
}

/// Whether the whole of the data reads as big-endian UTF-16.
pub fn utf16_valid(bytes: &[u8]) -> (r: bool)
    ensures
        r == (utf16_chars(bytes@, 0) is Some),
{
    let mut pos: usize = 0;
    while pos < bytes.len()
        invariant
            pos <= bytes@.len(),
            (utf16_chars(bytes@, 0) is Some) == (utf16_chars(bytes@, pos as int) is Some),
        decreases bytes@.len() - pos,
    {
        match utf16_width(bytes, pos) {
            None => return false,
            Some(w) => {
                pos = pos + w;
            },
        }
    }
    true
}

/// Decodes big-endian UTF-16 data.
pub fn decode_utf16(bytes: &[u8]) -> (s: String)
    requires
        utf16_chars(bytes@, 0) is Some,
    ensures
        s@ == utf16_chars(bytes@, 0).unwrap(),
{
    let mut output = String::new();
    let mut offset: usize = 0;
    while offset < bytes.len()
        invariant
            utf16_chars(bytes@, offset as int) is Some,
            output@ + utf16_chars(bytes@, offset as int).unwrap() == utf16_chars(bytes@, 0).unwrap(),
        decreases bytes@.len() - offset,
    {
        let ghost before = offset as int;
        let c = read_utf16(bytes, &mut offset);
        proof {
            let rest = utf16_chars(bytes@, offset as int).unwrap();
            assert(output@.push(c) + rest =~= output@ + (seq![c] + rest));
        }
        string_push(&mut output, c);
    }
    proof {
        assert(output@ + Seq::<char>::empty() =~= output@);
    }
    output
}

/// Reads the character at `offset` of big-endian UTF-16 data and moves the offset past it.
pub fn read_utf16(bytes: &[u8], offset: &mut usize) -> (c: char)
    requires
        utf16_scalar(bytes@, *old(offset) as int) is Some,
    ensures
        c == utf16_scalar(bytes@, *old(offset) as int).unwrap().0 as char,
        *final(offset) == *old(offset) + utf16_scalar(bytes@, *old(offset) as int).unwrap().1,
{
    let o = *offset;
    let a = crate::parse::u16_from_be(bytes[o], bytes[o + 1]);
    *offset = o + 2;
    if a < 0xD800 || 0xDFFF < a {
        match char_from_u32(a as u32) {
            Some(c) => c,
            None => {
                proof {
                    assert(vstd::utf8::is_scalar(a as u32));
                }
                ' '
            },
        }
    } else {
        let lo = crate::parse::u16_from_be(bytes[o + 2], bytes[o + 3]);
        *offset = o + 4;
        let hi_bits = ((a - 0xD800) as u32) << 10u32;
        assert(hi_bits <= 0x1FFC00) by (bit_vector)
            requires hi_bits == ((a - 0xD800) as u32) << 10u32, 0xD800 <= a <= 0xDFFF;
        let lo_bits = (lo - 0xDC00) as u32;
        assert((hi_bits | lo_bits) <= 0x1FFFFF) by (bit_vector)
            requires hi_bits <= 0x1FFC00, lo_bits <= 0x23FF;
        let c = (hi_bits | lo_bits) + 0x1_0000;
        match char_from_u32(c) {
            Some(ch) => ch,
            None => ' ',
        }
    }
}

/// Reads the character at `byte_offset` of UTF-8 data and moves the offset past it.
pub fn read_utf8(bytes: &[u8], byte_offset: &mut usize) -> (c: char)
    requires
        *old(byte_offset) < bytes@.len(),
        valid_first_scalar(bytes@.skip(*old(byte_offset) as int)),
    ensures
        c == decode_first_scalar(bytes@.skip(*old(byte_offset) as int)) as char,
        *final(byte_offset) == *old(byte_offset) + length_of_first_scalar(bytes@.skip(*old(byte_offset) as int)),
{
    let ghost s = bytes@.skip(*byte_offset as int);
    let o = *byte_offset;
    let x = bytes[o];
    *byte_offset = o + 1;
    if x < 128 {
        let r = x as u32;
        proof {
            assert(s[0] == x);
            assert(r == (x & 0x7F) as u32) by (bit_vector) requires x < 128, r == x as u32;
        }
        return match char_from_u32(r) {
            Some(ch) => ch,
            None => ' ',
        };
    }
    let init = (x & (0x7Fu8 >> 2u8)) as u32;
    assert(x & (0x7Fu8 >> 2u8) == x & 0x1F) by (bit_vector);
    let y = bytes[o + 1];
    *byte_offset = o + 2;
    let mut ch = utf8_acc_cont_byte(init, y);
    proof {
        assert(s[0] == x && s[1] == y);
    }
    if x >= 0xE0 {
        let z = bytes[o + 2];
        *byte_offset = o + 3;
        let y_z = utf8_acc_cont_byte((y & CONT_MASK) as u32, z);
        ch = init << 12u32 | y_z;
        proof {
            assert(s[2] == z);
        }
        if x >= 0xF0 {
            let w = bytes[o + 3];
            *byte_offset = o + 4;
            ch = (init & 7) << 18u32 | utf8_acc_cont_byte(y_z, w);
            proof {
                assert(s[3] == w);
                assert(((init & 7) << 18u32 | ((y_z << 6u32) | (w & 0x3f) as u32)) == (((x & 0x07) as u32) << 18)
                    | (((y & 0x3f) as u32) << 12) | (((z & 0x3f) as u32) << 6) | ((w & 0x3f) as u32)) by (bit_vector)
                    requires
                        init == (x & 0x1F) as u32,
                        y_z == ((((y & 0x3f) as u32) << 6u32) | (z & 0x3f) as u32),
                        0xf0 <= x <= 0xf7;
            }
        } else {
            proof {
                assert((init << 12u32 | y_z) == (((x & 0x0F) as u32) << 12) | (((y & 0x3f) as u32) << 6) | ((z & 0x3f) as u32))
                    by (bit_vector)
                    requires
                        init == (x & 0x1F) as u32,
                        y_z == ((((y & 0x3f) as u32) << 6u32) | (z & 0x3f) as u32),
                        0xe0 <= x <= 0xef;
                let v = ch;
                assert(v <= 0xFFFF) by (bit_vector)
                    requires v == (((x & 0x0F) as u32) << 12) | (((y & 0x3f) as u32) << 6) | ((z & 0x3f) as u32);
            }
        }
    } else {
        proof {
            assert((init << 6u32 | (y & 0x3f) as u32) == (((x & 0x1F) as u32) << 6) | ((y & 0x3f) as u32)) by (bit_vector)
                requires init == (x & 0x1F) as u32, 0xc0 <= x <= 0xdf;
            let v = ch;
            assert(v <= 0x7FF) by (bit_vector)
                requires v == (((x & 0x1F) as u32) << 6) | ((y & 0x3f) as u32);
        }
    }
    assert(ch == decode_first_scalar(s));
    assert(vstd::utf8::is_scalar(ch));
    match char_from_u32(ch) {
        Some(c) => c,
        None => ' ',
    }
}

/// A linebreak priority. Ordering is based on linebreak priority: Hard > Soft > None.
#[derive(Debug, Copy, Clone, PartialEq, Eq, PartialOrd, Ord)]
pub struct LinebreakData {
    bits: u8,
}


/// The bits of the linebreaks layout acts on: the hard bit when hard breaks wrap, the soft bit
/// when words wrap and there is a width to wrap at.
pub open spec fn wrap_mask_bits(wrap_soft_breaks: bool, wrap_hard_breaks: bool, has_width: bool) -> u8 {
    ((if wrap_hard_breaks { 2u8 } else { 0u8 }) + (if wrap_soft_breaks && has_width { 1u8 } else { 0u8 })) as u8
}

/// Masking a linebreak with the wrap mask keeps a hard break exactly when hard breaks wrap, and a
/// soft break exactly when words wrap and there is a width; no break stays no break.
pub proof fn lemma_wrap_mask(bits: u8, wrap_soft_breaks: bool, wrap_hard_breaks: bool, has_width: bool)
    requires
        bits == 0 || bits == 1 || bits == 2,
    ensures
        (bits & wrap_mask_bits(wrap_soft_breaks, wrap_hard_breaks, has_width) == 2) == (bits == 2 && wrap_hard_breaks),
        (bits & wrap_mask_bits(wrap_soft_breaks, wrap_hard_breaks, has_width) == 1)
            == (bits == 1 && wrap_soft_breaks && has_width),
        (bits & wrap_mask_bits(wrap_soft_breaks, wrap_hard_breaks, has_width) == 0)
            == !((bits == 2 && wrap_hard_breaks) || (bits == 1 && wrap_soft_breaks && has_width)),
{
    let m = wrap_mask_bits(wrap_soft_breaks, wrap_hard_breaks, has_width);
    let h = wrap_hard_breaks;
    let s = wrap_soft_breaks && has_width;
    assert(m == (if h { 2u8 } else { 0u8 }) + (if s { 1u8 } else { 0u8 }));
    assert({
        &&& (bits & m == 2) == (bits == 2 && h)
        &&& (bits & m == 1) == (bits == 1 && s)
        &&& (bits & m == 0) == !((bits == 2 && h) || (bits == 1 && s))
    }) by (bit_vector)
        requires
            bits == 0 || bits == 1 || bits == 2,
            m == (if h { 2u8 } else { 0u8 }) + (if s { 1u8 } else { 0u8 });
}

impl LinebreakData {
    const NONE: u8 = 0b0000_0000;
    const SOFT: u8 = 0b0000_0001;
    const HARD: u8 = 0b0000_0010;

    /// The priority bits.
    pub closed spec fn bits(&self) -> u8 {
        self.bits
    }

    /// No linebreak.
    pub fn none() -> (r: LinebreakData)
        ensures
            r.bits() == 0,
    {
        LinebreakData { bits: LinebreakData::NONE }
    }

    /// A soft linebreak: an opportunity to wrap.
    pub fn soft() -> (r: LinebreakData)
        ensures
            r.bits() == 1,
    {
        LinebreakData { bits: LinebreakData::SOFT }
    }

    /// A hard linebreak: a line must end here.
    pub fn hard() -> (r: LinebreakData)
        ensures
            r.bits() == 2,
    {
        LinebreakData { bits: LinebreakData::HARD }
    }

    fn new(bits: u8) -> (r: LinebreakData)
        ensures
            r.bits() == bits,
    {
        LinebreakData { bits }
    }

    /// The linebreaks layout acts on: hard breaks when they wrap, soft breaks when words wrap and
    /// there is a width to wrap at.
    pub fn from_mask(wrap_soft_breaks: bool, wrap_hard_breaks: bool, has_width: bool) -> (r: LinebreakData)
        ensures
            r.bits() == wrap_mask_bits(wrap_soft_breaks, wrap_hard_breaks, has_width),
    {
        let mut mask: u8 = 0;
        if wrap_hard_breaks {
            mask |= LinebreakData::HARD;
        }
        let soft = wrap_soft_breaks && has_width;
        if soft {
            mask |= LinebreakData::SOFT;
        }
        let h = wrap_hard_breaks;
        assert(({
            let a: u8 = if h { 0u8 | 2u8 } else { 0u8 };
            let d: u8 = if soft { a | 1u8 } else { a };
            d == (if h { 2u8 } else { 0u8 }) + (if soft { 1u8 } else { 0u8 })
        })) by (bit_vector);
        LinebreakData { bits: mask }
    }

    /// The priority: 0 for none, 1 for soft, 2 for hard.
    pub fn priority(&self) -> (r: u8)
        ensures
            r == self.bits(),
    {
        self.bits
    }

    pub fn is_hard(&self) -> (r: bool)
        ensures
            r == (self.bits() == 2),
    {
        self.bits == LinebreakData::HARD
    }

    pub fn is_soft(&self) -> (r: bool)
        ensures
            r == (self.bits() == 1),
    {
        self.bits == LinebreakData::SOFT
    }

    /// Keeps the priority bits that `other` also has.
    pub fn mask(&self, other: LinebreakData) -> (r: LinebreakData)
        ensures
            r.bits() == self.bits() & other.bits(),
    {
        Self::new(self.bits & other.bits)
    }
}

/// Miscellaneous metadata associated with a character to assist in layout.
#[derive(Debug, Copy, Clone, PartialEq, Eq)]
pub struct CharacterData {
    bits: u8,
}

/// The ASCII whitespace characters layout recognizes: tab, line feed, form feed, carriage
/// return and space.
pub open spec fn ascii_whitespace(c: char) -> bool {
    c == '\t' || c == '\n' || c == '\x0C' || c == '\r' || c == ' '
}

/// The ASCII control characters: 0x00 to 0x1F and 0x7F.
pub open spec fn ascii_control(c: char) -> bool {
    ('\0' <= c && c <= '\x1F') || c == '\x7F'
}

/// The class bits of a character with its glyph index: whitespace 1, control 2, missing 4.
pub open spec fn class_bits(c: char, index: u16) -> u8 {
    ((if ascii_whitespace(c) { 1u8 } else { 0u8 }) + (if ascii_control(c) { 2u8 } else { 0u8 }) + (if index == 0 {
        4u8
    } else {
        0u8
    })) as u8
}

/// A classified character is rasterized exactly when its glyph is in the font and it is neither
/// whitespace nor a control character.
pub proof fn lemma_rasterize_plain(c: char, index: u16)
    ensures
        (class_bits(c, index) == 0) == (!ascii_whitespace(c) && !ascii_control(c) && index != 0),
        (class_bits(c, index) & 1 != 0) == ascii_whitespace(c),
        (class_bits(c, index) & 2 != 0) == ascii_control(c),
        (class_bits(c, index) & 4 != 0) == (index == 0),
{
    let w = ascii_whitespace(c);
    let k = ascii_control(c);
    let m = index == 0;
    let b = class_bits(c, index);
    assert(b == (if w { 1u8 } else { 0u8 }) + (if k { 2u8 } else { 0u8 }) + (if m { 4u8 } else { 0u8 }));
    assert({
        &&& (b == 0) == (!w && !k && !m)
        &&& (b & 1 != 0) == w
        &&& (b & 2 != 0) == k
        &&& (b & 4 != 0) == m
    }) by (bit_vector)
        requires
            b == (if w { 1u8 } else { 0u8 }) + (if k { 2u8 } else { 0u8 }) + (if m { 4u8 } else { 0u8 });
}

impl CharacterData {
    const WHITESPACE: u8 = 0b0000_0001;
    const CONTROL: u8 = 0b0000_0010;
    const MISSING: u8 = 0b0000_0100;

    /// The class bits: whitespace 1, control 2, missing 4.
    pub closed spec fn bits(&self) -> u8 {
        self.bits
    }

    pub open spec fn whitespace(&self) -> bool {
        self.bits() & 1 != 0
    }

    pub open spec fn control(&self) -> bool {
        self.bits() & 2 != 0
    }

    pub open spec fn missing(&self) -> bool {
        self.bits() & 4 != 0
    }

    /// Classifies a character given its index in the font.
    pub fn classify(c: char, index: u16) -> (r: CharacterData)
        ensures
            r.bits() == class_bits(c, index),
            r.bits() < 8,
            r.whitespace() == ascii_whitespace(c),
            r.control() == ascii_control(c),
            r.missing() == (index == 0),
    {
        let mut class: u8 = 0;
        if index == 0 {
            class |= CharacterData::MISSING;
        }
        let ws = c == '\t' || c == '\n' || c == '\x0C' || c == '\r' || c == ' ';
        if ws {
            class |= CharacterData::WHITESPACE;
        }
        let ctrl = ('\0' <= c && c <= '\x1F') || c == '\x7F';
        if ctrl {
            class |= CharacterData::CONTROL;
        }
        let m = index == 0;
        assert(({
            let a: u8 = if m { 0u8 | 4u8 } else { 0u8 };
            let b: u8 = if ws { a | 1u8 } else { a };
            let d: u8 = if ctrl { b | 2u8 } else { b };
            &&& d < 8
            &&& d == (if ws { 1u8 } else { 0u8 }) + (if ctrl { 2u8 } else { 0u8 }) + (if m { 4u8 } else { 0u8 })
            &&& (d & 1 != 0) == ws
            &&& (d & 2 != 0) == ctrl
            &&& (d & 4 != 0) == m
        })) by (bit_vector);
        CharacterData { bits: class }
    }

    /// A heuristic for if the glyph this was classified from should be rasterized. Missing
    /// glyphs, whitespace, and control characters will return false.
    pub fn rasterize(&self) -> (r: bool)
        ensures
            r == (self.bits() == 0),
    {
        self.bits == 0
    }

    /// Marks if the character is an ASCII whitespace character.
    pub fn is_whitespace(&self) -> (r: bool)
        ensures
            r == self.whitespace(),
    {
        self.bits & CharacterData::WHITESPACE != 0
    }

    /// Marks if the character is an ASCII control character.
    pub fn is_control(&self) -> (r: bool)
        ensures
            r == self.control(),
    {
        self.bits & CharacterData::CONTROL != 0
    }

    /// Marks if the character is missing from its associated font.
    pub fn is_missing(&self) -> (r: bool)
        ensures
            r == self.missing(),
    {
        self.bits & CharacterData::MISSING != 0
    }
}

// ---- line breaking ----

/// The Unicode line breaking class of a character (its ICU `ULineBreak` value), as xi-unicode's
/// tables give it.
pub uninterp spec fn linebreak_class(c: char) -> u8;

/// `xi_unicode::linebreak_property`: the line breaking class of `c`, looked up in xi-unicode's
/// tables; a function of the character alone.
#[verifier::external_body]
fn linebreak_property(c: char) -> (r: u8)
    ensures
        r == linebreak_class(c),
{
    xi_unicode::linebreak_property(c)
}

/// The transition of the line breaking state machine from `state` on a character of line breaking
/// class `class`; 0 for a pair outside the table.
pub open spec fn linebreak_entry(state: u8, class: u8) -> u8 {
    if state < N_LINEBREAK_STATES && class < N_LINEBREAK_CATEGORIES {
        LINEBREAK_STATE_MACHINE@[state as int]@[class as int]
    } else {
        0
    }
}

/// One step of the line breaking state machine from `state` on the character `c`: the linebreak
/// before the character (0 for none, 1 for soft, 2 for hard) and the next state.
pub open spec fn linebreak_step(state: u8, c: char) -> (u8, u8) {
    let new = linebreak_entry(state, linebreak_class(c));
    if new >= 0x80 {
        (if new >= 0xc0 { 2u8 } else { 1u8 }, new & 0x3f)
    } else {
        (0u8, new)
    }
}

/// The linebreaks a linebreaker in `state` reports for the characters of `cs`, in order.
pub open spec fn linebreaks_from(state: u8, cs: Seq<char>) -> Seq<u8>
    decreases cs.len(),
{
    if cs.len() == 0 {
        Seq::empty()
    } else {
        let (b, next) = linebreak_step(state, cs[0]);
        seq![b].add(linebreaks_from(next, cs.drop_first()))
    }
}

/// Finds the linebreak opportunities of text fed to it one character at a time, by the Unicode
/// line breaking algorithm (UAX #14).
#[derive(Copy, Clone)]
pub struct Linebreaker {
    state: u8,
}

impl Linebreaker {
    /// The state of the line breaking state machine; 0 at the start of a text.
    pub closed spec fn state(&self) -> u8 {
        self.state
    }

    /// A linebreaker at the start of a text.
    pub fn new() -> (r: Linebreaker)
        ensures
            r.state() == 0,
    {
        Linebreaker { state: 0 }
    }

    /// Returns to the start of a text.
    pub fn reset(&mut self)
        ensures
            final(self).state() == 0,
    {
        self.state = 0;
    }

    /// Feeds the next character of the text: the linebreak before it, hard for a mandatory break,
    /// soft for a break opportunity, none otherwise.
    pub fn next(&mut self, codepoint: char) -> (r: LinebreakData)
        ensures
            (r.bits(), final(self).state()) == linebreak_step(old(self).state(), codepoint),
    {
        let class = linebreak_property(codepoint);
        let new = if (self.state as usize) < N_LINEBREAK_STATES && (class as usize) < N_LINEBREAK_CATEGORIES {
            LINEBREAK_STATE_MACHINE[self.state as usize][class as usize]
        } else {
            0
        };
        if new >= 0x80 {
            self.state = new & 0x3f;
            if new >= 0xc0 {
                LinebreakData::hard()
            } else {
                LinebreakData::soft()
            }
        } else {
            self.state = new;
            LinebreakData::none()
        }
    }
}

/// After a character, a linebreaker in a state of the state machine moves to the state that the
/// machine's entry for its state and the character's class names, whether or not it reports a
/// break: after a break (an entry with its high bit set) the entry's low six bits, otherwise the
/// entry itself. The break is hard when the entry's two high bits are set, soft when only its
/// high bit is, and none otherwise.
pub proof fn lemma_linebreak_transition(state: u8, c: char)
    requires
        state < 89,
        linebreak_class(c) < 43,
    ensures
        ({
            let e = LINEBREAK_STATE_MACHINE@[state as int]@[linebreak_class(c) as int];
            &&& linebreak_step(state, c).1 == (if e >= 128 { e % 64 } else { e })
            &&& linebreak_step(state, c).0 == (if e >= 192 { 2u8 } else if e >= 128 { 1u8 } else { 0u8 })
        }),
{
    let e = LINEBREAK_STATE_MACHINE@[state as int]@[linebreak_class(c) as int];
    assert(e & 0x3f == e % 64) by (bit_vector);
}

/// The entry of the state machine for `state` and class `class`, as the state it leads to.
spec fn next_state(state: int, class: int) -> int {
    let e = LINEBREAK_STATE_MACHINE@[state]@[class];
    if e >= 128 { (e % 64) as int } else { e as int }
}

/// From every state, a character of class BK (6), LF (17) or NL (29) leads to the state of that
/// class.
proof fn lemma_mandatory_column(s: int)
    requires
        0 <= s < 89,
    ensures
        next_state(s, 6) == 6,
        next_state(s, 17) == 17,
        next_state(s, 29) == 29,
{
    if s == 0 {
        assert(LINEBREAK_STATE_MACHINE@[0] == crate::unicode::tables::STATE_0);
    } else if s == 1 {
        assert(LINEBREAK_STATE_MACHINE@[1] == crate::unicode::tables::STATE_1);
    } else if s == 2 {
        assert(LINEBREAK_STATE_MACHINE@[2] == crate::unicode::tables::STATE_2);
    } else if s == 3 {
        assert(LINEBREAK_STATE_MACHINE@[3] == crate::unicode::tables::STATE_3);
    } else if s == 4 {
        assert(LINEBREAK_STATE_MACHINE@[4] == crate::unicode::tables::STATE_4);
    } else if s == 5 {
        assert(LINEBREAK_STATE_MACHINE@[5] == crate::unicode::tables::STATE_5);
    } else if s == 6 {
        assert(LINEBREAK_STATE_MACHINE@[6] == crate::unicode::tables::STATE_6);
    } else if s == 7 {
        assert(LINEBREAK_STATE_MACHINE@[7] == crate::unicode::tables::STATE_7);
    } else if s == 8 {
        assert(LINEBREAK_STATE_MACHINE@[8] == crate::unicode::tables::STATE_8);
    } else if s == 9 {
        assert(LINEBREAK_STATE_MACHINE@[9] == crate::unicode::tables::STATE_9);
    } else if s == 10 {
        assert(LINEBREAK_STATE_MACHINE@[10] == crate::unicode::tables::STATE_10);
    } else if s == 11 {
        assert(LINEBREAK_STATE_MACHINE@[11] == crate::unicode::tables::STATE_11);
    } else if s == 12 {
        assert(LINEBREAK_STATE_MACHINE@[12] == crate::unicode::tables::STATE_12);
    } else if s == 13 {
        assert(LINEBREAK_STATE_MACHINE@[13] == crate::unicode::tables::STATE_13);
    } else if s == 14 {
        assert(LINEBREAK_STATE_MACHINE@[14] == crate::unicode::tables::STATE_14);
    } else if s == 15 {
        assert(LINEBREAK_STATE_MACHINE@[15] == crate::unicode::tables::STATE_15);
    } else if s == 16 {
        assert(LINEBREAK_STATE_MACHINE@[16] == crate::unicode::tables::STATE_16);
    } else if s == 17 {
        assert(LINEBREAK_STATE_MACHINE@[17] == crate::unicode::tables::STATE_17);
    } else if s == 18 {
        assert(LINEBREAK_STATE_MACHINE@[18] == crate::unicode::tables::STATE_18);
    } else if s == 19 {
        assert(LINEBREAK_STATE_MACHINE@[19] == crate::unicode::tables::STATE_19);
    } else if s == 20 {
        assert(LINEBREAK_STATE_MACHINE@[20] == crate::unicode::tables::STATE_20);
    } else if s == 21 {
        assert(LINEBREAK_STATE_MACHINE@[21] == crate::unicode::tables::STATE_21);
    } else if s == 22 {
        assert(LINEBREAK_STATE_MACHINE@[22] == crate::unicode::tables::STATE_22);
    } else if s == 23 {
        assert(LINEBREAK_STATE_MACHINE@[23] == crate::unicode::tables::STATE_23);
    } else if s == 24 {
        assert(LINEBREAK_STATE_MACHINE@[24] == crate::unicode::tables::STATE_24);
    } else if s == 25 {
        assert(LINEBREAK_STATE_MACHINE@[25] == crate::unicode::tables::STATE_25);
    } else if s == 26 {
        assert(LINEBREAK_STATE_MACHINE@[26] == crate::unicode::tables::STATE_26);
    } else if s == 27 {
        assert(LINEBREAK_STATE_MACHINE@[27] == crate::unicode::tables::STATE_27);
    } else if s == 28 {
        assert(LINEBREAK_STATE_MACHINE@[28] == crate::unicode::tables::STATE_28);
    } else if s == 29 {
        assert(LINEBREAK_STATE_MACHINE@[29] == crate::unicode::tables::STATE_29);
    } else if s == 30 {
        assert(LINEBREAK_STATE_MACHINE@[30] == crate::unicode::tables::STATE_30);
    } else if s == 31 {
        assert(LINEBREAK_STATE_MACHINE@[31] == crate::unicode::tables::STATE_31);
    } else if s == 32 {
        assert(LINEBREAK_STATE_MACHINE@[32] == crate::unicode::tables::STATE_32);
    } else if s == 33 {
        assert(LINEBREAK_STATE_MACHINE@[33] == crate::unicode::tables::STATE_33);
    } else if s == 34 {
        assert(LINEBREAK_STATE_MACHINE@[34] == crate::unicode::tables::STATE_34);
    } else if s == 35 {
        assert(LINEBREAK_STATE_MACHINE@[35] == crate::unicode::tables::STATE_35);
    } else if s == 36 {
        assert(LINEBREAK_STATE_MACHINE@[36] == crate::unicode::tables::STATE_36);
    } else if s == 37 {
        assert(LINEBREAK_STATE_MACHINE@[37] == crate::unicode::tables::STATE_37);
    } else if s == 38 {
        assert(LINEBREAK_STATE_MACHINE@[38] == crate::unicode::tables::STATE_38);
    } else if s == 39 {
        assert(LINEBREAK_STATE_MACHINE@[39] == crate::unicode::tables::STATE_39);
    } else if s == 40 {
        assert(LINEBREAK_STATE_MACHINE@[40] == crate::unicode::tables::STATE_40);
    } else if s == 41 {
        assert(LINEBREAK_STATE_MACHINE@[41] == crate::unicode::tables::STATE_41);
    } else if s == 42 {
        assert(LINEBREAK_STATE_MACHINE@[42] == crate::unicode::tables::STATE_42);
    } else if s == 43 {
        assert(LINEBREAK_STATE_MACHINE@[43] == crate::unicode::tables::STATE_43);
    } else if s == 44 {
        assert(LINEBREAK_STATE_MACHINE@[44] == crate::unicode::tables::STATE_44);
    } else if s == 45 {
        assert(LINEBREAK_STATE_MACHINE@[45] == crate::unicode::tables::STATE_45);
    } else if s == 46 {
        assert(LINEBREAK_STATE_MACHINE@[46] == crate::unicode::tables::STATE_46);
    } else if s == 47 {
        assert(LINEBREAK_STATE_MACHINE@[47] == crate::unicode::tables::STATE_47);
    } else if s == 48 {
        assert(LINEBREAK_STATE_MACHINE@[48] == crate::unicode::tables::STATE_48);
    } else if s == 49 {
        assert(LINEBREAK_STATE_MACHINE@[49] == crate::unicode::tables::STATE_49);
    } else if s == 50 {
        assert(LINEBREAK_STATE_MACHINE@[50] == crate::unicode::tables::STATE_50);
    } else if s == 51 {
        assert(LINEBREAK_STATE_MACHINE@[51] == crate::unicode::tables::STATE_51);
    } else if s == 52 {
        assert(LINEBREAK_STATE_MACHINE@[52] == crate::unicode::tables::STATE_52);
    } else if s == 53 {
        assert(LINEBREAK_STATE_MACHINE@[53] == crate::unicode::tables::STATE_53);
    } else if s == 54 {
        assert(LINEBREAK_STATE_MACHINE@[54] == crate::unicode::tables::STATE_54);
    } else if s == 55 {
        assert(LINEBREAK_STATE_MACHINE@[55] == crate::unicode::tables::STATE_55);
    } else if s == 56 {
        assert(LINEBREAK_STATE_MACHINE@[56] == crate::unicode::tables::STATE_56);
    } else if s == 57 {
        assert(LINEBREAK_STATE_MACHINE@[57] == crate::unicode::tables::STATE_57);
    } else if s == 58 {
        assert(LINEBREAK_STATE_MACHINE@[58] == crate::unicode::tables::STATE_58);
    } else if s == 59 {
        assert(LINEBREAK_STATE_MACHINE@[59] == crate::unicode::tables::STATE_59);
    } else if s == 60 {
        assert(LINEBREAK_STATE_MACHINE@[60] == crate::unicode::tables::STATE_60);
    } else if s == 61 {
        assert(LINEBREAK_STATE_MACHINE@[61] == crate::unicode::tables::STATE_61);
    } else if s == 62 {
        assert(LINEBREAK_STATE_MACHINE@[62] == crate::unicode::tables::STATE_62);
    } else if s == 63 {
        assert(LINEBREAK_STATE_MACHINE@[63] == crate::unicode::tables::STATE_63);
    } else if s == 64 {
        assert(LINEBREAK_STATE_MACHINE@[64] == crate::unicode::tables::STATE_64);
    } else if s == 65 {
        assert(LINEBREAK_STATE_MACHINE@[65] == crate::unicode::tables::STATE_65);
    } else if s == 66 {
        assert(LINEBREAK_STATE_MACHINE@[66] == crate::unicode::tables::STATE_66);
    } else if s == 67 {
        assert(LINEBREAK_STATE_MACHINE@[67] == crate::unicode::tables::STATE_67);
    } else if s == 68 {
        assert(LINEBREAK_STATE_MACHINE@[68] == crate::unicode::tables::STATE_68);
    } else if s == 69 {
        assert(LINEBREAK_STATE_MACHINE@[69] == crate::unicode::tables::STATE_69);
    } else if s == 70 {
        assert(LINEBREAK_STATE_MACHINE@[70] == crate::unicode::tables::STATE_70);
    } else if s == 71 {
        assert(LINEBREAK_STATE_MACHINE@[71] == crate::unicode::tables::STATE_71);
    } else if s == 72 {
        assert(LINEBREAK_STATE_MACHINE@[72] == crate::unicode::tables::STATE_72);
    } else if s == 73 {
        assert(LINEBREAK_STATE_MACHINE@[73] == crate::unicode::tables::STATE_73);
    } else if s == 74 {
        assert(LINEBREAK_STATE_MACHINE@[74] == crate::unicode::tables::STATE_74);
    } else if s == 75 {
        assert(LINEBREAK_STATE_MACHINE@[75] == crate::unicode::tables::STATE_75);
    } else if s == 76 {
        assert(LINEBREAK_STATE_MACHINE@[76] == crate::unicode::tables::STATE_76);
    } else if s == 77 {
        assert(LINEBREAK_STATE_MACHINE@[77] == crate::unicode::tables::STATE_77);
    } else if s == 78 {
        assert(LINEBREAK_STATE_MACHINE@[78] == crate::unicode::tables::STATE_78);
    } else if s == 79 {
        assert(LINEBREAK_STATE_MACHINE@[79] == crate::unicode::tables::STATE_79);
    } else if s == 80 {
        assert(LINEBREAK_STATE_MACHINE@[80] == crate::unicode::tables::STATE_80);
    } else if s == 81 {
        assert(LINEBREAK_STATE_MACHINE@[81] == crate::unicode::tables::STATE_81);
    } else if s == 82 {
        assert(LINEBREAK_STATE_MACHINE@[82] == crate::unicode::tables::STATE_82);
    } else if s == 83 {
        assert(LINEBREAK_STATE_MACHINE@[83] == crate::unicode::tables::STATE_83);
    } else if s == 84 {
        assert(LINEBREAK_STATE_MACHINE@[84] == crate::unicode::tables::STATE_84);
    } else if s == 85 {
        assert(LINEBREAK_STATE_MACHINE@[85] == crate::unicode::tables::STATE_85);
    } else if s == 86 {
        assert(LINEBREAK_STATE_MACHINE@[86] == crate::unicode::tables::STATE_86);
    } else if s == 87 {
        assert(LINEBREAK_STATE_MACHINE@[87] == crate::unicode::tables::STATE_87);
    } else if s == 88 {
        assert(LINEBREAK_STATE_MACHINE@[88] == crate::unicode::tables::STATE_88);
    }
}

/// From the states of the classes BK, LF and NL every character gets a hard break.
proof fn lemma_mandatory_rows(k: int)
    requires
        0 <= k < 43,
    ensures
        LINEBREAK_STATE_MACHINE@[6]@[k] >= 192,
        LINEBREAK_STATE_MACHINE@[17]@[k] >= 192,
        LINEBREAK_STATE_MACHINE@[29]@[k] >= 192,
{
    assert(LINEBREAK_STATE_MACHINE@[6] == crate::unicode::tables::STATE_6);
    assert(LINEBREAK_STATE_MACHINE@[17] == crate::unicode::tables::STATE_17);
    assert(LINEBREAK_STATE_MACHINE@[29] == crate::unicode::tables::STATE_29);
}

/// A mandatory break follows every character of class BK, LF or NL: whatever state a linebreaker
/// is in, after such a character the next character of any class gets a hard break.
pub proof fn lemma_break_after_mandatory(state: u8, c: char, d: char)
    requires
        state < 89,
        linebreak_class(c) == 6 || linebreak_class(c) == 17 || linebreak_class(c) == 29,
        linebreak_class(d) < 43,
    ensures
        linebreak_step(linebreak_step(state, c).1, d).0 == 2,
{
    lemma_mandatory_column(state as int);
    lemma_linebreak_transition(state, c);
    let next = linebreak_step(state, c).1;
    lemma_linebreak_transition(next, d);
    lemma_mandatory_rows(linebreak_class(d) as int);
}

/// A linebreaker's reports depend on its state alone: two linebreakers in the same state (a new
/// one and a reset one are both in state 0) report the same linebreaks for the same text, and
/// each report is the first step of the state machine.
pub proof fn lemma_linebreaks_by_state(a: Linebreaker, b: Linebreaker, cs: Seq<char>)
    requires
        a.state() == b.state(),
        cs.len() > 0,
    ensures
        linebreaks_from(a.state(), cs) == linebreaks_from(b.state(), cs),
        linebreaks_from(a.state(), cs)[0] == linebreak_step(a.state(), cs[0]).0,
{
}

} // verus!
