//! The primitive codec: a cursor over bytes in memory, and the readers for
//! big-endian integers, fixed-point numbers, angles, optional values and
//! bit-packed flags.
//!
//! Every reader takes what it needs from the cursor or fails with
//! [`DecodeError::IoFailure`]; a failed read leaves the cursor at the end of
//! its input, so that every later read fails too.

use crate::error::DecodeError;
use vstd::prelude::*;
use vstd::slice::slice_subrange;

verus! {

/// What a cursor is to its callers: the bytes it reads from, and how many of
/// them lie before the next read. The position may lie past the end.
pub struct CursorState {
    pub source: Seq<u8>,
    pub position: int,
}

impl CursorState {
    /// The number of bytes from the position to the end of the input.
    pub open spec fn left(self) -> int {
        if self.position <= self.source.len() {
            self.source.len() - self.position
        } else {
            0
        }
    }

    /// Whether `count` more bytes can be read.
    pub open spec fn has(self, count: int) -> bool {
        count <= 0 || self.position + count <= self.source.len()
    }

    /// The state after an attempt to read `count` bytes: past them where they
    /// were there, at the end of the input where they were not.
    pub open spec fn after_read(self, count: int) -> CursorState {
        CursorState {
            source: self.source,
            position: if self.has(count) {
                self.position + count
            } else {
                self.source.len() as int
            },
        }
    }
}

/// A read position in a borrowed run of bytes.
#[derive(Clone, Copy, Debug)]
pub struct ByteCursor<'a> {
    data: &'a [u8],
    pos: u64,
}

impl<'a> View for ByteCursor<'a> {
    type V = CursorState;

    closed spec fn view(&self) -> CursorState {
        CursorState { source: self.data@, position: self.pos as int }
    }
}

impl<'a> ByteCursor<'a> {
    /// A cursor at the start of `data`.
    pub fn new(data: &'a [u8]) -> (cursor: Self)
        ensures
            cursor@.source == data@,
            cursor@.position == 0,
    {
        ByteCursor { data, pos: 0 }
    }

    /// The number of bytes before the next read.
    pub fn position(&self) -> (position: u64)
        ensures
            position == self@.position,
    {
        self.pos
    }

    /// Moves the cursor to `position`, counted from the start of the input.
    /// A position past the end is allowed; reads fail there.
    pub fn seek(&mut self, position: u64)
        ensures
            final(self)@.source == old(self)@.source,
            final(self)@.position == position,
    {
        self.pos = position;
    }

    /// The number of bytes that can still be read.
    pub fn remaining(&self) -> (count: usize)
        ensures
            count == self@.left(),
            self@.source.len() <= usize::MAX,
    {
        let len: usize = self.data.len();
        if self.pos <= len as u64 {
            len - self.pos as usize
        } else {
            0
        }
    }

    /// Reads the next `count` bytes.
    pub fn read_bytes(&mut self, count: usize) -> (r: Result<&'a [u8], DecodeError>)
        ensures
            final(self)@ == old(self)@.after_read(count as int),
            r is Ok <==> old(self)@.has(count as int),
            r matches Ok(bytes) ==> bytes@ == bytes_at(
                old(self)@.source,
                old(self)@.position,
                count as int,
            ),
            r matches Err(e) ==> e == DecodeError::IoFailure,
    {
        if self.remaining() < count {
            self.pos = self.data.len() as u64;
            return Err(DecodeError::IoFailure);
        }
        if count == 0 {
            let bytes = slice_subrange(self.data, 0, 0);
            assert(bytes@ =~= bytes_at(self@.source, self@.position, 0));
            return Ok(bytes);
        }
        let start: usize = self.pos as usize;
        let bytes = slice_subrange(self.data, start, start + count);
        assert(bytes@ =~= bytes_at(self@.source, self@.position, count as int));
        self.pos = self.pos + count as u64;
        Ok(bytes)
    }

    /// Reads a four-byte tag.
    pub fn read_tag(&mut self) -> (r: Result<[u8; 4], DecodeError>)
        ensures
            final(self)@ == old(self)@.after_read(4),
            r is Ok <==> old(self)@.has(4),
            r matches Ok(tag) ==> tag == tag_at(old(self)@.source, old(self)@.position),
            r matches Err(e) ==> e == DecodeError::IoFailure,
    {
        if self.remaining() < 4 {
            self.pos = self.data.len() as u64;
            return Err(DecodeError::IoFailure);
        }
        let at: usize = self.pos as usize;
        let tag: [u8; 4] = [self.data[at], self.data[at + 1], self.data[at + 2], self.data[at + 3]];
        assert(tag =~= tag_at(old(self)@.source, old(self)@.position));
        self.pos = self.pos + 4;
        Ok(tag)
    }
}

/// The `count` bytes from `at` on.
pub open spec fn bytes_at(bytes: Seq<u8>, at: int, count: int) -> Seq<u8> {
    Seq::new(count as nat, |i: int| bytes[at + i])
}

/// The four bytes at `at`, as a tag.
pub open spec fn tag_at(bytes: Seq<u8>, at: int) -> [u8; 4] {
    [bytes[at], bytes[at + 1], bytes[at + 2], bytes[at + 3]]
}

/// The big-endian 16-bit word at `at`.
pub open spec fn be16_at(bytes: Seq<u8>, at: int) -> u16 {
    (bytes[at] * 0x100 + bytes[at + 1]) as u16
}

/// The big-endian 32-bit word at `at`.
pub open spec fn be32_at(bytes: Seq<u8>, at: int) -> u32 {
    (bytes[at] * 0x100_0000 + bytes[at + 1] * 0x1_0000 + bytes[at + 2] * 0x100 + bytes[at
        + 3]) as u32
}

/// A 16-bit word read as a two's-complement number.
pub open spec fn signed16(word: u16) -> i16 {
    if word < 0x8000 {
        word as i16
    } else {
        (word - 0x1_0000) as i16
    }
}

/// A 32-bit word read as a two's-complement number.
pub open spec fn signed32(word: u32) -> i32 {
    if word < 0x8000_0000 {
        word as i32
    } else {
        (word - 0x1_0000_0000) as i32
    }
}

/// A 16-bit word whose bit `0x8000` marks an absent value.
pub open spec fn optional16(word: u16) -> Option<u16> {
    if word & 0x8000 != 0 {
        None
    } else {
        Some(word)
    }
}

/// A 32-bit word whose bit `0x8000` marks an absent value. The mark is bit 15
/// here too, not the word's top bit: this is how the files are written.
pub open spec fn optional32(word: u32) -> Option<u32> {
    if word & 0x8000 != 0 {
        None
    } else {
        Some(word)
    }
}

/// Whether bit `bit` of `word` is set. Bits past the word are not set.
pub open spec fn flag(word: u32, bit: int) -> bool {
    0 <= bit < 32 && word & (1u32 << (bit as u32)) != 0
}

/// The lowest `count` flags of `word`, bit 0 first.
pub open spec fn flag_bits(word: u32, count: nat) -> Seq<bool> {
    Seq::new(count, |bit: int| flag(word, bit))
}

/// The bits below `limit` that are set in `word`, in ascending order.
pub open spec fn set_bits_below(word: u32, limit: nat) -> Seq<u32>
    decreases limit,
{
    if limit == 0 {
        Seq::empty()
    } else if flag(word, limit - 1) {
        set_bits_below(word, (limit - 1) as nat).push((limit - 1) as u32)
    } else {
        set_bits_below(word, (limit - 1) as nat)
    }
}

/// The bits that are set in `word`, in ascending order.
pub open spec fn set_bits(word: u32) -> Seq<u32> {
    set_bits_below(word, 32)
}

/// A signed number in units of 1/65536.
#[derive(Clone, Copy, Debug, PartialEq, Eq)]
pub struct Fixed16_16 {
    pub raw: i32,
}

/// A signed number in units of 1/1024: a distance, speed or acceleration in
/// the world.
#[derive(Clone, Copy, Debug, PartialEq, Eq)]
pub struct Fixed6_10 {
    pub raw: i16,
}

/// An angle in units of 1/512 of a full turn.
#[derive(Clone, Copy, Debug, PartialEq, Eq)]
pub struct Angle {
    pub raw: i16,
}

/// The present 16-bit value as a number in units of 1/1024.
pub open spec fn optional_fixed(word: Option<u16>) -> Option<Fixed6_10> {
    match word {
        Some(w) => Some(Fixed6_10 { raw: signed16(w) }),
        None => None,
    }
}

/// The signed 16-bit number at `at`.
pub open spec fn signed16_at(bytes: Seq<u8>, at: int) -> i16 {
    signed16(be16_at(bytes, at))
}

/// The 32-bit fixed-point number at `at`.
pub open spec fn fixed16_16_at(bytes: Seq<u8>, at: int) -> Fixed16_16 {
    Fixed16_16 { raw: signed32(be32_at(bytes, at)) }
}

/// The 16-bit fixed-point number at `at`.
pub open spec fn fixed6_10_at(bytes: Seq<u8>, at: int) -> Fixed6_10 {
    Fixed6_10 { raw: signed16(be16_at(bytes, at)) }
}

/// The optional 16-bit fixed-point number at `at`.
pub open spec fn optional_fixed6_10_at(bytes: Seq<u8>, at: int) -> Option<Fixed6_10> {
    optional_fixed(optional16(be16_at(bytes, at)))
}

/// The angle at `at`.
pub open spec fn angle_at(bytes: Seq<u8>, at: int) -> Angle {
    Angle { raw: signed16(be16_at(bytes, at)) }
}

/// The optional 16-bit value at `at`.
pub open spec fn optional16_at(bytes: Seq<u8>, at: int) -> Option<u16> {
    optional16(be16_at(bytes, at))
}

/// The optional 32-bit value at `at`.
pub open spec fn optional32_at(bytes: Seq<u8>, at: int) -> Option<u32> {
    optional32(be32_at(bytes, at))
}

/// The set bits of the 32-bit word at `at`, in ascending order.
pub open spec fn set_bits_at(bytes: Seq<u8>, at: int) -> Seq<u32> {
    set_bits(be32_at(bytes, at))
}

/// The collection that a shape descriptor names: its five low bits.
pub open spec fn shape_collection(shape: Option<u16>) -> Option<u16> {
    match shape {
        Some(descriptor) => Some(descriptor % 32),
        None => None,
    }
}

/// The colour table that a shape descriptor names: the bits above its
/// collection.
pub open spec fn shape_clut(shape: Option<u16>) -> Option<u16> {
    match shape {
        Some(descriptor) => Some(descriptor / 32),
        None => None,
    }
}

/// The collection that a shape descriptor names.
pub fn collection_of(shape: Option<u16>) -> (collection: Option<u16>)
    ensures
        collection == shape_collection(shape),
{
    match shape {
        Some(descriptor) => Some(descriptor % 32),
        None => None,
    }
}

/// The colour table that a shape descriptor names.
pub fn clut_of(shape: Option<u16>) -> (clut: Option<u16>)
    ensures
        clut == shape_clut(shape),
{
    match shape {
        Some(descriptor) => Some(descriptor / 32),
        None => None,
    }
}

fn to_signed16(word: u16) -> (value: i16)
    ensures
        value == signed16(word),
{
    if word < 0x8000 {
        word as i16
    } else {
        (word as i32 - 0x1_0000) as i16
    }
}

fn to_signed32(word: u32) -> (value: i32)
    ensures
        value == signed32(word),
{
    if word < 0x8000_0000 {
        word as i32
    } else {
        (word as i64 - 0x1_0000_0000) as i32
    }
}

/// Reads a big-endian 16-bit word.
pub fn read16(input: &mut ByteCursor) -> (r: Result<u16, DecodeError>)
    ensures
        final(input)@ == old(input)@.after_read(2),
        r is Ok <==> old(input)@.has(2),
        r matches Ok(word) ==> word == be16_at(old(input)@.source, old(input)@.position),
        r matches Err(e) ==> e == DecodeError::IoFailure,
{
    let bytes = input.read_bytes(2)?;
    let high: u16 = bytes[0] as u16;
    let low: u16 = bytes[1] as u16;
    Ok(high * 0x100 + low)
}

/// Reads a big-endian 32-bit word.
pub fn read32(input: &mut ByteCursor) -> (r: Result<u32, DecodeError>)
    ensures
        final(input)@ == old(input)@.after_read(4),
        r is Ok <==> old(input)@.has(4),
        r matches Ok(word) ==> word == be32_at(old(input)@.source, old(input)@.position),
        r matches Err(e) ==> e == DecodeError::IoFailure,
{
    let bytes = input.read_bytes(4)?;
    let b0: u32 = bytes[0] as u32;
    let b1: u32 = bytes[1] as u32;
    let b2: u32 = bytes[2] as u32;
    let b3: u32 = bytes[3] as u32;
    Ok(b0 * 0x100_0000 + b1 * 0x1_0000 + b2 * 0x100 + b3)
}

/// Reads a signed big-endian 16-bit number.
pub fn read_signed_16(input: &mut ByteCursor) -> (r: Result<i16, DecodeError>)
    ensures
        final(input)@ == old(input)@.after_read(2),
        r is Ok <==> old(input)@.has(2),
        r matches Ok(value) ==> value == signed16_at(old(input)@.source, old(input)@.position),
        r matches Err(e) ==> e == DecodeError::IoFailure,
{
    let word = read16(input)?;
    Ok(to_signed16(word))
}

/// Reads a 32-bit fixed-point number with 16 fraction bits.
pub fn read_fx_16_16(input: &mut ByteCursor) -> (r: Result<Fixed16_16, DecodeError>)
    ensures
        final(input)@ == old(input)@.after_read(4),
        r is Ok <==> old(input)@.has(4),
        r matches Ok(value) ==> value == fixed16_16_at(old(input)@.source, old(input)@.position),
        r matches Err(e) ==> e == DecodeError::IoFailure,
{
    let word = read32(input)?;
    Ok(Fixed16_16 { raw: to_signed32(word) })
}

/// Reads a 16-bit fixed-point number with 10 fraction bits.
pub fn read_fx_6_10(input: &mut ByteCursor) -> (r: Result<Fixed6_10, DecodeError>)
    ensures
        final(input)@ == old(input)@.after_read(2),
        r is Ok <==> old(input)@.has(2),
        r matches Ok(value) ==> value == fixed6_10_at(old(input)@.source, old(input)@.position),
        r matches Err(e) ==> e == DecodeError::IoFailure,
{
    let word = read16(input)?;
    Ok(Fixed6_10 { raw: to_signed16(word) })
}

/// Reads an optional 16-bit fixed-point number with 10 fraction bits. The
/// word `0x8000` and above stands for no value.
pub fn read_optional_fx_6_10(input: &mut ByteCursor) -> (r: Result<Option<Fixed6_10>, DecodeError>)
    ensures
        final(input)@ == old(input)@.after_read(2),
        r is Ok <==> old(input)@.has(2),
        r matches Ok(value) ==> value == optional_fixed6_10_at(
            old(input)@.source,
            old(input)@.position,
        ),
        r matches Err(e) ==> e == DecodeError::IoFailure,
{
    match read_optional_16(input)? {
        Some(word) => Ok(Some(Fixed6_10 { raw: to_signed16(word) })),
        None => Ok(None),
    }
}

/// Reads an angle: a signed 16-bit count of 512ths of a full turn.
pub fn read_angle(input: &mut ByteCursor) -> (r: Result<Angle, DecodeError>)
    ensures
        final(input)@ == old(input)@.after_read(2),
        r is Ok <==> old(input)@.has(2),
        r matches Ok(value) ==> value == angle_at(old(input)@.source, old(input)@.position),
        r matches Err(e) ==> e == DecodeError::IoFailure,
{
    let word = read16(input)?;
    Ok(Angle { raw: to_signed16(word) })
}

/// Reads an optional 16-bit value.
pub fn read_optional_16(input: &mut ByteCursor) -> (r: Result<Option<u16>, DecodeError>)
    ensures
        final(input)@ == old(input)@.after_read(2),
        r is Ok <==> old(input)@.has(2),
        r matches Ok(value) ==> value == optional16_at(old(input)@.source, old(input)@.position),
        r matches Err(e) ==> e == DecodeError::IoFailure,
{
    let word = read16(input)?;
    if word & 0x8000 != 0 {
        Ok(None)
    } else {
        Ok(Some(word))
    }
}

/// Reads an optional 32-bit value.
pub fn read_optional_32(input: &mut ByteCursor) -> (r: Result<Option<u32>, DecodeError>)
    ensures
        final(input)@ == old(input)@.after_read(4),
        r is Ok <==> old(input)@.has(4),
        r matches Ok(value) ==> value == optional32_at(old(input)@.source, old(input)@.position),
        r matches Err(e) ==> e == DecodeError::IoFailure,
{
    let word = read32(input)?;
    if word & 0x8000 != 0 {
        Ok(None)
    } else {
        Ok(Some(word))
    }
}

/// The indices of the bits that are set in `word`, in ascending order.
pub fn bit_indices(word: u32) -> (indices: Vec<u32>)
    ensures
        indices@ == set_bits(word),
{
    let mut indices: Vec<u32> = Vec::new();
    let mut bit: u32 = 0;
    while bit < 32
        invariant
            bit <= 32,
            indices@ == set_bits_below(word, bit as nat),
        decreases 32 - bit,
    {
        if word & (1u32 << bit) != 0 {
            indices.push(bit);
        }
        bit = bit + 1;
    }
    indices
}

/// Reads a 32-bit word as a set of bit indices.
pub fn read_generic_bitfield32(input: &mut ByteCursor) -> (r: Result<Vec<u32>, DecodeError>)
    ensures
        final(input)@ == old(input)@.after_read(4),
        r is Ok <==> old(input)@.has(4),
        r matches Ok(indices) ==> indices@ == set_bits_at(old(input)@.source, old(input)@.position),
        r matches Err(e) ==> e == DecodeError::IoFailure,
{
    let word = read32(input)?;
    Ok(bit_indices(word))
}

/// The test mask for flag `bit`: one set bit that moves left by one place for
/// each flag, and is gone after the 32nd.
pub open spec fn test_mask(bit: int) -> u32 {
    if 0 <= bit < 32 {
        1u32 << (bit as u32)
    } else {
        0
    }
}

proof fn lemma_mask_step(bit: u32)
    ensures
        test_mask(bit as int) << 1 == test_mask(bit + 1),
{
    if bit < 31 {
        assert(((1u32 << bit) << 1) == (1u32 << ((bit + 1) as u32))) by (bit_vector)
            requires
                bit < 31,
        ;
    } else if bit == 31 {
        assert(((1u32 << 31u32) << 1) == 0u32) by (bit_vector);
    } else {
        assert((0u32 << 1) == 0u32) by (bit_vector);
    }
}

/// Splits `word` into `count` flags, bit 0 first.
pub fn decode_flags(word: u32, count: usize) -> (flags: Vec<bool>)
    ensures
        flags@ == flag_bits(word, count as nat),
{
    let mut flags: Vec<bool> = Vec::new();
    let mut mask: u32 = 1;
    let mut bit: usize = 0;
    assert(1u32 << 0u32 == 1u32) by (bit_vector);
    while bit < count
        invariant
            bit <= count,
            mask == test_mask(bit as int),
            flags@ == flag_bits(word, bit as nat),
        decreases count - bit,
    {
        assert(word & 0 == 0) by (bit_vector);
        flags.push(word & mask != 0);
        proof {
            if bit < 32 {
                lemma_mask_step(bit as u32);
            } else {
                assert((0u32 << 1) == 0u32) by (bit_vector);
            }
            assert(flags@ =~= flag_bits(word, (bit + 1) as nat));
        }
        mask = mask << 1;
        bit = bit + 1;
    }
    flags
}

/// An optional 16-bit value is absent exactly from `0x8000` on; below that it
/// is present and unchanged.
pub proof fn lemma_optional16(word: u16)
    ensures
        word < 0x8000 ==> optional16(word) == Some(word),
        word >= 0x8000 ==> optional16(word) is None,
{
    assert(word < 0x8000 <==> word & 0x8000 == 0) by (bit_vector);
}

/// An optional 32-bit value is judged by its low 16 bits alone: it is absent
/// exactly when they are `0x8000` or more.
pub proof fn lemma_optional32(word: u32)
    ensures
        word % 0x1_0000 < 0x8000 ==> optional32(word) == Some(word),
        word % 0x1_0000 >= 0x8000 ==> optional32(word) is None,
{
    assert(word % 0x1_0000 < 0x8000 <==> word & 0x8000 == 0) by (bit_vector);
}

/// The set bits come out in ascending order, each below 32, and a bit is among
/// them exactly if it is set.
pub proof fn lemma_set_bits(word: u32)
    ensures
        forall|i: int| 0 <= i < set_bits(word).len() ==> #[trigger] set_bits(word)[i] < 32,
        forall|i: int, j: int|
            0 <= i < j < set_bits(word).len() ==> set_bits(word)[i] < set_bits(word)[j],
        forall|bit: u32| #[trigger] set_bits(word).contains(bit) <==> flag(word, bit as int),
{
    lemma_set_bits_below(word, 32);
}

proof fn lemma_set_bits_below(word: u32, limit: nat)
    requires
        limit <= 32,
    ensures
        forall|i: int|
            0 <= i < set_bits_below(word, limit).len() ==> #[trigger] set_bits_below(
                word,
                limit,
            )[i] < limit,
        forall|i: int, j: int|
            0 <= i < j < set_bits_below(word, limit).len() ==> set_bits_below(word, limit)[i]
                < set_bits_below(word, limit)[j],
        forall|bit: u32| #[trigger]
            set_bits_below(word, limit).contains(bit) <==> bit < limit && flag(word, bit as int),
    decreases limit,
{
    if limit > 0 {
        let below = set_bits_below(word, (limit - 1) as nat);
        let all = set_bits_below(word, limit);
        lemma_set_bits_below(word, (limit - 1) as nat);
        let top = (limit - 1) as u32;
        assert forall|bit: u32| #[trigger]
            all.contains(bit) <==> bit < limit && flag(word, bit as int) by {
            if flag(word, limit - 1) {
                assert(all == below.push(top));
                if all.contains(bit) {
                    let i = choose|i: int| 0 <= i < all.len() && all[i] == bit;
                    if i < below.len() {
                        assert(below.contains(bit));
                    }
                }
                if bit < limit && flag(word, bit as int) {
                    if bit == top {
                        assert(all[below.len() as int] == bit);
                    } else {
                        assert(below.contains(bit));
                        let i = choose|i: int| 0 <= i < below.len() && below[i] == bit;
                        assert(all[i] == bit);
                    }
                }
            }
        }
    }
}

} // verus!
