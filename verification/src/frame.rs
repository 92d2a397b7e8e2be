//! The telemetry frame and its wire layout.
//!
//! A frame is a fixed record of thirty bytes: a begin marker, a selector
//! code, three rotation angles, three translation distances and an end
//! marker. Every multi-byte field goes out least significant byte first and
//! nothing pads the fields. Angles and distances are single-precision
//! numbers; this module carries each of them as its 32-bit pattern and never
//! computes with it.

use vstd::prelude::*;

verus! {

/// Bytes that one frame takes on the wire.
pub const FRAME_LEN: usize = 30;

/// The marker in front of every frame.
pub const FRAME_BEGIN: u16 = 0xAAAA;

/// The marker behind every frame.
pub const FRAME_END: u16 = 0x5555;

/// One telemetry record.
///
/// `rot` holds the orientation as three Euler angles in degrees, `trans` the
/// position in centimetres, each as the bit pattern of a single-precision
/// number.
#[derive(Clone, Copy, Debug, PartialEq, Eq)]
pub struct HatireData {
    pub begin: u16,
    pub code: u16,
    pub rot: [u32; 3],
    pub trans: [u32; 3],
    pub end: u16,
}

/// The two bytes of a 16-bit word, least significant first.
pub open spec fn le16(x: u16) -> Seq<u8> {
    seq![(x % 256) as u8, (x / 256) as u8]
}

/// The four bytes of a 32-bit word, least significant first.
pub open spec fn le32(x: u32) -> Seq<u8> {
    seq![
        (x % 256) as u8,
        (x / 256 % 256) as u8,
        (x / 65536 % 256) as u8,
        (x / 16777216) as u8,
    ]
}

/// The 16-bit word whose least significant byte stands at `at`.
pub open spec fn word16(bytes: Seq<u8>, at: int) -> u16 {
    (bytes[at] + 256 * bytes[at + 1]) as u16
}

/// The 32-bit word whose least significant byte stands at `at`.
pub open spec fn word32(bytes: Seq<u8>, at: int) -> u32 {
    (bytes[at] + 256 * bytes[at + 1] + 65536 * bytes[at + 2] + 16777216 * bytes[at + 3]) as u32
}

/// The frame that thirty bytes stand for, if both markers are in place.
pub open spec fn parse(bytes: Seq<u8>) -> Option<HatireData> {
    if bytes.len() == FRAME_LEN && word16(bytes, 0) == FRAME_BEGIN && word16(bytes, 28)
        == FRAME_END {
        Some(
            HatireData {
                begin: FRAME_BEGIN,
                code: word16(bytes, 2),
                rot: [word32(bytes, 4), word32(bytes, 8), word32(bytes, 12)],
                trans: [word32(bytes, 16), word32(bytes, 20), word32(bytes, 24)],
                end: FRAME_END,
            },
        )
    } else {
        None
    }
}

fn put16(out: &mut [u8; 30], at: usize, x: u16)
    requires
        at + 2 <= 30,
    ensures
        final(out)@ == old(out)@.update(at as int, le16(x)[0]).update(at + 1, le16(x)[1]),
{
    out[at] = (x % 256) as u8;
    out[at + 1] = (x / 256) as u8;
}

fn put32(out: &mut [u8; 30], at: usize, x: u32)
    requires
        at + 4 <= 30,
    ensures
        final(out)@ == old(out)@.update(at as int, le32(x)[0]).update(at + 1, le32(x)[1]).update(
            at + 2,
            le32(x)[2],
        ).update(at + 3, le32(x)[3]),
{
    out[at] = (x % 256) as u8;
    out[at + 1] = (x / 256 % 256) as u8;
    out[at + 2] = (x / 65536 % 256) as u8;
    out[at + 3] = (x / 16777216) as u8;
}

fn get16(bytes: &[u8], at: usize) -> (x: u16)
    requires
        at + 2 <= bytes@.len(),
    ensures
        x == word16(bytes@, at as int),
{
    bytes[at] as u16 + 256 * (bytes[at + 1] as u16)
}

fn get32(bytes: &[u8], at: usize) -> (x: u32)
    requires
        at + 4 <= bytes@.len(),
    ensures
        x == word32(bytes@, at as int),
{
    bytes[at] as u32 + 256 * (bytes[at + 1] as u32) + 65536 * (bytes[at + 2] as u32) + 16777216 * (
    bytes[at + 3] as u32)
}

impl HatireData {
    /// Both markers hold their fixed values.
    pub open spec fn well_formed(&self) -> bool {
        self.begin == FRAME_BEGIN && self.end == FRAME_END
    }

    /// The bytes of this frame on the wire.
    pub open spec fn wire(&self) -> Seq<u8> {
        le16(self.begin) + le16(self.code) + le32(self.rot[0]) + le32(self.rot[1]) + le32(
            self.rot[2],
        ) + le32(self.trans[0]) + le32(self.trans[1]) + le32(self.trans[2]) + le16(self.end)
    }

    /// A frame with both markers set and everything else zero.
    pub fn new() -> (frame: Self)
        ensures
            frame.begin == FRAME_BEGIN,
            frame.code == 0,
            frame.rot@ == seq![0u32, 0u32, 0u32],
            frame.trans@ == seq![0u32, 0u32, 0u32],
            frame.end == FRAME_END,
    {
        Self { begin: FRAME_BEGIN, code: 0, rot: [0, 0, 0], trans: [0, 0, 0], end: FRAME_END }
    }

    /// Writes the frame out field by field.
    pub fn to_bytes(&self) -> (out: [u8; 30])
        ensures
            out@ == self.wire(),
    {
        let mut out = [0u8;30];
        put16(&mut out, 0, self.begin);
        put16(&mut out, 2, self.code);
        put32(&mut out, 4, self.rot[0]);
        put32(&mut out, 8, self.rot[1]);
        put32(&mut out, 12, self.rot[2]);
        put32(&mut out, 16, self.trans[0]);
        put32(&mut out, 20, self.trans[1]);
        put32(&mut out, 24, self.trans[2]);
        put16(&mut out, 28, self.end);
        out
    }

    /// Reads a frame back. Anything but thirty bytes between the two markers
    /// is turned down.
    pub fn from_bytes(bytes: &[u8]) -> (frame: Option<Self>)
        ensures
            frame == parse(bytes@),
    {
        if bytes.len() != FRAME_LEN {
            return None;
        }
        if get16(bytes, 0) != FRAME_BEGIN || get16(bytes, 28) != FRAME_END {
            return None;
        }
        let frame = Self {
            begin: FRAME_BEGIN,
            code: get16(bytes, 2),
            rot: [get32(bytes, 4), get32(bytes, 8), get32(bytes, 12)],
            trans: [get32(bytes, 16), get32(bytes, 20), get32(bytes, 24)],
            end: FRAME_END,
        };
        Some(frame)
    }
}

/// Every frame takes exactly thirty bytes, and a well-formed one starts with
/// the bytes `AA AA` and ends with the bytes `55 55`.
pub proof fn lemma_wire_layout(frame: HatireData)
    ensures
        frame.wire().len() == FRAME_LEN,
        frame.well_formed() ==> frame.wire()[0] == 0xAA && frame.wire()[1] == 0xAA
            && frame.wire()[28] == 0x55 && frame.wire()[29] == 0x55,
{
}

/// A 16-bit word survives being split into bytes and put together again.
pub proof fn lemma_word16_le16(x: u16)
    ensures
        le16(x).len() == 2,
        word16(le16(x), 0) == x,
{
}

/// A 32-bit word survives being split into bytes and put together again.
pub proof fn lemma_word32_le32(x: u32)
    ensures
        le32(x).len() == 4,
        word32(le32(x), 0) == x,
{
    let b = le32(x);
    assert(b[0] + 256 * b[1] + 65536 * b[2] + 16777216 * b[3] == x);
}

/// Two bytes survive being read as a 16-bit word and split again.
pub proof fn lemma_le16_word16(bytes: Seq<u8>)
    requires
        bytes.len() == 2,
    ensures
        le16(word16(bytes, 0)) == bytes,
{
    let x = bytes[0] + 256 * bytes[1];
    assert(x % 256 == bytes[0] && x / 256 == bytes[1]);
    assert(le16(word16(bytes, 0)) =~= bytes);
}

/// Four bytes survive being read as a 32-bit word and split again.
pub proof fn lemma_le32_word32(bytes: Seq<u8>)
    requires
        bytes.len() == 4,
    ensures
        le32(word32(bytes, 0)) == bytes,
{
    let x = bytes[0] + 256 * bytes[1] + 65536 * bytes[2] + 16777216 * bytes[3];
    assert(x % 256 == bytes[0]);
    assert(x / 256 == bytes[1] + 256 * bytes[2] + 65536 * bytes[3]);
    assert(x / 65536 == bytes[2] + 256 * bytes[3]);
    assert(x / 16777216 == bytes[3]);
    assert(le32(word32(bytes, 0)) =~= bytes);
}

proof fn lemma_word16_at(bytes: Seq<u8>, at: int, x: u16)
    requires
        0 <= at,
        at + 2 <= bytes.len(),
        bytes.subrange(at, at + 2) == le16(x),
    ensures
        word16(bytes, at) == x,
{
    let part = bytes.subrange(at, at + 2);
    assert(part[0] == bytes[at] && part[1] == bytes[at + 1]);
    lemma_word16_le16(x);
}

proof fn lemma_word32_at(bytes: Seq<u8>, at: int, x: u32)
    requires
        0 <= at,
        at + 4 <= bytes.len(),
        bytes.subrange(at, at + 4) == le32(x),
    ensures
        word32(bytes, at) == x,
{
    let part = bytes.subrange(at, at + 4);
    assert(part[0] == bytes[at] && part[1] == bytes[at + 1] && part[2] == bytes[at + 2] && part[3]
        == bytes[at + 3]);
    lemma_word32_le32(x);
}

proof fn lemma_le16_at(bytes: Seq<u8>, at: int)
    requires
        0 <= at,
        at + 2 <= bytes.len(),
    ensures
        le16(word16(bytes, at)) == bytes.subrange(at, at + 2),
{
    let part = bytes.subrange(at, at + 2);
    assert(part[0] == bytes[at] && part[1] == bytes[at + 1]);
    lemma_le16_word16(part);
}

proof fn lemma_le32_at(bytes: Seq<u8>, at: int)
    requires
        0 <= at,
        at + 4 <= bytes.len(),
    ensures
        le32(word32(bytes, at)) == bytes.subrange(at, at + 4),
{
    let part = bytes.subrange(at, at + 4);
    assert(part[0] == bytes[at] && part[1] == bytes[at + 1] && part[2] == bytes[at + 2] && part[3]
        == bytes[at + 3]);
    lemma_le32_word32(part);
}

/// Reading back what was written gives the frame that was written.
pub proof fn lemma_parse_wire(frame: HatireData)
    requires
        frame.well_formed(),
    ensures
        parse(frame.wire()) == Some(frame),
{
    let bytes = frame.wire();
    assert(bytes.subrange(0, 2) =~= le16(frame.begin));
    assert(bytes.subrange(2, 4) =~= le16(frame.code));
    assert(bytes.subrange(4, 8) =~= le32(frame.rot[0]));
    assert(bytes.subrange(8, 12) =~= le32(frame.rot[1]));
    assert(bytes.subrange(12, 16) =~= le32(frame.rot[2]));
    assert(bytes.subrange(16, 20) =~= le32(frame.trans[0]));
    assert(bytes.subrange(20, 24) =~= le32(frame.trans[1]));
    assert(bytes.subrange(24, 28) =~= le32(frame.trans[2]));
    assert(bytes.subrange(28, 30) =~= le16(frame.end));
    lemma_word16_at(bytes, 0, frame.begin);
    lemma_word16_at(bytes, 2, frame.code);
    lemma_word32_at(bytes, 4, frame.rot[0]);
    lemma_word32_at(bytes, 8, frame.rot[1]);
    lemma_word32_at(bytes, 12, frame.rot[2]);
    lemma_word32_at(bytes, 16, frame.trans[0]);
    lemma_word32_at(bytes, 20, frame.trans[1]);
    lemma_word32_at(bytes, 24, frame.trans[2]);
    lemma_word16_at(bytes, 28, frame.end);
    let back = parse(bytes).unwrap();
    assert(back.rot =~= frame.rot);
    assert(back.trans =~= frame.trans);
}

/// Writing out what was read gives the bytes that were read.
pub proof fn lemma_wire_parse(bytes: Seq<u8>)
    requires
        parse(bytes) is Some,
    ensures
        parse(bytes).unwrap().wire() == bytes,
        parse(bytes).unwrap().well_formed(),
{
    let frame = parse(bytes).unwrap();
    lemma_le16_at(bytes, 0);
    lemma_le16_at(bytes, 2);
    lemma_le32_at(bytes, 4);
    lemma_le32_at(bytes, 8);
    lemma_le32_at(bytes, 12);
    lemma_le32_at(bytes, 16);
    lemma_le32_at(bytes, 20);
    lemma_le32_at(bytes, 24);
    lemma_le16_at(bytes, 28);
    assert(frame.wire() =~= bytes.subrange(0, 2) + bytes.subrange(2, 4) + bytes.subrange(4, 8)
        + bytes.subrange(8, 12) + bytes.subrange(12, 16) + bytes.subrange(16, 20) + bytes.subrange(
        20,
        24,
    ) + bytes.subrange(24, 28) + bytes.subrange(28, 30));
    assert(frame.wire() =~= bytes);
}

/// Bytes that are whole frames, one behind the other, each with both markers
/// in place.
pub open spec fn whole_frames(bytes: Seq<u8>) -> bool
    decreases bytes.len(),
{
    if bytes.len() == 0 {
        true
    } else {
        bytes.len() >= FRAME_LEN && parse(bytes.take(FRAME_LEN as int)) is Some && whole_frames(
            bytes.skip(FRAME_LEN as int),
        )
    }
}

/// A row of whole frames with one more well-formed frame written behind it is
/// again a row of whole frames: a reader that takes thirty bytes at a time
/// never loses its place.
pub proof fn lemma_whole_frames_append(bytes: Seq<u8>, frame: HatireData)
    requires
        whole_frames(bytes),
        frame.well_formed(),
    ensures
        whole_frames(bytes + frame.wire()),
    decreases bytes.len(),
{
    let more = bytes + frame.wire();
    lemma_parse_wire(frame);
    lemma_wire_layout(frame);
    if bytes.len() == 0 {
        assert(more.take(FRAME_LEN as int) =~= frame.wire());
        assert(more.skip(FRAME_LEN as int) =~= Seq::<u8>::empty());
        assert(whole_frames(more.skip(FRAME_LEN as int)));
    } else {
        assert(more.take(FRAME_LEN as int) =~= bytes.take(FRAME_LEN as int));
        assert(more.skip(FRAME_LEN as int) =~= bytes.skip(FRAME_LEN as int) + frame.wire());
        lemma_whole_frames_append(bytes.skip(FRAME_LEN as int), frame);
    }
}

} // verus!
