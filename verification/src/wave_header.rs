//! One-pass parser for the chunked audio container that carries the raw
//! sample payload.
//!
//! The container is a sequence of chunks, each a 4-byte ASCII tag followed by
//! a little-endian 32-bit size and that many payload bytes.  The parser walks
//! the header chunks left to right, never backtracking: the "RIFF" envelope,
//! the mandatory "fmt " chunk, an optional "fact" chunk, and finally the
//! "data" chunk whose payload is the raw samples.  Only linear PCM is
//! accepted.  `spec_parse_header` is the full mathematical statement of the
//! walk, including which error each malformed input produces;
//! `parse_header` is proved to return exactly that.

use vstd::prelude::*;

use crate::Error;

verus! {

/// Tags of the chunks the parser recognizes.
#[derive(Debug, Copy, Clone, PartialEq, Eq, Structural)]
pub enum ChunkId {
    /// "RIFF"
    RIFF,
    /// "fmt "
    FMT,
    /// "fact"
    FACT,
    /// "data"
    DATA,
}

impl ChunkId {
    /// The tag's four ASCII bytes read as a little-endian 32-bit value.
    pub open spec fn spec_le_u32(self) -> u32 {
        match self {
            ChunkId::RIFF => 0x4646_4952,
            ChunkId::FMT => 0x2074_6D66,
            ChunkId::FACT => 0x7463_6166,
            ChunkId::DATA => 0x6174_6164,
        }
    }

    /// The tag's four ASCII bytes read as a little-endian 32-bit value.
    pub fn as_le_u32(&self) -> (r: u32)
        ensures
            r == self.spec_le_u32(),
    {
        match self {
            ChunkId::RIFF => 0x4646_4952,
            ChunkId::FMT => 0x2074_6D66,
            ChunkId::FACT => 0x7463_6166,
            ChunkId::DATA => 0x6174_6164,
        }
    }
}

/// The envelope's format tag; only "WAVE" is recognized.
#[derive(Debug, Copy, Clone, PartialEq, Eq, Structural)]
pub enum Format {
    /// "WAVE"
    WAVE,
}

impl Format {
    /// The format tag's bytes read as a little-endian 32-bit value.
    pub open spec fn spec_le_u32(self) -> u32 {
        match self {
            Format::WAVE => 0x4556_4157,
        }
    }

    /// The format tag's bytes read as a little-endian 32-bit value.
    pub fn as_le_u32(&self) -> (r: u32)
        ensures
            r == self.spec_le_u32(),
    {
        match self {
            Format::WAVE => 0x4556_4157,
        }
    }

    /// The low 16 bits of the format tag's little-endian value.
    pub fn as_le_u16(&self) -> (r: u16)
        ensures
            r == self.spec_le_u32() % 0x1_0000,
    {
        match self {
            Format::WAVE => 0x4157,
        }
    }
}

/// The sample encoding named by the "fmt " chunk; only linear PCM is
/// accepted.
#[derive(Debug, Copy, Clone, PartialEq, Eq, Structural)]
pub enum AudioFormat {
    PCM,
}

impl AudioFormat {
    /// The encoding's numeric code as it stands in the "fmt " chunk.
    pub open spec fn spec_le_u16(self) -> u16 {
        match self {
            AudioFormat::PCM => 0x01,
        }
    }

    /// The encoding's numeric code as it stands in the "fmt " chunk.
    pub fn as_le_u16(&self) -> (r: u16)
        ensures
            r == self.spec_le_u16(),
    {
        match self {
            AudioFormat::PCM => 0x01,
        }
    }
}

/// The "RIFF" envelope chunk.
#[derive(Debug, Copy, Clone, PartialEq)]
pub struct ChunkRiff {
    pub chunk_id: ChunkId,
    pub chunk_size: u32,
    pub format: Format,
}

/// The "fmt " chunk: how the payload samples are encoded.
#[derive(Debug, Copy, Clone, PartialEq)]
pub struct ChunkFmt {
    pub chunk_id: ChunkId,
    pub chunk_size: u32,
    pub audio_format: AudioFormat,
    pub num_channels: u16,
    pub sample_rate: u32,
    pub byte_rate: u32,
    pub block_align: u16,
    pub bits_per_sample: u16,
}

/// The optional "fact" chunk.
#[derive(Debug, Copy, Clone, PartialEq)]
pub struct ChunkFact {
    pub chunk_id: ChunkId,
    pub chunk_size: u32,
    pub fact_size: u32,
}

/// The "data" chunk header; its payload is the raw samples.
#[derive(Debug, Copy, Clone, PartialEq)]
pub struct ChunkData {
    pub chunk_id: ChunkId,
    pub chunk_size: u32,
}

/// A parsed container header.
#[derive(Debug, Copy, Clone, PartialEq)]
pub struct WaveHeader {
    pub riff: ChunkRiff,
    pub fmt: ChunkFmt,
    pub fact: Option<ChunkFact>,
    pub data: ChunkData,
}

/// The two bytes at `i` read as a little-endian 16-bit value.
pub open spec fn spec_le_u16_at(s: Seq<u8>, i: int) -> u16
    recommends
        0 <= i,
        i + 2 <= s.len(),
{
    (s[i] + s[i + 1] * 0x100) as u16
}

/// The four bytes at `i` read as a little-endian 32-bit value.
pub open spec fn spec_le_u32_at(s: Seq<u8>, i: int) -> u32
    recommends
        0 <= i,
        i + 4 <= s.len(),
{
    (s[i] + s[i + 1] * 0x100 + s[i + 2] * 0x1_0000 + s[i + 3] * 0x100_0000) as u32
}

/// The four bytes at `i` exist and are exactly the given tag.
pub open spec fn spec_tag_at(s: Seq<u8>, i: int, t0: u8, t1: u8, t2: u8, t3: u8) -> bool {
    &&& 0 <= i
    &&& i + 4 <= s.len()
    &&& s[i] == t0
    &&& s[i + 1] == t1
    &&& s[i + 2] == t2
    &&& s[i + 3] == t3
}

/// Where the "fmt " chunk's body ends: its fixed 16 bytes start at offset 20,
/// and the 18-byte form carries a trailing 2-byte extension that is consumed
/// and discarded.
pub open spec fn spec_fmt_end(s: Seq<u8>) -> int {
    36 + if spec_le_u32_at(s, 16) == 18 {
        2int
    } else {
        0int
    }
}

/// Whether a "fact" tag follows the "fmt " chunk.
pub open spec fn spec_has_fact(s: Seq<u8>) -> bool {
    spec_tag_at(s, spec_fmt_end(s), 0x66, 0x61, 0x63, 0x74)
}

/// Where the "data" chunk begins: right after "fmt ", or after the 12-byte
/// "fact" chunk when one is present.
pub open spec fn spec_data_start(s: Seq<u8>) -> int {
    spec_fmt_end(s) + if spec_has_fact(s) {
        12int
    } else {
        0int
    }
}

/// The header a well-formed input parses to.
pub open spec fn spec_header_value(s: Seq<u8>) -> WaveHeader {
    WaveHeader {
        riff: ChunkRiff {
            chunk_id: ChunkId::RIFF,
            chunk_size: spec_le_u32_at(s, 4),
            format: Format::WAVE,
        },
        fmt: ChunkFmt {
            chunk_id: ChunkId::FMT,
            chunk_size: spec_le_u32_at(s, 16),
            audio_format: AudioFormat::PCM,
            num_channels: spec_le_u16_at(s, 22),
            sample_rate: spec_le_u32_at(s, 24),
            byte_rate: spec_le_u32_at(s, 28),
            block_align: spec_le_u16_at(s, 32),
            bits_per_sample: spec_le_u16_at(s, 34),
        },
        fact: if spec_has_fact(s) {
            Some(ChunkFact {
                chunk_id: ChunkId::FACT,
                chunk_size: spec_le_u32_at(s, spec_fmt_end(s) + 4),
                fact_size: spec_le_u32_at(s, spec_fmt_end(s) + 8),
            })
        } else {
            None
        },
        data: ChunkData {
            chunk_id: ChunkId::DATA,
            chunk_size: spec_le_u32_at(s, spec_data_start(s) + 4),
        },
    }
}

/// The "fact" and "data" steps of the walk, after the "fmt " chunk has been
/// consumed.
pub open spec fn spec_parse_chunks_after_fmt(s: Seq<u8>) -> Result<(usize, WaveHeader), Error> {
    let p = spec_fmt_end(s);
    let q = spec_data_start(s);
    if spec_has_fact(s) && s.len() < p + 12 {
        if s.len() < p + 8 {
            Err(Error::MalformedContainer((p + 4) as usize))
        } else {
            Err(Error::MalformedContainer((p + 8) as usize))
        }
    } else if !spec_tag_at(s, q, 0x64, 0x61, 0x74, 0x61) {
        Err(Error::MalformedContainer(q as usize))
    } else if s.len() < q + 8 {
        Err(Error::MalformedContainer((q + 4) as usize))
    } else {
        Ok(((q + 8) as usize, spec_header_value(s)))
    }
}

/// What one left-to-right walk of the input returns: the parsed header and
/// the count of bytes consumed, or the first failure.  A missing or
/// mismatched tag and a field that runs past the end of the input fail with
/// `MalformedContainer` at the position where that element begins; an
/// audio-format code other than PCM fails with `UnsupportedFormat`.
pub open spec fn spec_parse_header(s: Seq<u8>) -> Result<(usize, WaveHeader), Error> {
    if !spec_tag_at(s, 0, 0x52, 0x49, 0x46, 0x46) {
        Err(Error::MalformedContainer(0))
    } else if s.len() < 8 {
        Err(Error::MalformedContainer(4))
    } else if !spec_tag_at(s, 8, 0x57, 0x41, 0x56, 0x45) {
        Err(Error::MalformedContainer(8))
    } else if !spec_tag_at(s, 12, 0x66, 0x6D, 0x74, 0x20) {
        Err(Error::MalformedContainer(12))
    } else if s.len() < 20 {
        Err(Error::MalformedContainer(16))
    } else if s.len() < 22 {
        Err(Error::MalformedContainer(20))
    } else if spec_le_u16_at(s, 20) != AudioFormat::PCM.spec_le_u16() {
        Err(Error::UnsupportedFormat)
    } else if s.len() < 24 {
        Err(Error::MalformedContainer(22))
    } else if s.len() < 28 {
        Err(Error::MalformedContainer(24))
    } else if s.len() < 32 {
        Err(Error::MalformedContainer(28))
    } else if s.len() < 34 {
        Err(Error::MalformedContainer(32))
    } else if s.len() < 36 {
        Err(Error::MalformedContainer(34))
    } else if spec_le_u32_at(s, 16) == 18 && s.len() < 38 {
        Err(Error::MalformedContainer(36))
    } else {
        spec_parse_chunks_after_fmt(s)
    }
}

impl WaveHeader {
    /// The byte offset where the raw sample payload begins, derived from the
    /// chunk sizes the parse walked past: the 12-byte envelope, each chunk's
    /// 8-byte tag-and-size header, the "fmt " body, and the optional "fact"
    /// body.
    pub open spec fn spec_data_offset(self) -> int {
        12 + 8 + self.fmt.chunk_size + (match self.fact {
            Some(f) => 8 + f.chunk_size,
            None => 0int,
        }) + 8
    }

    /// The byte offset where the raw sample payload begins.
    pub fn data_offset(&self) -> (off: usize)
        requires
            self.spec_data_offset() <= usize::MAX,
        ensures
            off == self.spec_data_offset(),
    {
        let mut off: usize = 12 + 8 + 8;
        off = off + self.fmt.chunk_size as usize;
        match self.fact {
            Some(f) => {
                off = off + 8 + f.chunk_size as usize;
            },
            None => {},
        }
        off
    }
}

/// Reads the little-endian 16-bit value at `pos`.
fn read_le_u16(input: &[u8], pos: usize) -> (r: u16)
    requires
        pos + 2 <= input@.len(),
    ensures
        r == spec_le_u16_at(input@, pos as int),
{
    input[pos] as u16 + input[pos + 1] as u16 * 0x100
}

/// Reads the little-endian 32-bit value at `pos`.
fn read_le_u32(input: &[u8], pos: usize) -> (r: u32)
    requires
        pos + 4 <= input@.len(),
    ensures
        r == spec_le_u32_at(input@, pos as int),
{
    input[pos] as u32 + input[pos + 1] as u32 * 0x100 + input[pos + 2] as u32 * 0x1_0000
        + input[pos + 3] as u32 * 0x100_0000
}

/// Whether the four bytes at `pos` exist and are exactly the given tag.
fn tag_at(input: &[u8], pos: usize, t0: u8, t1: u8, t2: u8, t3: u8) -> (r: bool)
    ensures
        r == spec_tag_at(input@, pos as int, t0, t1, t2, t3),
{
    if input.len() >= 4 && pos <= input.len() - 4 {
        input[pos] == t0 && input[pos + 1] == t1 && input[pos + 2] == t2 && input[pos + 3] == t3
    } else {
        false
    }
}

/// When a parse succeeds, the payload offset computed from the header equals
/// the count of bytes the parse consumed, provided the sizes recorded in the
/// header describe the layout that was walked: the "fmt " chunk is the 16-
/// or 18-byte form, and a "fact" chunk records its fixed 4-byte payload.
pub proof fn lemma_data_offset_matches_consumed(s: Seq<u8>, n: usize, h: WaveHeader)
    requires
        spec_parse_header(s) == Ok::<(usize, WaveHeader), Error>((n, h)),
        h.fmt.chunk_size == 16 || h.fmt.chunk_size == 18,
        h.fact matches Some(f) ==> f.chunk_size == 4,
    ensures
        h.spec_data_offset() == n,
{
}

/// Parses a container header from the front of `input` in one forward pass.
/// On success the returned count is how many bytes the header occupied, so
/// the raw sample payload begins at that offset.
pub fn parse_header(input: &[u8]) -> (r: Result<(usize, WaveHeader), Error>)
    ensures
        r == spec_parse_header(input@),
{
    if !tag_at(input, 0, 0x52, 0x49, 0x46, 0x46) {
        return Err(Error::MalformedContainer(0));
    }
    if input.len() < 8 {
        return Err(Error::MalformedContainer(4));
    }
    let riff_size = read_le_u32(input, 4);
    if !tag_at(input, 8, 0x57, 0x41, 0x56, 0x45) {
        return Err(Error::MalformedContainer(8));
    }
    if !tag_at(input, 12, 0x66, 0x6D, 0x74, 0x20) {
        return Err(Error::MalformedContainer(12));
    }
    if input.len() < 20 {
        return Err(Error::MalformedContainer(16));
    }
    let fmt_size = read_le_u32(input, 16);
    if input.len() < 22 {
        return Err(Error::MalformedContainer(20));
    }
    let audio_format = read_le_u16(input, 20);
    if audio_format != 1 {
        return Err(Error::UnsupportedFormat);
    }
    if input.len() < 24 {
        return Err(Error::MalformedContainer(22));
    }
    let num_channels = read_le_u16(input, 22);
    if input.len() < 28 {
        return Err(Error::MalformedContainer(24));
    }
    let sample_rate = read_le_u32(input, 24);
    if input.len() < 32 {
        return Err(Error::MalformedContainer(28));
    }
    let byte_rate = read_le_u32(input, 28);
    if input.len() < 34 {
        return Err(Error::MalformedContainer(32));
    }
    let block_align = read_le_u16(input, 32);
    if input.len() < 36 {
        return Err(Error::MalformedContainer(34));
    }
    let bits_per_sample = read_le_u16(input, 34);
    let fmt_end: usize = if fmt_size == 18 {
        if input.len() < 38 {
            return Err(Error::MalformedContainer(36));
        }
        38
    } else {
        36
    };
    let fact: Option<ChunkFact> = if tag_at(input, fmt_end, 0x66, 0x61, 0x63, 0x74) {
        if input.len() < fmt_end + 8 {
            return Err(Error::MalformedContainer(fmt_end + 4));
        }
        if input.len() < fmt_end + 12 {
            return Err(Error::MalformedContainer(fmt_end + 8));
        }
        Some(ChunkFact {
            chunk_id: ChunkId::FACT,
            chunk_size: read_le_u32(input, fmt_end + 4),
            fact_size: read_le_u32(input, fmt_end + 8),
        })
    } else {
        None
    };
    let data_start: usize = if fact.is_some() {
        fmt_end + 12
    } else {
        fmt_end
    };
    if !tag_at(input, data_start, 0x64, 0x61, 0x74, 0x61) {
        return Err(Error::MalformedContainer(data_start));
    }
    if input.len() < data_start + 8 {
        return Err(Error::MalformedContainer(data_start + 4));
    }
    let data_size = read_le_u32(input, data_start + 4);
    Ok(
        (
            data_start + 8,
            WaveHeader {
                riff: ChunkRiff {
                    chunk_id: ChunkId::RIFF,
                    chunk_size: riff_size,
                    format: Format::WAVE,
                },
                fmt: ChunkFmt {
                    chunk_id: ChunkId::FMT,
                    chunk_size: fmt_size,
                    audio_format: AudioFormat::PCM,
                    num_channels,
                    sample_rate,
                    byte_rate,
                    block_align,
                    bits_per_sample,
                },
                fact,
                data: ChunkData { chunk_id: ChunkId::DATA, chunk_size: data_size },
            },
        ),
    )
}

} // verus!
