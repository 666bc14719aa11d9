use wm8960::wave_header::{parse_header, AudioFormat, ChunkId, Format};
use wm8960::Error;

fn push_u16(buf: &mut Vec<u8>, v: u16) {
    buf.extend_from_slice(&v.to_le_bytes());
}

fn push_u32(buf: &mut Vec<u8>, v: u32) {
    buf.extend_from_slice(&v.to_le_bytes());
}

/// "RIFF"(size)"WAVE" + a 16-byte "fmt " chunk for mono 16-bit PCM at
/// 48 kHz, without the trailing "data" chunk.
fn riff_and_fmt() -> Vec<u8> {
    let mut b = Vec::new();
    b.extend_from_slice(b"RIFF");
    push_u32(&mut b, 36 + 8);
    b.extend_from_slice(b"WAVE");
    b.extend_from_slice(b"fmt ");
    push_u32(&mut b, 16);
    push_u16(&mut b, 1); // PCM
    push_u16(&mut b, 1); // channels
    push_u32(&mut b, 48000);
    push_u32(&mut b, 96000);
    push_u16(&mut b, 2);
    push_u16(&mut b, 16);
    b
}

fn push_data(b: &mut Vec<u8>, payload_len: u32) {
    b.extend_from_slice(b"data");
    push_u32(b, payload_len);
    for _ in 0..payload_len {
        b.push(0);
    }
}

#[test]
fn parse_minimal_valid_buffer() {
    let mut b = riff_and_fmt();
    push_data(&mut b, 8);
    let (consumed, h) = parse_header(&b).unwrap();
    assert_eq!(consumed, 44);
    assert_eq!(h.riff.chunk_id, ChunkId::RIFF);
    assert_eq!(h.riff.chunk_size, 44);
    assert_eq!(h.riff.format, Format::WAVE);
    assert_eq!(h.fmt.chunk_id, ChunkId::FMT);
    assert_eq!(h.fmt.chunk_size, 16);
    assert_eq!(h.fmt.audio_format, AudioFormat::PCM);
    assert_eq!(h.fmt.num_channels, 1);
    assert_eq!(h.fmt.sample_rate, 48000);
    assert_eq!(h.fmt.byte_rate, 96000);
    assert_eq!(h.fmt.block_align, 2);
    assert_eq!(h.fmt.bits_per_sample, 16);
    assert!(h.fact.is_none());
    assert_eq!(h.data.chunk_id, ChunkId::DATA);
    assert_eq!(h.data.chunk_size, 8);
    assert_eq!(h.data_offset(), 44);
}

#[test]
fn parse_buffer_with_fact_chunk() {
    let mut b = riff_and_fmt();
    b.extend_from_slice(b"fact");
    push_u32(&mut b, 4);
    push_u32(&mut b, 0x1234);
    push_data(&mut b, 8);
    let (consumed, h) = parse_header(&b).unwrap();
    assert_eq!(consumed, 56);
    let fact = h.fact.unwrap();
    assert_eq!(fact.chunk_id, ChunkId::FACT);
    assert_eq!(fact.chunk_size, 4);
    assert_eq!(fact.fact_size, 0x1234);
    assert_eq!(h.data.chunk_size, 8);
    assert_eq!(h.data_offset(), 56);
}

#[test]
fn rifx_envelope_is_malformed() {
    let mut b = riff_and_fmt();
    push_data(&mut b, 8);
    b[0..4].copy_from_slice(b"RIFX");
    assert_eq!(parse_header(&b), Err(Error::MalformedContainer(0)));
}

#[test]
fn non_pcm_format_is_unsupported() {
    let mut b = riff_and_fmt();
    push_data(&mut b, 8);
    // audio_format sits right after the fmt tag and size, at offset 20.
    b[20] = 2;
    assert_eq!(parse_header(&b), Err(Error::UnsupportedFormat));
}

#[test]
fn fmt_extension_is_skipped() {
    let mut b = Vec::new();
    b.extend_from_slice(b"RIFF");
    push_u32(&mut b, 38 + 8);
    b.extend_from_slice(b"WAVE");
    b.extend_from_slice(b"fmt ");
    push_u32(&mut b, 18);
    push_u16(&mut b, 1);
    push_u16(&mut b, 2);
    push_u32(&mut b, 44100);
    push_u32(&mut b, 176400);
    push_u16(&mut b, 4);
    push_u16(&mut b, 16);
    push_u16(&mut b, 0); // the 2-byte extension, consumed and discarded
    push_data(&mut b, 8);
    let (consumed, h) = parse_header(&b).unwrap();
    assert_eq!(consumed, 46);
    assert_eq!(h.fmt.chunk_size, 18);
    assert!(h.fact.is_none());
    assert_eq!(h.data.chunk_size, 8);
    assert_eq!(h.data_offset(), 46);
}

#[test]
fn fmt_extension_then_fact_chunk() {
    let mut b = Vec::new();
    b.extend_from_slice(b"RIFF");
    push_u32(&mut b, 50 + 4);
    b.extend_from_slice(b"WAVE");
    b.extend_from_slice(b"fmt ");
    push_u32(&mut b, 18);
    push_u16(&mut b, 1);
    push_u16(&mut b, 1);
    push_u32(&mut b, 8000);
    push_u32(&mut b, 16000);
    push_u16(&mut b, 2);
    push_u16(&mut b, 16);
    push_u16(&mut b, 0);
    b.extend_from_slice(b"fact");
    push_u32(&mut b, 4);
    push_u32(&mut b, 2);
    push_data(&mut b, 4);
    let (consumed, h) = parse_header(&b).unwrap();
    assert_eq!(consumed, 58);
    assert_eq!(h.fact.unwrap().fact_size, 2);
    assert_eq!(h.data_offset(), 58);
}

#[test]
fn truncated_buffers_name_the_failing_position() {
    assert_eq!(parse_header(&[]), Err(Error::MalformedContainer(0)));
    assert_eq!(parse_header(b"RIF"), Err(Error::MalformedContainer(0)));
    assert_eq!(parse_header(b"RIFF"), Err(Error::MalformedContainer(4)));
    assert_eq!(parse_header(b"RIFF\x08\x00\x00\x00"), Err(Error::MalformedContainer(8)));
    assert_eq!(parse_header(b"RIFF\x08\x00\x00\x00WAVE"), Err(Error::MalformedContainer(12)));
    assert_eq!(
        parse_header(b"RIFF\x08\x00\x00\x00WAVEfmt "),
        Err(Error::MalformedContainer(16))
    );
    assert_eq!(
        parse_header(b"RIFF\x08\x00\x00\x00WAVEfmt \x10\x00\x00\x00"),
        Err(Error::MalformedContainer(20))
    );
    assert_eq!(
        parse_header(b"RIFF\x08\x00\x00\x00WAVEfmt \x10\x00\x00\x00\x01\x00"),
        Err(Error::MalformedContainer(22))
    );
    let b = riff_and_fmt();
    assert_eq!(parse_header(&b), Err(Error::MalformedContainer(36)));
}

#[test]
fn truncated_fact_chunk_names_the_failing_field() {
    let mut b = riff_and_fmt();
    b.extend_from_slice(b"fact");
    assert_eq!(parse_header(&b), Err(Error::MalformedContainer(40)));
    push_u32(&mut b, 4);
    assert_eq!(parse_header(&b), Err(Error::MalformedContainer(44)));
    push_u32(&mut b, 0x1234);
    assert_eq!(parse_header(&b), Err(Error::MalformedContainer(48)));
}

#[test]
fn wrong_chunk_after_fmt_is_malformed() {
    let mut b = riff_and_fmt();
    b.extend_from_slice(b"LIST");
    push_u32(&mut b, 4);
    push_u32(&mut b, 0);
    assert_eq!(parse_header(&b), Err(Error::MalformedContainer(36)));
}

#[test]
fn truncated_data_size_is_malformed() {
    let mut b = riff_and_fmt();
    b.extend_from_slice(b"data");
    assert_eq!(parse_header(&b), Err(Error::MalformedContainer(40)));
}

#[test]
fn tag_codes() {
    assert_eq!(ChunkId::RIFF.as_le_u32(), 0x4646_4952);
    assert_eq!(ChunkId::FMT.as_le_u32(), 0x2074_6D66);
    assert_eq!(ChunkId::FACT.as_le_u32(), 0x7463_6166);
    assert_eq!(ChunkId::DATA.as_le_u32(), 0x6174_6164);
    assert_eq!(ChunkId::DATA.as_le_u32().to_le_bytes(), *b"data");
    assert_eq!(Format::WAVE.as_le_u32(), 0x4556_4157);
    assert_eq!(Format::WAVE.as_le_u16(), 0x4157);
    assert_eq!(AudioFormat::PCM.as_le_u16(), 1);
}
