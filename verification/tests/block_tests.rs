use pcapng_framing::block::{Block, BlockBody};
use pcapng_framing::block_type::BlockType;
use pcapng_framing::endianness::Endianness;
use pcapng_framing::errors::PcapError;

fn be32(v: u32) -> [u8; 4] {
    [(v >> 24) as u8, (v >> 16) as u8, (v >> 8) as u8, v as u8]
}

fn le32(v: u32) -> [u8; 4] {
    [v as u8, (v >> 8) as u8, (v >> 16) as u8, (v >> 24) as u8]
}

fn put32(out: &mut Vec<u8>, e: Endianness, v: u32) {
    let b = match e {
        Endianness::Big => be32(v),
        Endianness::Little => le32(v),
    };
    out.extend_from_slice(&b);
}

/// A whole block: type code, total length, body, trailing total length.
fn framed(e: Endianness, code: u32, body: &[u8], initial: u32, trailer: u32) -> Vec<u8> {
    let mut out = Vec::new();
    put32(&mut out, e, code);
    put32(&mut out, e, initial);
    out.extend_from_slice(body);
    put32(&mut out, e, trailer);
    out
}

/// A minimal section-header block: magic, version, section length, total 28.
fn section_header(e: Endianness) -> Vec<u8> {
    let mut body = Vec::new();
    match e {
        Endianness::Big => body.extend_from_slice(&be32(0x1A2B3C4D)),
        Endianness::Little => body.extend_from_slice(&le32(0x1A2B3C4D)),
    }
    put32(&mut body, e, 0x0001_0000);
    body.extend_from_slice(&[0xFF; 8]);
    framed(e, 0x0A0D0D0A, &body, 28, 28)
}

#[test]
fn decode_big_endian_block() {
    let bytes = framed(Endianness::Big, 0x00000001, &[1, 2, 3, 4, 5, 6, 7, 8], 20, 20);
    let (rem, block) = Block::from_slice(Endianness::Big, &bytes).unwrap();
    assert!(rem.is_empty());
    assert_eq!(block.type_, BlockType::InterfaceDescription);
    assert_eq!(block.initial_len, 20);
    assert_eq!(block.trailer_len, 20);
    assert_eq!(block.body.as_slice(), &[1, 2, 3, 4, 5, 6, 7, 8]);
    assert_eq!(block.endianness, Endianness::Big);
}

#[test]
fn decode_little_endian_block() {
    let bytes = framed(Endianness::Little, 0x00000006, &[9, 9, 9, 9], 16, 16);
    let (rem, block) = Block::from_slice(Endianness::Little, &bytes).unwrap();
    assert!(rem.is_empty());
    assert_eq!(block.type_, BlockType::EnhancedPacket);
    assert_eq!(block.initial_len, 16);
    assert_eq!(block.endianness, Endianness::Little);
}

#[test]
fn round_trip_every_kind() {
    let codes = [
        0x0A0D0D0Au32,
        0x00000001,
        0x00000002,
        0x00000003,
        0x00000004,
        0x00000005,
        0x00000006,
        0x00000009,
        0xDEADBEEF,
    ];
    for &code in &codes {
        for &e in &[Endianness::Big, Endianness::Little] {
            let bytes = if code == 0x0A0D0D0A {
                section_header(e)
            } else {
                framed(e, code, &[7, 7, 7, 7], 16, 16)
            };
            let (_, block) = Block::from_slice(e, &bytes).unwrap();
            let encoded = block.to_vec(e);
            assert_eq!(encoded, bytes);
            let (rem2, block2) = Block::from_slice(e, &encoded).unwrap();
            assert!(rem2.is_empty());
            assert_eq!(block2.type_, block.type_);
            assert_eq!(block2.initial_len, block.initial_len);
            assert_eq!(block2.trailer_len, block.trailer_len);
            assert_eq!(block2.body.as_slice(), block.body.as_slice());
            assert_eq!(block2.endianness, block.endianness);
        }
    }
}

#[test]
fn mismatched_lengths_fail() {
    let bytes = framed(Endianness::Big, 0x00000001, &[0; 8], 20, 24);
    let err = Block::from_slice(Endianness::Big, &bytes).unwrap_err();
    assert!(matches!(err, PcapError::InvalidField(_)));
}

#[test]
fn misaligned_length_fails() {
    // A declared total length of 13 is not a multiple of four.
    let bytes = framed(Endianness::Big, 0x00000001, &[0x55], 13, 13);
    let err = Block::from_slice(Endianness::Big, &bytes).unwrap_err();
    assert!(matches!(err, PcapError::InvalidField(_)));
}

#[test]
fn length_below_minimum_fails() {
    // A declared total length of 8 is below the twelve-byte envelope.
    let bytes = framed(Endianness::Big, 0x00000001, &[0; 8], 8, 8);
    let err = Block::from_slice(Endianness::Big, &bytes).unwrap_err();
    assert!(matches!(err, PcapError::InvalidField(_)));
}

#[test]
fn short_header_reports_missing_bytes() {
    let err = Block::from_slice(Endianness::Big, &[0, 0, 0]).unwrap_err();
    assert!(matches!(err, PcapError::IncompleteBuffer(9)));
}

#[test]
fn short_body_reports_missing_bytes_then_succeeds() {
    let bytes = framed(Endianness::Big, 0x00000001, &[1, 2, 3, 4, 5, 6, 7, 8], 20, 20);
    let err = Block::from_slice(Endianness::Big, &bytes[..16]).unwrap_err();
    match err {
        PcapError::IncompleteBuffer(n) => {
            assert_eq!(n, 4);
            // Feeding exactly the missing bytes makes the same decode succeed.
            let (rem, block) = Block::from_slice(Endianness::Big, &bytes[..16 + n]).unwrap();
            assert!(rem.is_empty());
            assert_eq!(block.initial_len, 20);
        }
        other => panic!("expected IncompleteBuffer, got {:?}", other),
    }
}

#[test]
fn section_header_big_magic() {
    let bytes = section_header(Endianness::Big);
    let (rem, block) = Block::from_slice(Endianness::Little, &bytes).unwrap();
    assert!(rem.is_empty());
    assert_eq!(block.type_, BlockType::SectionHeader);
    // The discovered order overrides the caller-asserted little-endian one.
    assert_eq!(block.endianness, Endianness::Big);
    assert_eq!(block.initial_len, 28);
    assert_eq!(&block.body.as_slice()[..4], &be32(0x1A2B3C4D));
}

#[test]
fn section_header_little_magic_swaps_length() {
    let bytes = section_header(Endianness::Little);
    let (rem, block) = Block::from_slice(Endianness::Big, &bytes).unwrap();
    assert!(rem.is_empty());
    assert_eq!(block.type_, BlockType::SectionHeader);
    assert_eq!(block.endianness, Endianness::Little);
    // The length read under the big-endian assumption was byte-swapped back.
    assert_eq!(block.initial_len, 28);
    assert_eq!(block.trailer_len, 28);
    assert_eq!(&block.body.as_slice()[..4], &le32(0x1A2B3C4D));
}

#[test]
fn section_header_bad_magic_fails() {
    let mut body = vec![0xFF, 0xFF, 0xFF, 0xFF];
    body.extend_from_slice(&[0; 12]);
    let bytes = framed(Endianness::Big, 0x0A0D0D0A, &body, 28, 28);
    let err = Block::from_slice(Endianness::Big, &bytes).unwrap_err();
    assert!(matches!(err, PcapError::InvalidField(_)));
}

#[test]
fn two_block_buffer_decodes_in_sequence() {
    // A minimal big-endian section header (total 28) followed by a minimal
    // interface description (total 20); two slice decodes, empty remainder.
    let mut buffer = section_header(Endianness::Big);
    buffer.extend_from_slice(&framed(Endianness::Big, 0x00000001, &[0; 8], 20, 20));
    let (rem1, first) = Block::from_slice(Endianness::Big, &buffer).unwrap();
    assert_eq!(first.type_, BlockType::SectionHeader);
    assert_eq!(rem1.len(), 20);
    let (rem2, second) = Block::from_slice(first.endianness, rem1).unwrap();
    assert_eq!(second.type_, BlockType::InterfaceDescription);
    assert!(rem2.is_empty());
}

#[test]
fn write_to_emits_the_wire_bytes() {
    let bytes = framed(Endianness::Big, 0x00000003, &[4, 4, 4, 4], 16, 16);
    let (_, block) = Block::from_slice(Endianness::Big, &bytes).unwrap();
    let mut sink: Vec<u8> = Vec::new();
    let written = block.write_to(Endianness::Big, &mut sink).unwrap();
    assert_eq!(written, 16);
    assert_eq!(sink, bytes);
}

#[test]
fn from_reader_owns_its_body() {
    let bytes = framed(Endianness::Big, 0x00000005, &[8, 6, 7, 5], 16, 16);
    let mut stream: &[u8] = &bytes;
    let block = Block::from_reader(&mut stream, Endianness::Big).unwrap();
    assert_eq!(block.type_, BlockType::InterfaceStatistics);
    assert_eq!(block.initial_len, 16);
    assert_eq!(block.body.as_slice(), &[8, 6, 7, 5]);
    assert!(matches!(block.body, BlockBody::Owned(_)));
    assert!(stream.is_empty());
}

#[test]
fn from_reader_discovers_little_endian() {
    let bytes = section_header(Endianness::Little);
    let mut stream: &[u8] = &bytes;
    let block = Block::from_reader(&mut stream, Endianness::Big).unwrap();
    assert_eq!(block.endianness, Endianness::Little);
    assert_eq!(block.initial_len, 28);
    // The magic is preserved as the body's first four bytes.
    assert_eq!(&block.body.as_slice()[..4], &le32(0x1A2B3C4D));
}

#[test]
fn from_reader_truncated_stream_is_an_io_error() {
    let bytes = framed(Endianness::Big, 0x00000001, &[0; 8], 20, 20);
    let mut stream: &[u8] = &bytes[..10];
    let err = Block::from_reader(&mut stream, Endianness::Big).unwrap_err();
    assert!(matches!(err, PcapError::Io(_)));
}

#[test]
fn from_reader_checks_lengths_like_the_slice_path() {
    let bytes = framed(Endianness::Big, 0x00000001, &[0; 8], 20, 24);
    let mut stream: &[u8] = &bytes;
    let err = Block::from_reader(&mut stream, Endianness::Big).unwrap_err();
    assert!(matches!(err, PcapError::InvalidField(_)));
}

#[test]
fn into_owned_detaches_from_the_buffer() {
    let bytes = framed(Endianness::Big, 0x00000009, &[3, 1, 4, 1], 16, 16);
    let owned = {
        let (_, block) = Block::from_slice(Endianness::Big, &bytes).unwrap();
        assert!(matches!(block.body, BlockBody::Borrowed(_)));
        block.into_owned()
    };
    drop(bytes);
    assert_eq!(owned.type_, BlockType::SystemdJournalExport);
    assert_eq!(owned.body.as_slice(), &[3, 1, 4, 1]);
    assert!(matches!(owned.body, BlockBody::Owned(_)));
}
