use pcapng_framing::block::Block;
use pcapng_framing::block_type::BlockType;
use pcapng_framing::endianness::Endianness;
use pcapng_framing::parsed::{
    EnhancedPacketBlock, InterfaceDescriptionBlock, ParsedBlock, PcapNgBlock,
    SectionHeaderBlock,
};

fn be32(v: u32) -> [u8; 4] {
    [(v >> 24) as u8, (v >> 16) as u8, (v >> 8) as u8, v as u8]
}

fn framed_be(code: u32, body: &[u8], total: u32) -> Vec<u8> {
    let mut out = Vec::new();
    out.extend_from_slice(&be32(code));
    out.extend_from_slice(&be32(total));
    out.extend_from_slice(body);
    out.extend_from_slice(&be32(total));
    out
}

#[test]
fn block_type_round_trips() {
    let known = [
        BlockType::SectionHeader,
        BlockType::InterfaceDescription,
        BlockType::Packet,
        BlockType::SimplePacket,
        BlockType::NameResolution,
        BlockType::InterfaceStatistics,
        BlockType::EnhancedPacket,
        BlockType::SystemdJournalExport,
        BlockType::Unknown(0xDEADBEEF),
    ];
    for &t in &known {
        assert_eq!(BlockType::from(t.into_code()), t);
    }
}

#[test]
fn block_type_codes_are_canonical() {
    assert_eq!(BlockType::from(0x0A0D0D0Au32), BlockType::SectionHeader);
    assert_eq!(BlockType::from(0x00000001u32), BlockType::InterfaceDescription);
    assert_eq!(BlockType::from(0x00000002u32), BlockType::Packet);
    assert_eq!(BlockType::from(0x00000003u32), BlockType::SimplePacket);
    assert_eq!(BlockType::from(0x00000004u32), BlockType::NameResolution);
    assert_eq!(BlockType::from(0x00000005u32), BlockType::InterfaceStatistics);
    assert_eq!(BlockType::from(0x00000006u32), BlockType::EnhancedPacket);
    assert_eq!(BlockType::from(0x00000009u32), BlockType::SystemdJournalExport);
    assert_eq!(BlockType::from(0x000000FFu32), BlockType::Unknown(0xFF));
    assert_eq!(BlockType::Unknown(0xDEADBEEF).into_code(), 0xDEADBEEF);
}

#[test]
fn parsed_dispatches_by_tag() {
    let bytes = framed_be(0x00000001, &[1, 2, 3, 4], 16);
    let (_, block) = Block::from_slice(Endianness::Big, &bytes).unwrap();
    let parsed = block.parsed().unwrap();
    match parsed {
        ParsedBlock::InterfaceDescription(b) => assert_eq!(b.body, &[1, 2, 3, 4]),
        other => panic!("wrong variant: {:?}", other),
    }
}

#[test]
fn parsed_unknown_type_never_fails() {
    // Type code 0x000000FF names no known kind: the bytes come back opaque.
    let bytes = framed_be(0x000000FF, &[0xAA, 0xBB, 0xCC, 0xDD], 16);
    let (_, block) = Block::from_slice(Endianness::Big, &bytes).unwrap();
    let parsed = block.parsed().unwrap();
    match parsed {
        ParsedBlock::Unknown(u) => {
            assert_eq!(u.type_, BlockType::Unknown(0xFF));
            assert_eq!(u.body, &[0xAA, 0xBB, 0xCC, 0xDD]);
            assert_eq!(u.length, 16);
        }
        other => panic!("wrong variant: {:?}", other),
    }
}

#[test]
fn dispatcher_reports_empty_remainder_for_unknown() {
    let payload = [1u8, 2, 3];
    let (rem, parsed) =
        ParsedBlock::from_slice(BlockType::Unknown(0x77), Endianness::Big, &payload).unwrap();
    assert!(rem.is_empty());
    match parsed {
        ParsedBlock::Unknown(u) => assert_eq!(u.length, 15),
        other => panic!("wrong variant: {:?}", other),
    }
}

#[test]
fn into_narrowing_yields_the_matching_variant() {
    let parsed = ParsedBlock::EnhancedPacket(EnhancedPacketBlock { body: &[5, 5] });
    assert_eq!(
        parsed.clone().into_enhanced_packet(),
        Some(EnhancedPacketBlock { body: &[5, 5] })
    );
    assert_eq!(parsed.into_section_header(), None);
}

#[test]
fn into_narrowing_covers_every_variant() {
    let body: &[u8] = &[9];
    assert!(ParsedBlock::SectionHeader(SectionHeaderBlock { body })
        .into_section_header()
        .is_some());
    assert!(ParsedBlock::SectionHeader(SectionHeaderBlock { body })
        .into_interface_description()
        .is_none());
    assert!(ParsedBlock::InterfaceDescription(InterfaceDescriptionBlock { body })
        .into_interface_description()
        .is_some());
    assert!(ParsedBlock::InterfaceDescription(InterfaceDescriptionBlock { body })
        .into_packet()
        .is_none());
    let (_, p) = ParsedBlock::from_slice(BlockType::Packet, Endianness::Big, body).unwrap();
    assert!(p.into_packet().is_some());
    let (_, p) = ParsedBlock::from_slice(BlockType::SimplePacket, Endianness::Big, body).unwrap();
    assert!(p.into_simple_packet().is_some());
    let (_, p) =
        ParsedBlock::from_slice(BlockType::NameResolution, Endianness::Big, body).unwrap();
    assert!(p.into_name_resolution().is_some());
    let (_, p) =
        ParsedBlock::from_slice(BlockType::InterfaceStatistics, Endianness::Big, body).unwrap();
    assert!(p.into_interface_statistics().is_some());
    let (_, p) =
        ParsedBlock::from_slice(BlockType::SystemdJournalExport, Endianness::Big, body).unwrap();
    assert!(p.into_systemd_journal_export().is_some());
}

#[test]
fn section_header_body_is_decoded_big_endian() {
    let mut body = Vec::new();
    body.extend_from_slice(&be32(0x1A2B3C4D));
    body.extend_from_slice(&[0; 12]);
    let bytes = framed_be(0x0A0D0D0A, &body, 28);
    let (_, block) = Block::from_slice(Endianness::Big, &bytes).unwrap();
    let sh = block.parsed().unwrap().into_section_header().unwrap();
    assert_eq!(&sh.body[..4], &be32(0x1A2B3C4D));
}

#[test]
fn write_block_to_frames_with_consistent_lengths() {
    let record = EnhancedPacketBlock { body: &[1, 2, 3, 4, 5, 6, 7, 8] };
    let mut out: Vec<u8> = Vec::new();
    let written = record.write_block_to(Endianness::Big, &mut out);
    assert_eq!(written, 20);
    assert_eq!(out.len(), 20);
    // The framed bytes decode back to an envelope with agreeing lengths.
    let (rem, block) = Block::from_slice(Endianness::Big, &out).unwrap();
    assert!(rem.is_empty());
    assert_eq!(block.type_, BlockType::EnhancedPacket);
    assert_eq!(block.initial_len, 20);
    assert_eq!(block.trailer_len, 20);
    assert_eq!(block.body.as_slice(), &[1, 2, 3, 4, 5, 6, 7, 8]);
}

#[test]
fn write_block_to_matches_the_block_writer() {
    // A little-endian section-header body: the magic bytes come first.
    let mut body = vec![0x4D, 0x3C, 0x2B, 0x1A];
    body.extend_from_slice(&[0; 12]);
    let record = SectionHeaderBlock { body: &body };
    let mut framed: Vec<u8> = Vec::new();
    record.write_block_to(Endianness::Little, &mut framed);
    let (_, block) = Block::from_slice(Endianness::Little, &framed).unwrap();
    assert_eq!(block.to_vec(Endianness::Little), framed);
}
