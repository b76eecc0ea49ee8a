//! The parsed-block dispatcher: routes a block body to the decoder of its
//! kind and wraps the result in a tagged union, one variant per known block
//! kind plus an opaque variant for unknown type codes.
//!
//! The layout of each kind's fields is outside this crate's scope: every
//! per-kind record here keeps its body as raw bytes, decoded and re-encoded
//! verbatim.  The dispatcher, the codec contract and the envelope accounting
//! around them are what this crate states and proves.

use crate::block::Block;
use crate::block_type::BlockType;
use crate::endianness::{push_bytes, push_u32, u32_bytes, Endianness};
use crate::errors::PcapError;
use vstd::prelude::*;
use vstd::slice::slice_subrange;

verus! {

/// The contract every per-kind block codec satisfies: a fixed type tag, a
/// slice decoder that returns the unconsumed bytes beside the value, a body
/// serializer that writes no envelope, and an envelope serializer derived
/// from the two.  The decoders of this crate are total and keep the whole
/// slice as the record's raw body.
pub trait PcapNgBlock<'a>: Sized {
    /// The tag of this block kind.
    spec fn spec_type() -> BlockType;

    /// The raw bytes this value carries.
    spec fn body_view(&self) -> Seq<u8>;

    /// The tag of this block kind.
    fn block_type(&self) -> (t: BlockType)
        ensures
            t == Self::spec_type(),
    ;

    /// Decodes a value of this kind from a body slice, returning the
    /// unconsumed remainder first, as the envelope framer does.
    fn from_slice(endianness: Endianness, slice: &'a [u8]) -> (r: Result<
        (&'a [u8], Self),
        PcapError,
    >)
        ensures
            r matches Ok(p) && p.0@ == Seq::<u8>::empty() && p.1.body_view() == slice@,
    ;

    /// Serializes only the body (no envelope) and returns the byte count.
    fn write_to(&self, endianness: Endianness, out: &mut Vec<u8>) -> (n: usize)
        ensures
            final(out)@ == old(out)@ + self.body_view(),
            n == self.body_view().len(),
    ;

    /// Wraps this value in the corresponding `ParsedBlock` variant.
    fn into_parsed(self) -> ParsedBlock<'a>;

    /// Serializes the whole block: type code, total length, body, and the
    /// same total length again as trailer.  The two length fields are
    /// consistent by construction, in contrast to the read path where they
    /// are read independently and checked.
    fn write_block_to(&self, endianness: Endianness, out: &mut Vec<u8>) -> (n: usize)
        requires
            self.body_view().len() + 12 <= u32::MAX,
        ensures
            n == self.body_view().len() + 12,
            final(out)@ == old(out)@ + u32_bytes(endianness, Self::spec_type().spec_code())
                + u32_bytes(endianness, (self.body_view().len() + 12) as u32) + self.body_view()
                + u32_bytes(endianness, (self.body_view().len() + 12) as u32),
    {
        let mut body_buf: Vec<u8> = Vec::new();
        let body_len = self.write_to(endianness, &mut body_buf);
        let total = (body_len + 12) as u32;
        push_u32(endianness, out, self.block_type().into_code());
        push_u32(endianness, out, total);
        push_bytes(out, body_buf.as_slice());
        push_u32(endianness, out, total);
        proof {
            assert(out@ =~= old(out)@ + u32_bytes(endianness, Self::spec_type().spec_code())
                + u32_bytes(endianness, (self.body_view().len() + 12) as u32) + self.body_view()
                + u32_bytes(endianness, (self.body_view().len() + 12) as u32));
        }
        body_len + 12
    }
}

/// A section-header record; its body begins with the byte-order magic.
#[derive(Clone, Debug, PartialEq, Eq)]
pub struct SectionHeaderBlock<'a> {
    /// The raw body bytes, magic included.
    pub body: &'a [u8],
}

/// An interface-description record, kept as raw body bytes.
#[derive(Clone, Debug, PartialEq, Eq)]
pub struct InterfaceDescriptionBlock<'a> {
    /// The raw body bytes.
    pub body: &'a [u8],
}

/// An obsolete packet record, kept as raw body bytes.
#[derive(Clone, Debug, PartialEq, Eq)]
pub struct PacketBlock<'a> {
    /// The raw body bytes.
    pub body: &'a [u8],
}

/// A simple-packet record, kept as raw body bytes.
#[derive(Clone, Debug, PartialEq, Eq)]
pub struct SimplePacketBlock<'a> {
    /// The raw body bytes.
    pub body: &'a [u8],
}

/// A name-resolution record, kept as raw body bytes.
#[derive(Clone, Debug, PartialEq, Eq)]
pub struct NameResolutionBlock<'a> {
    /// The raw body bytes.
    pub body: &'a [u8],
}

/// An interface-statistics record, kept as raw body bytes.
#[derive(Clone, Debug, PartialEq, Eq)]
pub struct InterfaceStatisticsBlock<'a> {
    /// The raw body bytes.
    pub body: &'a [u8],
}

/// An enhanced-packet record, kept as raw body bytes.
#[derive(Clone, Debug, PartialEq, Eq)]
pub struct EnhancedPacketBlock<'a> {
    /// The raw body bytes.
    pub body: &'a [u8],
}

/// A systemd-journal-export record, kept as raw body bytes.
#[derive(Clone, Debug, PartialEq, Eq)]
pub struct SystemdJournalExportBlock<'a> {
    /// The raw body bytes.
    pub body: &'a [u8],
}

/// A block whose type code names no known kind: the envelope remains fully
/// readable, the body opaque.
#[derive(Clone, Debug, PartialEq, Eq)]
pub struct UnknownBlock<'a> {
    /// The tag, carrying the unrecognized code verbatim.
    pub type_: BlockType,
    /// The synthesized total length: body length plus the twelve envelope
    /// bytes.
    pub length: u32,
    /// The raw body bytes.
    pub body: &'a [u8],
}

impl<'a> UnknownBlock<'a> {
    /// Wraps an unrecognized block body.
    pub fn new(type_: BlockType, length: u32, body: &'a [u8]) -> (r: Self)
        ensures
            r.type_ == type_,
            r.length == length,
            r.body@ == body@,
    {
        UnknownBlock { type_, length, body }
    }
}

/// One interpreted block body, produced from a `Block`'s body and recorded
/// byte order.
#[derive(Clone, Debug, PartialEq, Eq)]
pub enum ParsedBlock<'a> {
    SectionHeader(SectionHeaderBlock<'a>),
    InterfaceDescription(InterfaceDescriptionBlock<'a>),
    Packet(PacketBlock<'a>),
    SimplePacket(SimplePacketBlock<'a>),
    NameResolution(NameResolutionBlock<'a>),
    InterfaceStatistics(InterfaceStatisticsBlock<'a>),
    EnhancedPacket(EnhancedPacketBlock<'a>),
    SystemdJournalExport(SystemdJournalExportBlock<'a>),
    Unknown(UnknownBlock<'a>),
}

/// What dispatching a body slice of tag `type_` yields: the variant chosen
/// by the tag, carrying the slice's bytes; an empty remainder; and for an
/// unknown tag the preserved code with a synthesized total length.
pub open spec fn spec_dispatch<'a>(
    type_: BlockType,
    s: Seq<u8>,
    rem: Seq<u8>,
    pb: ParsedBlock<'a>,
) -> bool {
    &&& rem == Seq::<u8>::empty()
    &&& (match type_ {
        BlockType::SectionHeader => pb matches ParsedBlock::SectionHeader(b) && b.body@ == s,
        BlockType::InterfaceDescription => pb matches ParsedBlock::InterfaceDescription(b)
            && b.body@ == s,
        BlockType::Packet => pb matches ParsedBlock::Packet(b) && b.body@ == s,
        BlockType::SimplePacket => pb matches ParsedBlock::SimplePacket(b) && b.body@ == s,
        BlockType::NameResolution => pb matches ParsedBlock::NameResolution(b) && b.body@ == s,
        BlockType::InterfaceStatistics => pb matches ParsedBlock::InterfaceStatistics(b)
            && b.body@ == s,
        BlockType::EnhancedPacket => pb matches ParsedBlock::EnhancedPacket(b) && b.body@ == s,
        BlockType::SystemdJournalExport => pb matches ParsedBlock::SystemdJournalExport(b)
            && b.body@ == s,
        BlockType::Unknown(_) => pb matches ParsedBlock::Unknown(u) && u.type_ == type_
            && u.length == s.len() + 12 && u.body@ == s,
    })
}

impl<'a> ParsedBlock<'a> {
    /// Routes `slice` to the decoder that `type_` selects and wraps the
    /// result.  A section-header body is always decoded big-endian, its
    /// fields having been normalized by the framer; every other kind uses
    /// the caller's order.  An unknown tag never fails: the bytes are kept
    /// opaque under a synthesized total length, and the reported remainder
    /// is empty — for multi-block buffers the framer's length accounting,
    /// not the dispatcher's, locates the next block.
    pub fn from_slice(type_: BlockType, endianness: Endianness, slice: &'a [u8]) -> (r: Result<
        (&'a [u8], Self),
        PcapError,
    >)
        requires
            type_ matches BlockType::Unknown(_) ==> slice@.len() + 12 <= u32::MAX,
        ensures
            r matches Ok(p) && spec_dispatch(type_, slice@, p.0@, p.1),
    {
        match type_ {
            BlockType::SectionHeader => {
                match SectionHeaderBlock::from_slice(Endianness::Big, slice) {
                    Ok((rem, block)) => Ok((rem, ParsedBlock::SectionHeader(block))),
                    Err(e) => Err(e),
                }
            },
            BlockType::InterfaceDescription => {
                match InterfaceDescriptionBlock::from_slice(endianness, slice) {
                    Ok((rem, block)) => Ok((rem, ParsedBlock::InterfaceDescription(block))),
                    Err(e) => Err(e),
                }
            },
            BlockType::Packet => {
                match PacketBlock::from_slice(endianness, slice) {
                    Ok((rem, block)) => Ok((rem, ParsedBlock::Packet(block))),
                    Err(e) => Err(e),
                }
            },
            BlockType::SimplePacket => {
                match SimplePacketBlock::from_slice(endianness, slice) {
                    Ok((rem, block)) => Ok((rem, ParsedBlock::SimplePacket(block))),
                    Err(e) => Err(e),
                }
            },
            BlockType::NameResolution => {
                match NameResolutionBlock::from_slice(endianness, slice) {
                    Ok((rem, block)) => Ok((rem, ParsedBlock::NameResolution(block))),
                    Err(e) => Err(e),
                }
            },
            BlockType::InterfaceStatistics => {
                match InterfaceStatisticsBlock::from_slice(endianness, slice) {
                    Ok((rem, block)) => Ok((rem, ParsedBlock::InterfaceStatistics(block))),
                    Err(e) => Err(e),
                }
            },
            BlockType::EnhancedPacket => {
                match EnhancedPacketBlock::from_slice(endianness, slice) {
                    Ok((rem, block)) => Ok((rem, ParsedBlock::EnhancedPacket(block))),
                    Err(e) => Err(e),
                }
            },
            BlockType::SystemdJournalExport => {
                match SystemdJournalExportBlock::from_slice(endianness, slice) {
                    Ok((rem, block)) => Ok((rem, ParsedBlock::SystemdJournalExport(block))),
                    Err(e) => Err(e),
                }
            },
            BlockType::Unknown(_) => {
                let n = slice.len();
                let rem = slice_subrange(slice, n, n);
                proof {
                    assert(rem@ =~= Seq::<u8>::empty());
                }
                Ok((rem, ParsedBlock::Unknown(UnknownBlock::new(type_, (n as u32) + 12, slice))))
            },
        }
    }

    /// Narrows to the enhanced-packet variant; any other variant yields
    /// nothing — a wrong variant is a caller logic error, not a format one.
    pub fn into_enhanced_packet(self) -> (r: Option<EnhancedPacketBlock<'a>>)
        ensures
            r == (match self {
                ParsedBlock::EnhancedPacket(a) => Some(a),
                _ => None::<EnhancedPacketBlock<'a>>,
            }),
    {
        match self {
            ParsedBlock::EnhancedPacket(a) => Some(a),
            _ => None,
        }
    }

    /// Narrows to the interface-description variant.
    pub fn into_interface_description(self) -> (r: Option<InterfaceDescriptionBlock<'a>>)
        ensures
            r == (match self {
                ParsedBlock::InterfaceDescription(a) => Some(a),
                _ => None::<InterfaceDescriptionBlock<'a>>,
            }),
    {
        match self {
            ParsedBlock::InterfaceDescription(a) => Some(a),
            _ => None,
        }
    }

    /// Narrows to the interface-statistics variant.
    pub fn into_interface_statistics(self) -> (r: Option<InterfaceStatisticsBlock<'a>>)
        ensures
            r == (match self {
                ParsedBlock::InterfaceStatistics(a) => Some(a),
                _ => None::<InterfaceStatisticsBlock<'a>>,
            }),
    {
        match self {
            ParsedBlock::InterfaceStatistics(a) => Some(a),
            _ => None,
        }
    }

    /// Narrows to the name-resolution variant.
    pub fn into_name_resolution(self) -> (r: Option<NameResolutionBlock<'a>>)
        ensures
            r == (match self {
                ParsedBlock::NameResolution(a) => Some(a),
                _ => None::<NameResolutionBlock<'a>>,
            }),
    {
        match self {
            ParsedBlock::NameResolution(a) => Some(a),
            _ => None,
        }
    }

    /// Narrows to the obsolete-packet variant.
    pub fn into_packet(self) -> (r: Option<PacketBlock<'a>>)
        ensures
            r == (match self {
                ParsedBlock::Packet(a) => Some(a),
                _ => None::<PacketBlock<'a>>,
            }),
    {
        match self {
            ParsedBlock::Packet(a) => Some(a),
            _ => None,
        }
    }

    /// Narrows to the section-header variant.
    pub fn into_section_header(self) -> (r: Option<SectionHeaderBlock<'a>>)
        ensures
            r == (match self {
                ParsedBlock::SectionHeader(a) => Some(a),
                _ => None::<SectionHeaderBlock<'a>>,
            }),
    {
        match self {
            ParsedBlock::SectionHeader(a) => Some(a),
            _ => None,
        }
    }

    /// Narrows to the simple-packet variant.
    pub fn into_simple_packet(self) -> (r: Option<SimplePacketBlock<'a>>)
        ensures
            r == (match self {
                ParsedBlock::SimplePacket(a) => Some(a),
                _ => None::<SimplePacketBlock<'a>>,
            }),
    {
        match self {
            ParsedBlock::SimplePacket(a) => Some(a),
            _ => None,
        }
    }

    /// Narrows to the systemd-journal-export variant.
    pub fn into_systemd_journal_export(self) -> (r: Option<SystemdJournalExportBlock<'a>>)
        ensures
            r == (match self {
                ParsedBlock::SystemdJournalExport(a) => Some(a),
                _ => None::<SystemdJournalExportBlock<'a>>,
            }),
    {
        match self {
            ParsedBlock::SystemdJournalExport(a) => Some(a),
            _ => None,
        }
    }
}

impl<'a> Block<'a> {
    /// Interprets this block's body through the decoder its tag selects,
    /// under the byte order recorded at decode time.  Pure and repeatable;
    /// derives a fresh `ParsedBlock` on every call.
    pub fn parsed(&self) -> (r: Result<ParsedBlock<'_>, PcapError>)
        requires
            self@.type_ matches BlockType::Unknown(_) ==> self@.body.len() + 12 <= u32::MAX,
        ensures
            r matches Ok(pb) && spec_dispatch(self@.type_, self@.body, Seq::<u8>::empty(), pb),
    {
        match ParsedBlock::from_slice(self.type_, self.endianness, self.body.as_slice()) {
            Ok((_rem, pb)) => Ok(pb),
            Err(e) => Err(e),
        }
    }
}


impl<'a> PcapNgBlock<'a> for SectionHeaderBlock<'a> {
    open spec fn spec_type() -> BlockType {
        BlockType::SectionHeader
    }

    open spec fn body_view(&self) -> Seq<u8> {
        self.body@
    }

    fn block_type(&self) -> (t: BlockType) {
        BlockType::SectionHeader
    }

    fn from_slice(_endianness: Endianness, slice: &'a [u8]) -> (r: Result<
        (&'a [u8], Self),
        PcapError,
    >) {
        let n = slice.len();
        let rem = slice_subrange(slice, n, n);
        proof {
            assert(rem@ =~= Seq::<u8>::empty());
        }
        Ok((rem, SectionHeaderBlock { body: slice }))
    }

    fn write_to(&self, _endianness: Endianness, out: &mut Vec<u8>) -> (n: usize) {
        push_bytes(out, self.body);
        self.body.len()
    }

    fn into_parsed(self) -> (r: ParsedBlock<'a>)
        ensures
            r == ParsedBlock::SectionHeader(self),
    {
        ParsedBlock::SectionHeader(self)
    }
}

impl<'a> PcapNgBlock<'a> for InterfaceDescriptionBlock<'a> {
    open spec fn spec_type() -> BlockType {
        BlockType::InterfaceDescription
    }

    open spec fn body_view(&self) -> Seq<u8> {
        self.body@
    }

    fn block_type(&self) -> (t: BlockType) {
        BlockType::InterfaceDescription
    }

    fn from_slice(_endianness: Endianness, slice: &'a [u8]) -> (r: Result<
        (&'a [u8], Self),
        PcapError,
    >) {
        let n = slice.len();
        let rem = slice_subrange(slice, n, n);
        proof {
            assert(rem@ =~= Seq::<u8>::empty());
        }
        Ok((rem, InterfaceDescriptionBlock { body: slice }))
    }

    fn write_to(&self, _endianness: Endianness, out: &mut Vec<u8>) -> (n: usize) {
        push_bytes(out, self.body);
        self.body.len()
    }

    fn into_parsed(self) -> (r: ParsedBlock<'a>)
        ensures
            r == ParsedBlock::InterfaceDescription(self),
    {
        ParsedBlock::InterfaceDescription(self)
    }
}

impl<'a> PcapNgBlock<'a> for PacketBlock<'a> {
    open spec fn spec_type() -> BlockType {
        BlockType::Packet
    }

    open spec fn body_view(&self) -> Seq<u8> {
        self.body@
    }

    fn block_type(&self) -> (t: BlockType) {
        BlockType::Packet
    }

    fn from_slice(_endianness: Endianness, slice: &'a [u8]) -> (r: Result<
        (&'a [u8], Self),
        PcapError,
    >) {
        let n = slice.len();
        let rem = slice_subrange(slice, n, n);
        proof {
            assert(rem@ =~= Seq::<u8>::empty());
        }
        Ok((rem, PacketBlock { body: slice }))
    }

    fn write_to(&self, _endianness: Endianness, out: &mut Vec<u8>) -> (n: usize) {
        push_bytes(out, self.body);
        self.body.len()
    }

    fn into_parsed(self) -> (r: ParsedBlock<'a>)
        ensures
            r == ParsedBlock::Packet(self),
    {
        ParsedBlock::Packet(self)
    }
}

impl<'a> PcapNgBlock<'a> for SimplePacketBlock<'a> {
    open spec fn spec_type() -> BlockType {
        BlockType::SimplePacket
    }

    open spec fn body_view(&self) -> Seq<u8> {
        self.body@
    }

    fn block_type(&self) -> (t: BlockType) {
        BlockType::SimplePacket
    }

    fn from_slice(_endianness: Endianness, slice: &'a [u8]) -> (r: Result<
        (&'a [u8], Self),
        PcapError,
    >) {
        let n = slice.len();
        let rem = slice_subrange(slice, n, n);
        proof {
            assert(rem@ =~= Seq::<u8>::empty());
        }
        Ok((rem, SimplePacketBlock { body: slice }))
    }

    fn write_to(&self, _endianness: Endianness, out: &mut Vec<u8>) -> (n: usize) {
        push_bytes(out, self.body);
        self.body.len()
    }

    fn into_parsed(self) -> (r: ParsedBlock<'a>)
        ensures
            r == ParsedBlock::SimplePacket(self),
    {
        ParsedBlock::SimplePacket(self)
    }
}

impl<'a> PcapNgBlock<'a> for NameResolutionBlock<'a> {
    open spec fn spec_type() -> BlockType {
        BlockType::NameResolution
    }

    open spec fn body_view(&self) -> Seq<u8> {
        self.body@
    }

    fn block_type(&self) -> (t: BlockType) {
        BlockType::NameResolution
    }

    fn from_slice(_endianness: Endianness, slice: &'a [u8]) -> (r: Result<
        (&'a [u8], Self),
        PcapError,
    >) {
        let n = slice.len();
        let rem = slice_subrange(slice, n, n);
        proof {
            assert(rem@ =~= Seq::<u8>::empty());
        }
        Ok((rem, NameResolutionBlock { body: slice }))
    }

    fn write_to(&self, _endianness: Endianness, out: &mut Vec<u8>) -> (n: usize) {
        push_bytes(out, self.body);
        self.body.len()
    }

    fn into_parsed(self) -> (r: ParsedBlock<'a>)
        ensures
            r == ParsedBlock::NameResolution(self),
    {
        ParsedBlock::NameResolution(self)
    }
}

impl<'a> PcapNgBlock<'a> for InterfaceStatisticsBlock<'a> {
    open spec fn spec_type() -> BlockType {
        BlockType::InterfaceStatistics
    }

    open spec fn body_view(&self) -> Seq<u8> {
        self.body@
    }

    fn block_type(&self) -> (t: BlockType) {
        BlockType::InterfaceStatistics
    }

    fn from_slice(_endianness: Endianness, slice: &'a [u8]) -> (r: Result<
        (&'a [u8], Self),
        PcapError,
    >) {
        let n = slice.len();
        let rem = slice_subrange(slice, n, n);
        proof {
            assert(rem@ =~= Seq::<u8>::empty());
        }
        Ok((rem, InterfaceStatisticsBlock { body: slice }))
    }

    fn write_to(&self, _endianness: Endianness, out: &mut Vec<u8>) -> (n: usize) {
        push_bytes(out, self.body);
        self.body.len()
    }

    fn into_parsed(self) -> (r: ParsedBlock<'a>)
        ensures
            r == ParsedBlock::InterfaceStatistics(self),
    {
        ParsedBlock::InterfaceStatistics(self)
    }
}

impl<'a> PcapNgBlock<'a> for EnhancedPacketBlock<'a> {
    open spec fn spec_type() -> BlockType {
        BlockType::EnhancedPacket
    }

    open spec fn body_view(&self) -> Seq<u8> {
        self.body@
    }

    fn block_type(&self) -> (t: BlockType) {
        BlockType::EnhancedPacket
    }

    fn from_slice(_endianness: Endianness, slice: &'a [u8]) -> (r: Result<
        (&'a [u8], Self),
        PcapError,
    >) {
        let n = slice.len();
        let rem = slice_subrange(slice, n, n);
        proof {
            assert(rem@ =~= Seq::<u8>::empty());
        }
        Ok((rem, EnhancedPacketBlock { body: slice }))
    }

    fn write_to(&self, _endianness: Endianness, out: &mut Vec<u8>) -> (n: usize) {
        push_bytes(out, self.body);
        self.body.len()
    }

    fn into_parsed(self) -> (r: ParsedBlock<'a>)
        ensures
            r == ParsedBlock::EnhancedPacket(self),
    {
        ParsedBlock::EnhancedPacket(self)
    }
}

impl<'a> PcapNgBlock<'a> for SystemdJournalExportBlock<'a> {
    open spec fn spec_type() -> BlockType {
        BlockType::SystemdJournalExport
    }

    open spec fn body_view(&self) -> Seq<u8> {
        self.body@
    }

    fn block_type(&self) -> (t: BlockType) {
        BlockType::SystemdJournalExport
    }

    fn from_slice(_endianness: Endianness, slice: &'a [u8]) -> (r: Result<
        (&'a [u8], Self),
        PcapError,
    >) {
        let n = slice.len();
        let rem = slice_subrange(slice, n, n);
        proof {
            assert(rem@ =~= Seq::<u8>::empty());
        }
        Ok((rem, SystemdJournalExportBlock { body: slice }))
    }

    fn write_to(&self, _endianness: Endianness, out: &mut Vec<u8>) -> (n: usize) {
        push_bytes(out, self.body);
        self.body.len()
    }

    fn into_parsed(self) -> (r: ParsedBlock<'a>)
        ensures
            r == ParsedBlock::SystemdJournalExport(self),
    {
        ParsedBlock::SystemdJournalExport(self)
    }
}

} // verus!
