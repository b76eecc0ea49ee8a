//! The generic block framer: the universal envelope around every record of a
//! capture — type tag, leading total length, body, duplicated trailing
//! length — decoded from a stream or zero-copy from a slice, and re-encoded.

use crate::block_type::BlockType;
use crate::endianness::{
    lemma_swap_reads, lemma_u32_of_bytes, push_bytes, push_u32, read_u32_at, swap32, swap_u32,
    u32_bytes, u32_of, Endianness,
};
use crate::errors::PcapError;
use vstd::prelude::*;
use vstd::slice::slice_subrange;

verus! {

/// The magic constant at the start of a section-header body, as read
/// big-endian when the section is big-endian.
pub const MAGIC_BIG: u32 = 0x1A2B3C4D;

/// The value the same magic bytes denote when read big-endian although the
/// section is little-endian.
pub const MAGIC_LITTLE: u32 = 0x4D3C2B1A;

/// A block body: borrowed from the decoded buffer on the zero-copy slice
/// path, or an owned copy on the stream path.  Both expose the same bytes.
#[derive(Clone, Debug)]
pub enum BlockBody<'a> {
    Borrowed(&'a [u8]),
    Owned(Vec<u8>),
}

impl<'a> View for BlockBody<'a> {
    type V = Seq<u8>;

    open spec fn view(&self) -> Seq<u8> {
        match *self {
            BlockBody::Borrowed(s) => s@,
            BlockBody::Owned(ref v) => v@,
        }
    }
}

impl<'a> BlockBody<'a> {
    /// The bytes of the body.
    pub fn as_slice(&self) -> (s: &[u8])
        ensures
            s@ == self@,
    {
        match self {
            BlockBody::Borrowed(s) => s,
            BlockBody::Owned(v) => v.as_slice(),
        }
    }

    /// The number of bytes of the body.
    pub fn len(&self) -> (n: usize)
        ensures
            n == self@.len(),
    {
        self.as_slice().len()
    }

    /// An owned copy of this body, no longer tied to the source buffer.
    pub fn into_owned(self) -> (r: BlockBody<'static>)
        ensures
            r@ == self@,
    {
        match self {
            BlockBody::Borrowed(s) => BlockBody::Owned(vstd::slice::slice_to_vec(s)),
            BlockBody::Owned(v) => BlockBody::Owned(v),
        }
    }
}

/// The mathematical content of a decoded block: what its envelope said,
/// independent of how the body bytes are stored.
#[verifier::ext_equal]
pub ghost struct BlockModel {
    pub type_: BlockType,
    pub initial_len: u32,
    pub body: Seq<u8>,
    pub trailer_len: u32,
    pub endianness: Endianness,
}

impl BlockModel {
    /// The framing invariants short of trailer agreement: the length is
    /// aligned and at least the envelope's twelve bytes, the body holds
    /// exactly the bytes the length announces, the tag does not hide a
    /// known code inside `Unknown`, and a section header begins with the
    /// magic number that matches its recorded byte order.
    pub open spec fn framed(self) -> bool {
        &&& self.initial_len % 4 == 0
        &&& self.initial_len >= 12
        &&& self.body.len() == self.initial_len - 12
        &&& self.type_.wf()
        &&& (self.type_ is SectionHeader ==> {
            &&& self.body.len() >= 4
            &&& (match self.endianness {
                Endianness::Big => u32_of(Endianness::Big, self.body.subrange(0, 4))
                    == MAGIC_BIG,
                Endianness::Little => u32_of(Endianness::Big, self.body.subrange(0, 4))
                    == MAGIC_LITTLE,
            })
        })
    }

    /// The structural invariants a decode enforces: the framing invariants
    /// together with agreement of the leading and trailing length fields.
    pub open spec fn wf(self) -> bool {
        &&& self.framed()
        &&& self.trailer_len == self.initial_len
    }
}

/// One decoded block envelope.
#[derive(Clone, Debug)]
pub struct Block<'a> {
    /// The block-type tag; unknown codes are preserved verbatim.
    pub type_: BlockType,
    /// The leading total-length field as read from the wire.
    pub initial_len: u32,
    /// The record's payload: `initial_len - 12` bytes.
    pub body: BlockBody<'a>,
    /// The trailing total-length field as read from the wire.
    pub trailer_len: u32,
    /// The byte order that was in force while this block was decoded: a
    /// capture may hold several sections, each announcing its own order.
    pub endianness: Endianness,
}

impl<'a> View for Block<'a> {
    type V = BlockModel;

    open spec fn view(&self) -> BlockModel {
        BlockModel {
            type_: self.type_,
            initial_len: self.initial_len,
            body: self.body@,
            trailer_len: self.trailer_len,
            endianness: self.endianness,
        }
    }
}

/// What decoding one block from the front of `s` in order `e` yields: on
/// success, the unconsumed suffix and the block; otherwise the exact error,
/// with `IncompleteBuffer` carrying the missing byte count.
pub open spec fn spec_from_slice(e: Endianness, s: Seq<u8>) -> Result<
    (Seq<u8>, BlockModel),
    PcapError,
> {
    if s.len() < 12 {
        Err(PcapError::IncompleteBuffer((12 - s.len()) as usize))
    } else {
        let type_ = BlockType::spec_from_code(u32_of(e, s.subrange(0, 4)) as u32);
        if type_ is SectionHeader {
            let raw = u32_of(Endianness::Big, s.subrange(4, 8)) as u32;
            let magic = u32_of(Endianness::Big, s.subrange(8, 12)) as u32;
            if magic == MAGIC_BIG {
                spec_finish(Endianness::Big, type_, raw, s)
            } else if magic == MAGIC_LITTLE {
                spec_finish(Endianness::Little, type_, swap32(raw), s)
            } else {
                Err(PcapError::InvalidField("SectionHeaderBlock: invalid magic number"))
            }
        } else {
            spec_finish(e, type_, u32_of(e, s.subrange(4, 8)) as u32, s)
        }
    }
}

/// The validation steps shared by both decode branches, after the byte
/// order and the leading length are settled.
pub open spec fn spec_finish(
    e: Endianness,
    type_: BlockType,
    initial_len: u32,
    s: Seq<u8>,
) -> Result<(Seq<u8>, BlockModel), PcapError> {
    if initial_len % 4 != 0 {
        Err(PcapError::InvalidField("Block: (initial_len % 4) != 0"))
    } else if initial_len < 12 {
        Err(PcapError::InvalidField("Block: initial_len < 12"))
    } else if s.len() < initial_len {
        Err(PcapError::IncompleteBuffer((initial_len - s.len()) as usize))
    } else {
        let trailer_len = u32_of(e, s.subrange(initial_len - 4, initial_len as int)) as u32;
        if initial_len != trailer_len {
            Err(PcapError::InvalidField("Block initial_length != trailer_length"))
        } else {
            Ok(
                (
                    s.skip(initial_len as int),
                    BlockModel {
                        type_,
                        initial_len,
                        body: s.subrange(8, initial_len - 4),
                        trailer_len,
                        endianness: e,
                    },
                ),
            )
        }
    }
}

/// The encoding of a block in order `e`: type code, leading length, body
/// bytes verbatim, trailing length.
pub open spec fn spec_block_bytes(e: Endianness, b: BlockModel) -> Seq<u8> {
    u32_bytes(e, b.type_.spec_code()) + u32_bytes(e, b.initial_len) + b.body + u32_bytes(
        e,
        b.trailer_len,
    )
}

/// What assembling a stream-decoded block from the values read off the
/// wire yields: the envelope validations that do not depend on buffer
/// arithmetic, with the exact error for each violation; the body bytes are
/// taken as read.
pub open spec fn spec_assemble(
    e: Endianness,
    type_: BlockType,
    initial_len: u32,
    body: Seq<u8>,
    trailer_len: u32,
) -> Result<BlockModel, PcapError> {
    if initial_len % 4 != 0 {
        Err(PcapError::InvalidField("Block: (initial_len % 4) != 0"))
    } else if initial_len < 12 {
        Err(PcapError::InvalidField("Block: initial_len < 12"))
    } else if initial_len != trailer_len {
        Err(PcapError::InvalidField("Block initial_length != trailer_length"))
    } else {
        Ok(BlockModel { type_, initial_len, body, trailer_len, endianness: e })
    }
}

/// Checks the announced total length for alignment and minimum size,
/// returning exactly the error a violation carries.
fn validate_initial_len(initial_len: u32) -> (r: Result<(), PcapError>)
    ensures
        (match r {
            Ok(()) => initial_len % 4 == 0 && initial_len >= 12,
            Err(err) => (if initial_len % 4 != 0 {
                err == PcapError::InvalidField("Block: (initial_len % 4) != 0")
            } else {
                initial_len < 12 && err == PcapError::InvalidField("Block: initial_len < 12")
            }),
        }),
{
    if initial_len % 4 != 0 {
        Err(PcapError::InvalidField("Block: (initial_len % 4) != 0"))
    } else if initial_len < 12 {
        Err(PcapError::InvalidField("Block: initial_len < 12"))
    } else {
        Ok(())
    }
}

/// Checks that a section header's announced length leaves room for the
/// magic number at the start of the body.
fn validate_section_len(initial_len: u32) -> (r: Result<(), PcapError>)
    ensures
        (match r {
            Ok(()) => initial_len >= 16,
            Err(err) => initial_len < 16 && err == PcapError::InvalidField(
                "SectionHeaderBlock: no room for the magic number",
            ),
        }),
{
    if initial_len < 16 {
        Err(PcapError::InvalidField("SectionHeaderBlock: no room for the magic number"))
    } else {
        Ok(())
    }
}

/// Decides a section's byte order from its magic number, as read under the
/// big-endian assumption, and corrects the length field read under that
/// same assumption: a little-endian magic means the length's bytes came in
/// reversed.
fn discover_endianness(magic: u32, raw_len: u32) -> (r: Result<(Endianness, u32), PcapError>)
    ensures
        magic == MAGIC_BIG ==> r == Ok::<(Endianness, u32), PcapError>(
            (Endianness::Big, raw_len),
        ),
        magic == MAGIC_LITTLE ==> r == Ok::<(Endianness, u32), PcapError>(
            (Endianness::Little, swap32(raw_len)),
        ),
        magic != MAGIC_BIG && magic != MAGIC_LITTLE ==> r == Err::<(Endianness, u32), PcapError>(
            PcapError::InvalidField("SectionHeaderBlock: invalid magic number"),
        ),
{
    if magic == MAGIC_BIG {
        Ok((Endianness::Big, raw_len))
    } else if magic == MAGIC_LITTLE {
        Ok((Endianness::Little, swap_u32(raw_len)))
    } else {
        Err(PcapError::InvalidField("SectionHeaderBlock: invalid magic number"))
    }
}

/// A successful decode yields a well-formed block whose remainder is the
/// input with the block's announced length consumed.
pub proof fn lemma_from_slice_wf(e: Endianness, s: Seq<u8>)
    ensures
        spec_from_slice(e, s) matches Ok(p) ==> {
            &&& p.1.wf()
            &&& p.1.initial_len <= s.len()
            &&& p.0 == s.skip(p.1.initial_len as int)
            &&& p.1.body == s.subrange(8, p.1.initial_len - 4)
        },
{
    if s.len() >= 12 {
        let type_ = BlockType::spec_from_code(u32_of(e, s.subrange(0, 4)) as u32);
        if type_ is SectionHeader {
            let raw = u32_of(Endianness::Big, s.subrange(4, 8)) as u32;
            let magic = u32_of(Endianness::Big, s.subrange(8, 12)) as u32;
            if magic == MAGIC_BIG {
                lemma_finish_wf(Endianness::Big, type_, raw, s);
                lemma_section_min_len(Endianness::Big, type_, raw, s);
            } else if magic == MAGIC_LITTLE {
                lemma_finish_wf(Endianness::Little, type_, swap32(raw), s);
                lemma_section_min_len(Endianness::Little, type_, swap32(raw), s);
            }
        } else {
            lemma_finish_wf(e, type_, u32_of(e, s.subrange(4, 8)) as u32, s);
        }
    }
}

/// The shared validation steps yield a block whose plain envelope
/// invariants hold; the section-header magic clause is handled separately.
proof fn lemma_finish_wf(e: Endianness, type_: BlockType, initial_len: u32, s: Seq<u8>)
    requires
        s.len() >= 12,
    ensures
        spec_finish(e, type_, initial_len, s) matches Ok(p) ==> {
            &&& p.1.initial_len % 4 == 0
            &&& p.1.initial_len >= 12
            &&& p.1.trailer_len == p.1.initial_len
            &&& p.1.body.len() == p.1.initial_len - 12
            &&& p.1.initial_len <= s.len()
            &&& p.0 == s.skip(p.1.initial_len as int)
            &&& p.1.body == s.subrange(8, p.1.initial_len - 4)
            &&& p.1.type_ == type_
            &&& p.1.endianness == e
        },
{
}

/// When a section-header decode succeeds, the announced length leaves room
/// for the magic number, and the body starts with the magic bytes.
proof fn lemma_section_min_len(e: Endianness, type_: BlockType, initial_len: u32, s: Seq<u8>)
    requires
        s.len() >= 12,
        type_ is SectionHeader,
        e is Big ==> u32_of(Endianness::Big, s.subrange(8, 12)) == MAGIC_BIG,
        e is Little ==> u32_of(Endianness::Big, s.subrange(8, 12)) == MAGIC_LITTLE,
    ensures
        spec_finish(e, type_, initial_len, s) matches Ok(p) ==> {
            &&& p.1.body.len() >= 4
            &&& p.1.body.subrange(0, 4) == s.subrange(8, 12)
        },
{
    let r = spec_finish(e, type_, initial_len, s);
    if r is Ok {
        // A length of exactly 12 cannot succeed: the trailer field would
        // overlap the magic bytes, whose value in order `e` is the magic
        // constant and not 12.
        if initial_len == 12 {
            let tb = s.subrange(8, 12);
            assert(s.subrange(initial_len - 4, initial_len as int) == tb);
            if e is Little {
                lemma_swap_reads(tb);
                assert(u32_of(Endianness::Little, tb) == swap32(MAGIC_LITTLE));
                assert(swap32(MAGIC_LITTLE) == MAGIC_BIG);
            }
            assert(false);
        }
        let p = r->Ok_0;
        assert(p.1.body.subrange(0, 4) =~= s.subrange(8, 12));
    }
}

/// Decoding the encoding of a framed block resolves its first twelve bytes
/// — tag, leading length and, for a section header, the magic — back to the
/// block's own fields, so the decode proceeds to the shared validation
/// steps with exactly those values.
#[verifier::rlimit(100)]
proof fn lemma_header_of_encoding(b: BlockModel)
    requires
        b.framed(),
    ensures
        spec_from_slice(b.endianness, spec_block_bytes(b.endianness, b)) == spec_finish(
            b.endianness,
            b.type_,
            b.initial_len,
            spec_block_bytes(b.endianness, b),
        ),
{
    let e = b.endianness;
    let s = spec_block_bytes(e, b);
    let code = b.type_.spec_code();
    assert(s.len() == 12 + b.body.len());
    assert(s.subrange(0, 4) =~= u32_bytes(e, code));
    assert(s.subrange(4, 8) =~= u32_bytes(e, b.initial_len));
    lemma_u32_of_bytes(e, code);
    lemma_u32_of_bytes(e, b.initial_len);
    crate::block_type::lemma_type_round_trip(b.type_);
    if b.type_ is SectionHeader {
        assert(s.subrange(8, 12) =~= b.body.subrange(0, 4));
        let raw = u32_of(Endianness::Big, s.subrange(4, 8)) as u32;
        if e is Little {
            lemma_swap_reads(u32_bytes(Endianness::Little, b.initial_len));
            lemma_u32_of_bytes(Endianness::Little, b.initial_len);
            assert(swap32(raw) == b.initial_len);
        }
    }
}

/// Law: decoding the encoding of a well-formed block, under the block's own
/// byte order, succeeds, returns that very block, and consumes every byte.
/// This holds for every block kind, a section header under either magic
/// value included.
#[verifier::rlimit(100)]
pub proof fn lemma_round_trip(b: BlockModel)
    requires
        b.wf(),
    ensures
        spec_from_slice(b.endianness, spec_block_bytes(b.endianness, b)) == Ok::<
            (Seq<u8>, BlockModel),
            PcapError,
        >((Seq::<u8>::empty(), b)),
{
    let e = b.endianness;
    let s = spec_block_bytes(e, b);
    lemma_header_of_encoding(b);
    assert(s.len() == 12 + b.body.len());
    assert(s.subrange(8, b.initial_len - 4) =~= b.body);
    assert(s.subrange(b.initial_len - 4, b.initial_len as int) =~= u32_bytes(e, b.trailer_len));
    lemma_u32_of_bytes(e, b.trailer_len);
    let r = spec_from_slice(e, s);
    assert(r is Ok);
    assert(r->Ok_0.0 =~= Seq::<u8>::empty());
    assert(r->Ok_0.1 =~= b);
}

/// Law: a block whose leading and trailing length fields disagree is
/// rejected as an invalid field, never decoded.
#[verifier::rlimit(100)]
pub proof fn lemma_mismatched_lengths_rejected(b: BlockModel)
    requires
        b.framed(),
        b.trailer_len != b.initial_len,
    ensures
        spec_from_slice(b.endianness, spec_block_bytes(b.endianness, b)) == Err::<
            (Seq<u8>, BlockModel),
            PcapError,
        >(PcapError::InvalidField("Block initial_length != trailer_length")),
{
    let e = b.endianness;
    let s = spec_block_bytes(e, b);
    lemma_header_of_encoding(b);
    assert(s.len() == 12 + b.body.len());
    assert(s.subrange(b.initial_len - 4, b.initial_len as int) =~= u32_bytes(e, b.trailer_len));
    lemma_u32_of_bytes(e, b.trailer_len);
}

/// Law: decoding any strict prefix of an encoded block fails with
/// `IncompleteBuffer` carrying the exact number of additional bytes asked
/// for at that point: up to the twelve envelope-header bytes first, then
/// the rest of the announced length.  Feeding the missing bytes turns the
/// decode into `lemma_round_trip`'s successful one.
#[verifier::rlimit(100)]
pub proof fn lemma_truncated_rejected(b: BlockModel, k: int)
    requires
        b.wf(),
        0 <= k < b.initial_len,
    ensures
        spec_from_slice(b.endianness, spec_block_bytes(b.endianness, b).take(k)) == Err::<
            (Seq<u8>, BlockModel),
            PcapError,
        >(
            PcapError::IncompleteBuffer(
                if k < 12 {
                    (12 - k) as usize
                } else {
                    (b.initial_len - k) as usize
                },
            ),
        ),
{
    let e = b.endianness;
    let s = spec_block_bytes(e, b);
    let p = s.take(k);
    assert(s.len() == 12 + b.body.len());
    if k >= 12 {
        assert(p.subrange(0, 4) =~= u32_bytes(e, b.type_.spec_code()));
        assert(p.subrange(4, 8) =~= u32_bytes(e, b.initial_len));
        lemma_u32_of_bytes(e, b.type_.spec_code());
        lemma_u32_of_bytes(e, b.initial_len);
        crate::block_type::lemma_type_round_trip(b.type_);
        if b.type_ is SectionHeader {
            assert(p.subrange(8, 12) =~= b.body.subrange(0, 4));
            let raw = u32_of(Endianness::Big, p.subrange(4, 8)) as u32;
            if e is Little {
                lemma_swap_reads(u32_bytes(Endianness::Little, b.initial_len));
                lemma_u32_of_bytes(Endianness::Little, b.initial_len);
                assert(swap32(raw) == b.initial_len);
            }
        }
    }
}

/// Law: a section-header block whose magic field is neither magic constant
/// is rejected as an invalid field, whatever else the buffer holds.
pub proof fn lemma_bad_magic_rejected(e: Endianness, s: Seq<u8>)
    requires
        s.len() >= 12,
        BlockType::spec_from_code(u32_of(e, s.subrange(0, 4)) as u32) is SectionHeader,
        u32_of(Endianness::Big, s.subrange(8, 12)) != MAGIC_BIG,
        u32_of(Endianness::Big, s.subrange(8, 12)) != MAGIC_LITTLE,
    ensures
        spec_from_slice(e, s) == Err::<(Seq<u8>, BlockModel), PcapError>(
            PcapError::InvalidField("SectionHeaderBlock: invalid magic number"),
        ),
{
    crate::endianness::lemma_u32_of_bound(Endianness::Big, s.subrange(8, 12));
}

impl<'a> Block<'a> {
    /// This block with its body copied into owned storage, for a caller
    /// that needs the result to outlive the buffer it was decoded from.
    pub fn into_owned(self) -> (r: Block<'static>)
        ensures
            r@ == self@,
    {
        let block = Block {
            type_: self.type_,
            initial_len: self.initial_len,
            body: self.body.into_owned(),
            trailer_len: self.trailer_len,
            endianness: self.endianness,
        };
        proof {
            assert(block@ =~= self@);
        }
        block
    }

    /// Decodes one block zero-copy from the front of `slice`, reading
    /// multi-byte fields in order `endianness` — except inside a section
    /// header, whose own magic number overrides the caller's assumption.
    /// Returns the unconsumed suffix alongside the block, so a caller can
    /// decode a run of blocks without re-scanning; the suffix begins
    /// `initial_len` bytes into `slice`.
    pub fn from_slice(endianness: Endianness, slice: &'a [u8]) -> (r: Result<
        (&'a [u8], Block<'a>),
        PcapError,
    >)
        ensures
            (match r {
                Ok(p) => spec_from_slice(endianness, slice@) matches Ok(q) && q.0 == p.0@ && q.1
                    == p.1@,
                Err(err) => spec_from_slice(endianness, slice@) matches Err(e2) && e2 == err,
            }),
            r matches Ok(p) ==> p.1@.wf() && p.1@.initial_len <= slice@.len() && p.0@
                == slice@.skip(p.1@.initial_len as int),
            r matches Ok(p) ==> p.1.body matches BlockBody::Borrowed(_),
    {
        proof {
            lemma_from_slice_wf(endianness, slice@);
        }
        let n = slice.len();
        if n < 12 {
            return Err(PcapError::IncompleteBuffer(12 - n));
        }
        let code = read_u32_at(endianness, slice, 0);
        let type_: BlockType = BlockType::from(code);
        if type_ == BlockType::SectionHeader {
            let raw = read_u32_at(Endianness::Big, slice, 4);
            let magic = read_u32_at(Endianness::Big, slice, 8);
            match discover_endianness(magic, raw) {
                Ok((e2, initial_len)) => Self::finish_slice(e2, type_, initial_len, slice),
                Err(e) => Err(e),
            }
        } else {
            let initial_len = read_u32_at(endianness, slice, 4);
            Self::finish_slice(endianness, type_, initial_len, slice)
        }
    }

    /// The validation steps shared by both slice-decode branches.
    fn finish_slice(e: Endianness, type_: BlockType, initial_len: u32, slice: &'a [u8]) -> (r:
        Result<(&'a [u8], Block<'a>), PcapError>)
        requires
            slice@.len() >= 12,
        ensures
            (match r {
                Ok(p) => spec_finish(e, type_, initial_len, slice@) matches Ok(q) && q.0 == p.0@
                    && q.1 == p.1@,
                Err(err) => spec_finish(e, type_, initial_len, slice@) matches Err(e2) && e2
                    == err,
            }),
            r matches Ok(p) ==> p.1.body matches BlockBody::Borrowed(_),
    {
        match validate_initial_len(initial_len) {
            Ok(()) => {},
            Err(err) => {
                return Err(err);
            },
        }
        let n = slice.len();
        let ilen = initial_len as usize;
        if n < ilen {
            return Err(PcapError::IncompleteBuffer(ilen - n));
        }
        let trailer_len = read_u32_at(e, slice, ilen - 4);
        if initial_len != trailer_len {
            return Err(PcapError::InvalidField("Block initial_length != trailer_length"));
        }
        let body = slice_subrange(slice, 8, ilen - 4);
        let rem = slice_subrange(slice, ilen, n);
        let block = Block {
            type_,
            initial_len,
            body: BlockBody::Borrowed(body),
            trailer_len,
            endianness: e,
        };
        proof {
            assert(spec_finish(e, type_, initial_len, slice@) matches Ok(q) && q.1 =~= block@);
        }
        Ok((rem, block))
    }

    /// Encodes this block in order `endianness`: type code, leading length,
    /// body verbatim, trailing length.  No length is recomputed; the caller
    /// supplies consistent fields (as every decoded block has).
    pub fn to_vec(&self, endianness: Endianness) -> (out: Vec<u8>)
        ensures
            out@ == spec_block_bytes(endianness, self@),
    {
        let mut out: Vec<u8> = Vec::new();
        push_u32(endianness, &mut out, self.type_.into_code());
        push_u32(endianness, &mut out, self.initial_len);
        push_bytes(&mut out, self.body.as_slice());
        push_u32(endianness, &mut out, self.trailer_len);
        proof {
            assert(out@ =~= spec_block_bytes(endianness, self@));
        }
        out
    }

    /// Serializes this block into `writer` in order `endianness` and
    /// returns the number of bytes written, `12 + body.len()`.
    ///
    /// The bytes handed to the writer are exactly `spec_block_bytes` of
    /// this block; whether the writer accepts them is the writer's affair.
    pub fn write_to<W: std::io::Write>(&self, endianness: Endianness, writer: &mut W) -> (r:
        Result<usize, std::io::Error>)
        requires
            self@.body.len() + 12 <= usize::MAX,
        ensures
            r matches Ok(n) ==> n == 12 + self@.body.len(),
    {
        let bytes = self.to_vec(endianness);
        match write_all_bytes(writer, bytes.as_slice()) {
            Ok(()) => Ok(12 + self.body.len()),
            Err(e) => Err(e),
        }
    }

    /// Decodes one block from a stream, reading multi-byte fields in order
    /// `endianness` — except inside a section header, whose magic number
    /// overrides it.  The body is copied into an owned buffer; a section
    /// header's body keeps the magic as its first four bytes.  A short
    /// stream surfaces as the underlying end-of-file error, never as
    /// `IncompleteBuffer`.
    pub fn from_reader<R: std::io::Read>(reader: &mut R, endianness: Endianness) -> (r: Result<
        Block<'static>,
        PcapError,
    >)
        ensures
            r matches Ok(b) ==> b@.wf() && (!(b@.type_ is SectionHeader) ==> b@.endianness
                == endianness),
            r matches Ok(b) ==> b.body matches BlockBody::Owned(_),
            r matches Err(e) ==> !(e matches PcapError::IncompleteBuffer(_)),
    {
        let type_bytes = match read_exact_vec(reader, 4) {
            Ok(v) => v,
            Err(e) => return Err(PcapError::Io(e)),
        };
        let code = read_u32_at(endianness, type_bytes.as_slice(), 0);
        let type_: BlockType = BlockType::from(code);
        if type_ == BlockType::SectionHeader {
            let len_bytes = match read_exact_vec(reader, 4) {
                Ok(v) => v,
                Err(e) => return Err(PcapError::Io(e)),
            };
            let raw = read_u32_at(Endianness::Big, len_bytes.as_slice(), 0);
            let magic_bytes = match read_exact_vec(reader, 4) {
                Ok(v) => v,
                Err(e) => return Err(PcapError::Io(e)),
            };
            let magic = read_u32_at(Endianness::Big, magic_bytes.as_slice(), 0);
            let (e2, initial_len) = match discover_endianness(magic, raw) {
                Ok(p) => p,
                Err(e) => return Err(e),
            };
            match validate_initial_len(initial_len) {
                Ok(()) => {},
                Err(e) => {
                    return Err(e);
                },
            }
            match validate_section_len(initial_len) {
                Ok(()) => {},
                Err(e) => {
                    return Err(e);
                },
            }
            let ghost magic_seq = magic_bytes@;
            let mut body = magic_bytes;
            let mut rest = match read_exact_vec(reader, (initial_len as usize) - 16) {
                Ok(v) => v,
                Err(e) => return Err(PcapError::Io(e)),
            };
            body.append(&mut rest);
            let trailer_bytes = match read_exact_vec(reader, 4) {
                Ok(v) => v,
                Err(e) => return Err(PcapError::Io(e)),
            };
            let trailer_len = read_u32_at(e2, trailer_bytes.as_slice(), 0);
            let r = Self::finish_reader(e2, type_, initial_len, body, trailer_len);
            proof {
                if r is Ok {
                    let b = r->Ok_0;
                    assert(b@.body.subrange(0, 4) =~= magic_seq.subrange(0, 4));
                }
            }
            r
        } else {
            let len_bytes = match read_exact_vec(reader, 4) {
                Ok(v) => v,
                Err(e) => return Err(PcapError::Io(e)),
            };
            let initial_len = read_u32_at(endianness, len_bytes.as_slice(), 0);
            match validate_initial_len(initial_len) {
                Ok(()) => {},
                Err(e) => {
                    return Err(e);
                },
            }
            let body = match read_exact_vec(reader, (initial_len as usize) - 12) {
                Ok(v) => v,
                Err(e) => return Err(PcapError::Io(e)),
            };
            let trailer_bytes = match read_exact_vec(reader, 4) {
                Ok(v) => v,
                Err(e) => return Err(PcapError::Io(e)),
            };
            let trailer_len = read_u32_at(endianness, trailer_bytes.as_slice(), 0);
            Self::finish_reader(endianness, type_, initial_len, body, trailer_len)
        }
    }

    /// Assembles a stream-decoded block from the values read off the wire:
    /// for every value of the arguments, either exactly the error that
    /// `spec_assemble` gives, or a block holding exactly these fields in
    /// owned storage.
    fn finish_reader(
        e: Endianness,
        type_: BlockType,
        initial_len: u32,
        body: Vec<u8>,
        trailer_len: u32,
    ) -> (r: Result<Block<'static>, PcapError>)
        ensures
            (match r {
                Ok(b) => spec_assemble(e, type_, initial_len, body@, trailer_len) matches Ok(m)
                    && b@ == m && (b.body matches BlockBody::Owned(_)),
                Err(err) => spec_assemble(e, type_, initial_len, body@, trailer_len) matches Err(
                    e2,
                ) && e2 == err,
            }),
    {
        match validate_initial_len(initial_len) {
            Ok(()) => {},
            Err(err) => {
                return Err(err);
            },
        }
        if initial_len != trailer_len {
            return Err(PcapError::InvalidField("Block initial_length != trailer_length"));
        }
        let ghost body_seq = body@;
        let block = Block {
            type_,
            initial_len,
            body: BlockBody::Owned(body),
            trailer_len,
            endianness: e,
        };
        proof {
            assert(spec_assemble(e, type_, initial_len, body_seq, trailer_len) matches Ok(m) && m
                =~= block@);
        }
        Ok(block)
    }
}

/// Relies on std::io::Read::read_exact: on success it has filled the buffer
/// completely, so the returned vector holds exactly `n` bytes; nothing is
/// assumed about their values or about the stream after a failure.
#[verifier::external_body]
fn read_exact_vec<R: std::io::Read>(reader: &mut R, n: usize) -> (r: Result<
    Vec<u8>,
    std::io::Error,
>)
    ensures
        r matches Ok(v) ==> v@.len() == n,
{
    let mut buf = vec![0u8; n];
    match reader.read_exact(&mut buf) {
        Ok(()) => Ok(buf),
        Err(e) => Err(e),
    }
}

/// Relies on std::io::Write::write_all: it either writes the whole buffer
/// or reports the first error; nothing is assumed of the writer's state.
#[verifier::external_body]
fn write_all_bytes<W: std::io::Write>(writer: &mut W, bytes: &[u8]) -> (r: Result<
    (),
    std::io::Error,
>) {
    writer.write_all(bytes)
}

} // verus!

