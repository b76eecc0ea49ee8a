//! The block-type tag: a closed enumeration over the known record kinds,
//! with a lossless two-way mapping to the 32-bit wire code.

use vstd::prelude::*;

verus! {

/// The kind of a block, as announced by the first four bytes of its
/// envelope.  Codes that name no known kind are preserved verbatim.
#[derive(Copy, Clone, Debug, Eq, PartialEq, Structural)]
pub enum BlockType {
    SectionHeader,
    InterfaceDescription,
    Packet,
    SimplePacket,
    NameResolution,
    InterfaceStatistics,
    EnhancedPacket,
    SystemdJournalExport,
    Unknown(u32),
}

/// Whether `code` names one of the known block kinds.
pub open spec fn is_known_code(code: u32) -> bool {
    ||| code == 0x0A0D0D0A
    ||| code == 0x00000001
    ||| code == 0x00000002
    ||| code == 0x00000003
    ||| code == 0x00000004
    ||| code == 0x00000005
    ||| code == 0x00000006
    ||| code == 0x00000009
}

impl BlockType {
    /// The tag that a wire code denotes.  Total: an unmapped code becomes
    /// `Unknown` and carries the code unchanged.
    pub open spec fn spec_from_code(code: u32) -> BlockType {
        if code == 0x0A0D0D0A {
            BlockType::SectionHeader
        } else if code == 0x00000001 {
            BlockType::InterfaceDescription
        } else if code == 0x00000002 {
            BlockType::Packet
        } else if code == 0x00000003 {
            BlockType::SimplePacket
        } else if code == 0x00000004 {
            BlockType::NameResolution
        } else if code == 0x00000005 {
            BlockType::InterfaceStatistics
        } else if code == 0x00000006 {
            BlockType::EnhancedPacket
        } else if code == 0x00000009 {
            BlockType::SystemdJournalExport
        } else {
            BlockType::Unknown(code)
        }
    }

    /// The wire code of a tag: the canonical constant of a known kind, the
    /// preserved code of an unknown one.
    pub open spec fn spec_code(self) -> u32 {
        match self {
            BlockType::SectionHeader => 0x0A0D0D0A,
            BlockType::InterfaceDescription => 0x00000001,
            BlockType::Packet => 0x00000002,
            BlockType::SimplePacket => 0x00000003,
            BlockType::NameResolution => 0x00000004,
            BlockType::InterfaceStatistics => 0x00000005,
            BlockType::EnhancedPacket => 0x00000006,
            BlockType::SystemdJournalExport => 0x00000009,
            BlockType::Unknown(c) => c,
        }
    }

    /// Whether this tag can come out of a decode: an `Unknown` tag never
    /// smuggles a known code.
    pub open spec fn wf(self) -> bool {
        self matches BlockType::Unknown(c) ==> !is_known_code(c)
    }
}

impl From<u32> for BlockType {
    fn from(src: u32) -> (r: Self) {
        match src {
            0x0A0D0D0A => BlockType::SectionHeader,
            0x00000001 => BlockType::InterfaceDescription,
            0x00000002 => BlockType::Packet,
            0x00000003 => BlockType::SimplePacket,
            0x00000004 => BlockType::NameResolution,
            0x00000005 => BlockType::InterfaceStatistics,
            0x00000006 => BlockType::EnhancedPacket,
            0x00000009 => BlockType::SystemdJournalExport,
            _ => BlockType::Unknown(src),
        }
    }
}

impl vstd::std_specs::convert::FromSpecImpl<u32> for BlockType {
    open spec fn obeys_from_spec() -> bool {
        true
    }

    open spec fn from_spec(code: u32) -> BlockType {
        BlockType::spec_from_code(code)
    }
}

impl BlockType {
    /// The wire code of this tag, as `spec_code` gives it.
    pub fn into_code(self) -> (code: u32)
        ensures
            code == self.spec_code(),
    {
        match self {
            BlockType::SectionHeader => 0x0A0D0D0A,
            BlockType::InterfaceDescription => 0x00000001,
            BlockType::Packet => 0x00000002,
            BlockType::SimplePacket => 0x00000003,
            BlockType::NameResolution => 0x00000004,
            BlockType::InterfaceStatistics => 0x00000005,
            BlockType::EnhancedPacket => 0x00000006,
            BlockType::SystemdJournalExport => 0x00000009,
            BlockType::Unknown(c) => c,
        }
    }
}

/// Law: a tag survives conversion to its wire code and back, for every known
/// kind and for every `Unknown` tag whose code names no known kind.
pub proof fn lemma_type_round_trip(t: BlockType)
    requires
        t.wf(),
    ensures
        BlockType::spec_from_code(t.spec_code()) == t,
{
}

/// Law: a wire code survives conversion to a tag and back, unconditionally.
pub proof fn lemma_code_round_trip(code: u32)
    ensures
        BlockType::spec_from_code(code).spec_code() == code,
{
}

} // verus!
