//! The primary header and the two fields it is built from.
//!
//! Wire layout of the 48 header bits, first bit first:
//! version (3, always zero), packet type (1), secondary header flag (1),
//! application process identifier (11), sequence flags (2),
//! sequence count or packet name (14), data length (16).
use crate::bits::{
    lemma_max_region_bits, lemma_uint_bits_len, uint_bits, BitRegion, MAX_REGION_BITS,
};
use crate::errors::SPPError;
use vstd::prelude::*;

verus! {

/// Width of the application process identifier, in bits.
pub const APID_BITS: usize = 11;

/// Width of the sequence count or packet name, in bits.
pub const SEQUENCE_COUNT_BITS: usize = 14;

/// Version number of the packets this library builds.
pub const VERSION_NUMBER: u32 = 0;

/// Width of the version number, in bits.
pub const VERSION_BITS: u32 = 3;

/// Width of the data length field, in bits.
pub const DATA_LENGTH_BITS: u32 = 16;

/// Direction of a packet.
#[derive(Debug, Clone, Copy, PartialEq, Eq, Structural)]
pub enum PacketType {
    Telemetry,
    Telecommand,
}

impl PacketType {
    /// The packet type bit: 1 for a telecommand, 0 for telemetry.
    pub open spec fn code(self) -> bool {
        self is Telecommand
    }

    fn to_bool(&self) -> (r: bool)
        ensures
            r == self.code(),
    {
        match self {
            PacketType::Telecommand => true,
            PacketType::Telemetry => false,
        }
    }
}

/// Whether a secondary header follows the primary header.
#[derive(Debug, Clone, Copy, PartialEq, Eq, Structural)]
pub enum SecHeaderFlag {
    Present,
    NotPresent,
    /// An idle packet, which carries no secondary header.
    Idle,
}

impl SecHeaderFlag {
    /// The secondary header flag bit: 1 only when the header is present.
    pub open spec fn code(self) -> bool {
        self is Present
    }

    fn to_bool(&self) -> (r: bool)
        ensures
            r == self.code(),
    {
        match self {
            SecHeaderFlag::Present => true,
            SecHeaderFlag::NotPresent => false,
            SecHeaderFlag::Idle => false,
        }
    }
}

/// Packet type, secondary header flag and application process identifier:
/// 13 bits of the primary header.
#[derive(Debug)]
pub struct Identification {
    pub packet_type: PacketType,
    pub sec_header_flag: SecHeaderFlag,
    app_process_id: BitRegion,
}

/// Eleven one bits: the identifier of an idle packet.
pub open spec fn idle_apid() -> Seq<bool> {
    Seq::new(APID_BITS as nat, |i: int| true)
}

impl Identification {
    pub closed spec fn kind(&self) -> PacketType {
        self.packet_type
    }

    pub closed spec fn flag(&self) -> SecHeaderFlag {
        self.sec_header_flag
    }

    /// The application process identifier, first bit first.
    pub closed spec fn apid(&self) -> Seq<bool> {
        self.app_process_id@
    }

    pub open spec fn wf(&self) -> bool {
        self.apid().len() == APID_BITS
    }

    /// The 13 bits this field puts on the wire.
    pub open spec fn spec_bits(&self) -> Seq<bool> {
        seq![self.kind().code(), self.flag().code()] + self.apid()
    }

    /// An identification with the given identifier, which must be 11 bits long.
    pub fn new(t: PacketType, head: SecHeaderFlag, app: &BitRegion) -> (r: Result<Self, SPPError>)
        ensures
            app@.len() == APID_BITS <==> r is Ok,
            app@.len() != APID_BITS ==> r == Err::<Self, SPPError>(
                SPPError::APIDLenMismatch(app@.len() as usize),
            ),
            r matches Ok(id) ==> {
                &&& id.wf()
                &&& id.kind() == t
                &&& id.flag() == head
                &&& id.apid() == app@
            },
    {
        let n = app.len();
        if n != APID_BITS {
            return Err(SPPError::APIDLenMismatch(n));
        }
        Ok(Identification { packet_type: t, sec_header_flag: head, app_process_id: app.duplicate() })
    }

    /// The identification of an idle packet: flag `Idle`, identifier all ones.
    pub fn new_idle(t: PacketType) -> (r: Self)
        ensures
            r.wf(),
            r.kind() == t,
            r.flag() == SecHeaderFlag::Idle,
            r.apid() == idle_apid(),
    {
        proof {
            lemma_max_region_bits();
        }
        let mut a = BitRegion::new();
        let mut i: usize = 0;
        while i < APID_BITS
            invariant
                i <= APID_BITS,
                MAX_REGION_BITS >= 0x1fff_ffff,
                a@ == Seq::new(i as nat, |j: int| true),
            decreases APID_BITS - i,
        {
            a.push(true);
            i = i + 1;
            assert(a@ =~= Seq::new(i as nat, |j: int| true));
        }
        Identification { packet_type: t, sec_header_flag: SecHeaderFlag::Idle, app_process_id: a }
    }

    pub fn packet_type(&self) -> (r: PacketType)
        ensures
            r == self.kind(),
    {
        self.packet_type
    }

    pub fn sec_header_flag(&self) -> (r: SecHeaderFlag)
        ensures
            r == self.flag(),
    {
        self.sec_header_flag
    }

    /// A field with the same values.
    pub fn duplicate(&self) -> (r: Self)
        ensures
            r.kind() == self.kind(),
            r.flag() == self.flag(),
            r.apid() == self.apid(),
    {
        Identification {
            packet_type: self.packet_type,
            sec_header_flag: self.sec_header_flag,
            app_process_id: self.app_process_id.duplicate(),
        }
    }

    /// Appends the 13 bits of this field to `out`.
    pub fn to_bits(&self, out: &mut BitRegion)
        requires
            self.wf(),
            old(out)@.len() + 13 <= MAX_REGION_BITS,
        ensures
            final(out)@ == old(out)@ + self.spec_bits(),
            final(out)@.len() == old(out)@.len() + 13,
    {
        let ghost start = out@;
        out.push(self.packet_type.to_bool());
        out.push(self.sec_header_flag.to_bool());
        out.append(&self.app_process_id);
        assert(out@ =~= start + self.spec_bits());
    }
}

/// An identification puts exactly 13 bits on the wire: the packet type bit
/// (1 for a telecommand), then the secondary header flag bit (1 only when the
/// header is present), then the 11-bit application process identifier.
pub proof fn lemma_identification_encoding(id: Identification)
    requires
        id.wf(),
    ensures
        id.spec_bits().len() == 13,
        id.spec_bits()[0] == (id.kind() == PacketType::Telecommand),
        id.spec_bits()[1] == (id.flag() == SecHeaderFlag::Present),
        id.spec_bits().subrange(2, 13) == id.apid(),
{
    assert(id.spec_bits().subrange(2, 13) =~= id.apid());
}

/// Position of a packet in a group of segmented user data.
#[derive(Debug, Clone, Copy, PartialEq, Eq, Structural)]
pub enum SeqFlags {
    Continuation,
    First,
    Last,
    Unsegmented,
}

impl SeqFlags {
    /// The two sequence flag bits: 00, 01, 10 and 11 in declaration order.
    pub open spec fn code(self) -> Seq<bool> {
        match self {
            SeqFlags::Continuation => seq![false, false],
            SeqFlags::First => seq![false, true],
            SeqFlags::Last => seq![true, false],
            SeqFlags::Unsegmented => seq![true, true],
        }
    }

    fn to_bool(&self) -> (r: (bool, bool))
        ensures
            seq![r.0, r.1] == self.code(),
    {
        match self {
            SeqFlags::Continuation => (false, false),
            SeqFlags::First => (false, true),
            SeqFlags::Last => (true, false),
            SeqFlags::Unsegmented => (true, true),
        }
    }
}

/// Sequence flags and sequence count or packet name: 16 bits of the primary
/// header.
#[derive(Debug)]
pub struct SequenceControl {
    sequence_flags: SeqFlags,
    sequence_count_pkg_name: BitRegion,
}

impl SequenceControl {
    pub closed spec fn flags(&self) -> SeqFlags {
        self.sequence_flags
    }

    /// The sequence count or packet name, first bit first.
    pub closed spec fn count(&self) -> Seq<bool> {
        self.sequence_count_pkg_name@
    }

    pub open spec fn wf(&self) -> bool {
        self.count().len() == SEQUENCE_COUNT_BITS
    }

    /// The 16 bits this field puts on the wire.
    pub open spec fn spec_bits(&self) -> Seq<bool> {
        self.flags().code() + self.count()
    }

    /// A sequence control with the given count or name, which must be 14 bits
    /// long.
    pub fn new(flag: SeqFlags, count: BitRegion) -> (r: Result<Self, SPPError>)
        ensures
            count@.len() == SEQUENCE_COUNT_BITS <==> r is Ok,
            count@.len() != SEQUENCE_COUNT_BITS ==> r == Err::<Self, SPPError>(
                SPPError::SequenceControlLenMismatch,
            ),
            r matches Ok(sc) ==> {
                &&& sc.wf()
                &&& sc.flags() == flag
                &&& sc.count() == count@
            },
    {
        if count.len() != SEQUENCE_COUNT_BITS {
            return Err(SPPError::SequenceControlLenMismatch);
        }
        Ok(SequenceControl { sequence_flags: flag, sequence_count_pkg_name: count })
    }

    /// A field with the same values.
    pub fn duplicate(&self) -> (r: Self)
        ensures
            r.flags() == self.flags(),
            r.count() == self.count(),
    {
        SequenceControl {
            sequence_flags: self.sequence_flags,
            sequence_count_pkg_name: self.sequence_count_pkg_name.duplicate(),
        }
    }

    /// Appends the 16 bits of this field to `out`.
    fn to_bits(&self, out: &mut BitRegion)
        requires
            self.wf(),
            old(out)@.len() + 16 <= MAX_REGION_BITS,
        ensures
            final(out)@ == old(out)@ + self.spec_bits(),
            final(out)@.len() == old(out)@.len() + 16,
    {
        let ghost start = out@;
        let (a, b) = self.sequence_flags.to_bool();
        out.push(a);
        out.push(b);
        out.append(&self.sequence_count_pkg_name);
        assert(out@ =~= start + self.spec_bits());
    }
}

/// The fixed 48-bit header that opens every packet.
#[derive(Debug)]
pub struct PrimaryHeader {
    id: Identification,
    sequence_control: SequenceControl,
    /// Octets in the data field, minus one.
    pub data_length: u16,
}

impl PrimaryHeader {
    pub closed spec fn id(&self) -> Identification {
        self.id
    }

    pub closed spec fn seq(&self) -> SequenceControl {
        self.sequence_control
    }

    /// The data length field: octets in the data field, minus one.
    pub closed spec fn length_field(&self) -> u16 {
        self.data_length
    }

    pub open spec fn wf(&self) -> bool {
        self.id().wf() && self.seq().wf()
    }

    /// The 48 bits this header puts on the wire.
    pub open spec fn spec_bits(&self) -> Seq<bool> {
        uint_bits(VERSION_NUMBER as nat, VERSION_BITS as nat) + self.id().spec_bits()
            + self.seq().spec_bits() + uint_bits(self.length_field() as nat, DATA_LENGTH_BITS as nat)
    }

    /// A header holding copies of `id` and `seq`, with a data length of zero.
    pub fn new(id: &Identification, seq: &SequenceControl) -> (r: Self)
        requires
            id.wf(),
            seq.wf(),
        ensures
            r.wf(),
            r.id().kind() == id.kind(),
            r.id().flag() == id.flag(),
            r.id().apid() == id.apid(),
            r.seq().flags() == seq.flags(),
            r.seq().count() == seq.count(),
            r.length_field() == 0,
    {
        PrimaryHeader { id: id.duplicate(), sequence_control: seq.duplicate(), data_length: 0 }
    }

    /// Records a data field of `size` octets: the field holds `size - 1`, so
    /// that 16 bits cover 1 to 65536 octets.
    pub fn data_lenght(&mut self, size: usize)
        requires
            1 <= size <= 65536,
        ensures
            final(self).length_field() == size - 1,
            final(self).id() == old(self).id(),
            final(self).seq() == old(self).seq(),
    {
        self.data_length = (size - 1) as u16;
    }

    /// Appends the 48 bits of this header to `out`.
    pub fn to_bits(&self, out: &mut BitRegion)
        requires
            self.wf(),
            old(out)@.len() + 48 <= MAX_REGION_BITS,
        ensures
            final(out)@ == old(out)@ + self.spec_bits(),
            final(out)@.len() == old(out)@.len() + 48,
    {
        let ghost start = out@;
        proof {
            lemma_uint_bits_len(VERSION_NUMBER as nat, VERSION_BITS as nat);
            lemma_uint_bits_len(self.data_length as nat, DATA_LENGTH_BITS as nat);
        }
        out.push_uint(VERSION_NUMBER, VERSION_BITS);
        self.id.to_bits(out);
        self.sequence_control.to_bits(out);
        out.push_uint(self.data_length as u32, DATA_LENGTH_BITS);
        assert(out@ =~= start + self.spec_bits());
    }
}

/// Where each field of a header lies among its 48 bits: version at 0..3,
/// identification at 3..16, sequence control at 16..32, data length at 32..48.
pub proof fn lemma_header_layout(h: PrimaryHeader)
    requires
        h.wf(),
    ensures
        h.spec_bits().len() == 48,
        h.spec_bits().subrange(0, 3) == uint_bits(VERSION_NUMBER as nat, VERSION_BITS as nat),
        h.spec_bits().subrange(3, 16) == h.id().spec_bits(),
        h.spec_bits().subrange(16, 32) == h.seq().spec_bits(),
        h.spec_bits().subrange(32, 48) == uint_bits(h.length_field() as nat, DATA_LENGTH_BITS as nat),
{
    lemma_uint_bits_len(VERSION_NUMBER as nat, VERSION_BITS as nat);
    lemma_uint_bits_len(h.length_field() as nat, DATA_LENGTH_BITS as nat);
    let b = h.spec_bits();
    assert(b.subrange(0, 3) =~= uint_bits(VERSION_NUMBER as nat, VERSION_BITS as nat));
    assert(b.subrange(3, 16) =~= h.id().spec_bits());
    assert(b.subrange(16, 32) =~= h.seq().spec_bits());
    assert(b.subrange(32, 48) =~= uint_bits(h.length_field() as nat, DATA_LENGTH_BITS as nat));
}

} // verus!
