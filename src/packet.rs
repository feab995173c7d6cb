//! Assembling and serializing a space packet.
//!
//! A [`Builder`] collects field values; [`Builder::build`] validates them,
//! derives the data length field and yields an immutable [`SpacePacket`].
use crate::bits::{
    bits_value, lemma_bits_value_uint_bits, lemma_max_region_bits, lemma_uint_bits_len, uint_bits,
    BitRegion, MAX_REGION_BITS,
};
use crate::data::{
    default_user_bits, opt_header_bits, opt_user_bits, DataField, SecondaryHeader, UserData,
};
use crate::errors::SPPError;
use crate::pri_header::{
    idle_apid, lemma_header_layout, Identification, PrimaryHeader, SecHeaderFlag, SequenceControl, DATA_LENGTH_BITS,
    VERSION_BITS, VERSION_NUMBER,
};
use crate::{MAX_DATA_SIZE, OCTET, PRIMARY_HEADER_SIZE};
use vstd::arithmetic::power2::pow2;
use vstd::prelude::*;

verus! {

/// Collects the fields of one packet. Each setter replaces what its slot held;
/// none of them validates. [`Builder::build`] validates and consumes it.
#[derive(Debug)]
pub struct Builder {
    id: Option<Identification>,
    seq: Option<SequenceControl>,
    sec_head: Option<SecondaryHeader>,
    user_data: Option<UserData>,
    idle: bool,
}

/// The data length field for a data field of `n` bits: whole octets, minus one.
pub open spec fn length_field_of(n: nat) -> nat {
    (n / OCTET as nat - 1) as nat
}

impl Builder {
    pub closed spec fn id_part(&self) -> Option<Identification> {
        self.id
    }

    pub closed spec fn seq_part(&self) -> Option<SequenceControl> {
        self.seq
    }

    pub closed spec fn sec_head_part(&self) -> Option<SecondaryHeader> {
        self.sec_head
    }

    pub closed spec fn user_data_part(&self) -> Option<UserData> {
        self.user_data
    }

    pub closed spec fn idle_set(&self) -> bool {
        self.idle
    }

    pub open spec fn wf(&self) -> bool {
        &&& (self.id_part() matches Some(id) ==> id.wf())
        &&& (self.seq_part() matches Some(sc) ==> sc.wf())
    }

    /// The secondary header flag the packet carries: `Idle` for an idle packet.
    pub open spec fn effective_flag(&self) -> SecHeaderFlag {
        if self.idle_set() {
            SecHeaderFlag::Idle
        } else {
            self.id_part()->0.flag()
        }
    }

    /// The 13 identification bits the packet carries. An idle packet keeps the
    /// packet type and has flag bit 0 and an identifier of all ones.
    pub open spec fn effective_id_bits(&self) -> Seq<bool> {
        if self.idle_set() {
            seq![self.id_part()->0.kind().code(), false] + idle_apid()
        } else {
            self.id_part()->0.spec_bits()
        }
    }

    /// The data field the packet carries: the secondary header if one was
    /// given, then the user data, or one zero octet if none was given.
    pub open spec fn data_bits(&self) -> Seq<bool> {
        opt_header_bits(self.sec_head_part()) + if self.user_data_part() is Some {
            opt_user_bits(self.user_data_part())
        } else {
            default_user_bits()
        }
    }

    /// Why `build` fails, checked in this order; `None` when it succeeds.
    pub open spec fn build_error(&self) -> Option<SPPError> {
        if self.id_part() is None || self.seq_part() is None {
            Some(SPPError::MandatoryFieldNotPresent)
        } else if self.effective_flag() == SecHeaderFlag::Present && (self.sec_head_part() is None
            || self.sec_head_part()->0.spec_len() == 0) {
            Some(SPPError::SecondaryHeaderNotPresent)
        } else if self.data_bits().len() > MAX_DATA_SIZE * OCTET {
            Some(SPPError::MaxDataSizeExedded)
        } else if self.user_data_part() is None || self.data_bits().len() < OCTET {
            Some(SPPError::MinDataLen)
        } else {
            None
        }
    }

    /// The bits of the packet that `build` yields.
    pub open spec fn packet_bits(&self) -> Seq<bool> {
        uint_bits(VERSION_NUMBER as nat, VERSION_BITS as nat) + self.effective_id_bits()
            + self.seq_part()->0.spec_bits() + uint_bits(
            length_field_of(self.data_bits().len()),
            DATA_LENGTH_BITS as nat,
        ) + self.data_bits()
    }

    /// `p` is the packet that `build` yields from this builder.
    pub open spec fn builds(&self, p: SpacePacket) -> bool {
        &&& p.wf()
        &&& p.spec_bits() == self.packet_bits()
        &&& p.header().id().kind() == self.id_part()->0.kind()
        &&& p.header().id().flag() == self.effective_flag()
        &&& p.header().id().spec_bits() == self.effective_id_bits()
        &&& p.header().seq().flags() == self.seq_part()->0.flags()
        &&& p.header().seq().count() == self.seq_part()->0.count()
        &&& p.header().length_field() == length_field_of(self.data_bits().len())
        &&& p.data().sec_header_part() == self.sec_head_part()
        &&& p.data().user_data_part() == self.user_data_part()
    }

    /// An empty builder.
    fn new() -> (r: Self)
        ensures
            r.wf(),
            r.id_part() is None,
            r.seq_part() is None,
            r.sec_head_part() is None,
            r.user_data_part() is None,
            !r.idle_set(),
    {
        Builder { id: None, seq: None, sec_head: None, user_data: None, idle: false }
    }

    /// Whether to build an idle packet.
    pub fn idle(&mut self, set: bool)
        ensures
            final(self).idle_set() == set,
            final(self).id_part() == old(self).id_part(),
            final(self).seq_part() == old(self).seq_part(),
            final(self).sec_head_part() == old(self).sec_head_part(),
            final(self).user_data_part() == old(self).user_data_part(),
    {
        self.idle = set
    }

    pub fn identification(&mut self, id: Option<Identification>)
        requires
            id matches Some(i) ==> i.wf(),
        ensures
            final(self).id_part() == id,
            final(self).seq_part() == old(self).seq_part(),
            final(self).sec_head_part() == old(self).sec_head_part(),
            final(self).user_data_part() == old(self).user_data_part(),
            final(self).idle_set() == old(self).idle_set(),
    {
        self.id = id
    }

    pub fn sequence_control(&mut self, sequence_control: Option<SequenceControl>)
        requires
            sequence_control matches Some(sc) ==> sc.wf(),
        ensures
            final(self).seq_part() == sequence_control,
            final(self).id_part() == old(self).id_part(),
            final(self).sec_head_part() == old(self).sec_head_part(),
            final(self).user_data_part() == old(self).user_data_part(),
            final(self).idle_set() == old(self).idle_set(),
    {
        self.seq = sequence_control
    }

    pub fn secondary_header(&mut self, sec_head: Option<SecondaryHeader>)
        ensures
            final(self).sec_head_part() == sec_head,
            final(self).id_part() == old(self).id_part(),
            final(self).seq_part() == old(self).seq_part(),
            final(self).user_data_part() == old(self).user_data_part(),
            final(self).idle_set() == old(self).idle_set(),
    {
        self.sec_head = sec_head
    }

    pub fn user_data(&mut self, user_data: Option<UserData>)
        ensures
            final(self).user_data_part() == user_data,
            final(self).id_part() == old(self).id_part(),
            final(self).seq_part() == old(self).seq_part(),
            final(self).sec_head_part() == old(self).sec_head_part(),
            final(self).idle_set() == old(self).idle_set(),
    {
        self.user_data = user_data
    }

    /// Validates the collected fields and assembles the packet.
    pub fn build(self) -> (r: Result<SpacePacket, SPPError>)
        requires
            self.wf(),
        ensures
            match r {
                Ok(p) => self.build_error() is None && self.builds(p),
                Err(e) => self.build_error() == Some(e),
            },
    {
        let Builder { id, seq, sec_head, user_data, idle } = self;
        let id = match id {
            Some(i) => i,
            None => return Err(SPPError::MandatoryFieldNotPresent),
        };
        let seq = match seq {
            Some(s) => s,
            None => return Err(SPPError::MandatoryFieldNotPresent),
        };
        let id = if idle {
            Identification::new_idle(id.packet_type())
        } else {
            id
        };
        proof {
            assert(id.spec_bits() =~= self.effective_id_bits());
        }
        let mut pri_head = PrimaryHeader::new(&id, &seq);
        let mut data = DataField::new();

        if let SecHeaderFlag::Present = id.sec_header_flag() {
            match &sec_head {
                None => return Err(SPPError::SecondaryHeaderNotPresent),
                Some(h) => {
                    if h.len() < 1 {
                        return Err(SPPError::SecondaryHeaderNotPresent);
                    }
                },
            }
        }
        let has_user_data = user_data.is_some();
        data.sec_header(sec_head);
        if has_user_data {
            data.user_data(user_data);
        }
        assert(data.spec_bits() =~= self.data_bits());

        let data_len = data.len();
        if data_len > MAX_DATA_SIZE * OCTET {
            return Err(SPPError::MaxDataSizeExedded);
        }
        if !has_user_data || data_len < OCTET {
            return Err(SPPError::MinDataLen);
        }
        let final_length: usize = data_len / OCTET;
        pri_head.data_lenght(final_length);
        let sp = SpacePacket::new(pri_head, data);
        proof {
            assert(sp.spec_bits() =~= self.packet_bits());
        }
        Ok(sp)
    }
}

/// A validated packet: primary header, then data field. It cannot be changed
/// once built.
#[derive(Debug)]
pub struct SpacePacket {
    primary_header: PrimaryHeader,
    data_field: DataField,
}

impl SpacePacket {
    pub closed spec fn header(&self) -> PrimaryHeader {
        self.primary_header
    }

    pub closed spec fn data(&self) -> DataField {
        self.data_field
    }

    /// A data field of 1 to 65536 octets with user data, and a header whose
    /// data length field matches it.
    pub open spec fn wf(&self) -> bool {
        &&& self.header().wf()
        &&& self.data().user_data_part() is Some
        &&& OCTET <= self.data().spec_len() <= MAX_DATA_SIZE * OCTET
        &&& self.header().length_field() == length_field_of(self.data().spec_len())
    }

    /// Length in bits: the primary header, then the data field.
    pub open spec fn spec_len(&self) -> nat {
        PRIMARY_HEADER_SIZE as nat + self.data().spec_len()
    }

    /// The bits of the packet: primary header, then data field.
    pub open spec fn spec_bits(&self) -> Seq<bool> {
        self.header().spec_bits() + self.data().spec_bits()
    }

    fn new(ph: PrimaryHeader, df: DataField) -> (r: Self)
        ensures
            r.header() == ph,
            r.data() == df,
    {
        SpacePacket { primary_header: ph, data_field: df }
    }

    /// A new, empty builder.
    pub fn builder() -> (r: Builder)
        ensures
            r.wf(),
            r.id_part() is None,
            r.seq_part() is None,
            r.sec_head_part() is None,
            r.user_data_part() is None,
            !r.idle_set(),
    {
        Builder::new()
    }

    /// The whole packet, bit for bit, with no padding after the last bit.
    pub fn to_bits(&self) -> (r: BitRegion)
        requires
            self.wf(),
        ensures
            r@ == self.spec_bits(),
            r@.len() == self.spec_len(),
    {
        proof {
            lemma_max_region_bits();
        }
        let mut out = BitRegion::new();
        self.primary_header.to_bits(&mut out);
        self.data_field.write_bits(&mut out);
        assert(out@ =~= self.spec_bits());
        out
    }

    /// Length in bits: data field length plus the 48 header bits.
    pub fn len(&self) -> (r: usize)
        requires
            self.wf(),
        ensures
            r == self.spec_len(),
    {
        self.data_field.len() + PRIMARY_HEADER_SIZE
    }
}

/// Serializing depends on the packet alone: any two serializations of one
/// packet hold the same bits.
pub proof fn lemma_serialization_idempotent(p: SpacePacket, first: BitRegion, second: BitRegion)
    requires
        p.wf(),
        first@ == p.spec_bits(),
        second@ == p.spec_bits(),
    ensures
        first@ == second@,
{
}

/// A packet is its 48 header bits followed by its data field, and the data
/// length field read back from the serialized header is the number of whole
/// octets in the data field, minus one.
pub proof fn lemma_packet_length(p: SpacePacket)
    requires
        p.wf(),
    ensures
        p.spec_len() == PRIMARY_HEADER_SIZE + p.data().spec_len(),
        p.spec_bits().len() == p.spec_len(),
        p.spec_bits().subrange(48, p.spec_len() as int) == p.data().spec_bits(),
        bits_value(p.spec_bits().subrange(32, 48)) == p.data().spec_len() / OCTET as nat - 1,
{
    let h = p.header();
    lemma_header_layout(h);
    let bits = p.spec_bits();
    assert(bits.subrange(32, 48) =~= h.spec_bits().subrange(32, 48));
    assert(bits.subrange(48, p.spec_len() as int) =~= p.data().spec_bits());
    assert(pow2(16) == 65536) by {
        vstd::arithmetic::power2::lemma2_to64();
    }
    lemma_bits_value_uint_bits(h.length_field() as nat, DATA_LENGTH_BITS as nat);
}

/// Building with the idle flag set yields a packet whose secondary header flag
/// bit is 0 and whose identifier is eleven 1 bits, whatever identification
/// was given.
pub proof fn lemma_idle_override(b: Builder, p: SpacePacket)
    requires
        b.wf(),
        b.idle_set(),
        b.builds(p),
    ensures
        p.spec_bits()[4] == false,
        p.spec_bits().subrange(5, 16) == idle_apid(),
{
    let h = p.header();
    lemma_header_layout(h);
    let bits = p.spec_bits();
    assert(bits.subrange(3, 16) == h.id().spec_bits()) by {
        assert(bits.subrange(3, 16) =~= h.spec_bits().subrange(3, 16));
    }
    assert(bits[4] == bits.subrange(3, 16)[1]);
    assert(bits.subrange(5, 16) =~= bits.subrange(3, 16).subrange(2, 13));
    assert(b.effective_id_bits().subrange(2, 13) =~= idle_apid());
}

/// In a packet with a secondary header, the header's bits start at bit 48 and
/// the user data follows right after them, with no gap and no overlap.
pub proof fn lemma_field_order(p: SpacePacket)
    requires
        p.wf(),
        p.data().sec_header_part() is Some,
    ensures
        p.spec_bits().subrange(48, 48 + p.data().sec_header_bits().len() as int)
            == p.data().sec_header_part()->0.spec_bits(),
        p.spec_bits().subrange(
            48 + p.data().sec_header_bits().len() as int,
            48 + p.data().sec_header_bits().len() + p.data().user_bits().len() as int,
        ) == p.data().user_data_part()->0.data@,
        p.spec_bits().len() == 48 + p.data().sec_header_bits().len() + p.data().user_bits().len(),
{
    let h = p.header();
    lemma_header_layout(h);
    let d = p.data();
    let n = d.sec_header_bits().len() as int;
    let bits = p.spec_bits();
    assert(bits.subrange(48, 48 + n) =~= d.sec_header_bits());
    assert(bits.subrange(48 + n, 48 + n + d.user_bits().len() as int) =~= d.user_bits());
}

} // verus!
