//! The data field: an optional secondary header followed by user data.
use crate::bits::{lemma_max_region_bits, BitRegion, MAX_REGION_BITS};
use vstd::prelude::*;

verus! {

/// The payload of a packet.
#[derive(Debug)]
pub struct UserData {
    pub data: BitRegion,
}

impl UserData {
    pub fn new(data: BitRegion) -> (r: Self)
        ensures
            r.data@ == data@,
    {
        UserData { data }
    }

    fn len(&self) -> (r: usize)
        ensures
            r == self.data@.len(),
            r <= MAX_REGION_BITS,
    {
        self.data.len()
    }
}

/// The bits of an optional region; none when it is absent.
pub open spec fn opt_bits(o: Option<BitRegion>) -> Seq<bool> {
    match o {
        Some(b) => b@,
        None => Seq::empty(),
    }
}

/// Length of an optional region; zero when it is absent.
fn opt_len(o: &Option<BitRegion>) -> (r: usize)
    ensures
        r == opt_bits(*o).len(),
        r <= MAX_REGION_BITS,
{
    match o {
        Some(b) => b.len(),
        None => 0,
    }
}

/// Time code and ancillary data, each optional. Their inner layout is left to
/// the mission: this library carries them as opaque bits.
#[derive(Debug)]
pub struct SecondaryHeader {
    time_code: Option<BitRegion>,
    ancillary: Option<BitRegion>,
}

impl SecondaryHeader {
    /// The time code, first bit first; empty when absent.
    pub closed spec fn time_code_bits(&self) -> Seq<bool> {
        opt_bits(self.time_code)
    }

    /// The ancillary data, first bit first; empty when absent.
    pub closed spec fn ancillary_bits(&self) -> Seq<bool> {
        opt_bits(self.ancillary)
    }

    /// The bits this header puts on the wire: time code, then ancillary data.
    pub open spec fn spec_bits(&self) -> Seq<bool> {
        self.time_code_bits() + self.ancillary_bits()
    }

    pub open spec fn spec_len(&self) -> nat {
        self.spec_bits().len()
    }

    pub fn new(time_code: Option<BitRegion>, ancillary: Option<BitRegion>) -> (r: Self)
        ensures
            r.time_code_bits() == opt_bits(time_code),
            r.ancillary_bits() == opt_bits(ancillary),
    {
        SecondaryHeader { time_code, ancillary }
    }

    /// Sum of the lengths of the parts present.
    pub fn len(&self) -> (r: usize)
        ensures
            r == self.spec_len(),
            r <= 2 * MAX_REGION_BITS,
    {
        proof {
            lemma_max_region_bits();
        }
        opt_len(&self.time_code) + opt_len(&self.ancillary)
    }

    /// Appends the bits of this header to `out`.
    fn write_bits(&self, out: &mut BitRegion)
        requires
            old(out)@.len() + self.spec_len() <= MAX_REGION_BITS,
        ensures
            final(out)@ == old(out)@ + self.spec_bits(),
    {
        let ghost start = out@;
        if let Some(tc) = &self.time_code {
            out.append(tc);
        }
        if let Some(anc) = &self.ancillary {
            out.append(anc);
        }
        assert(out@ =~= start + self.spec_bits());
    }

    /// The bits of this header: time code, then ancillary data.
    pub fn to_bits(&self) -> (r: BitRegion)
        requires
            self.spec_len() <= MAX_REGION_BITS,
        ensures
            r@ == self.spec_bits(),
    {
        let mut r = BitRegion::new();
        self.write_bits(&mut r);
        assert(r@ =~= self.spec_bits());
        r
    }
}

/// The bits of an optional secondary header; none when it is absent.
pub open spec fn opt_header_bits(h: Option<SecondaryHeader>) -> Seq<bool> {
    match h {
        Some(h) => h.spec_bits(),
        None => Seq::empty(),
    }
}

/// The bits of optional user data; none when it is absent.
pub open spec fn opt_user_bits(u: Option<UserData>) -> Seq<bool> {
    match u {
        Some(u) => u.data@,
        None => Seq::empty(),
    }
}

/// One octet of zero bits: the user data of a data field that was given none.
pub open spec fn default_user_bits() -> Seq<bool> {
    Seq::new(8, |i: int| false)
}

/// The secondary header, if any, followed by the user data.
#[derive(Debug)]
pub struct DataField {
    sec_header: Option<SecondaryHeader>,
    user_data: Option<UserData>,
}

impl DataField {
    pub closed spec fn sec_header_part(&self) -> Option<SecondaryHeader> {
        self.sec_header
    }

    pub closed spec fn user_data_part(&self) -> Option<UserData> {
        self.user_data
    }

    /// The bits of the secondary header; empty when there is none.
    pub open spec fn sec_header_bits(&self) -> Seq<bool> {
        opt_header_bits(self.sec_header_part())
    }

    /// The bits of the user data; empty when there is none.
    pub open spec fn user_bits(&self) -> Seq<bool> {
        opt_user_bits(self.user_data_part())
    }

    /// The bits this field puts on the wire: secondary header, then user data.
    pub open spec fn spec_bits(&self) -> Seq<bool> {
        self.sec_header_bits() + self.user_bits()
    }

    pub open spec fn spec_len(&self) -> nat {
        self.spec_bits().len()
    }

    /// A data field with no secondary header and one zero octet of user data.
    pub fn new() -> (r: Self)
        ensures
            r.sec_header_part() is None,
            r.user_data_part() is Some,
            r.user_bits() == default_user_bits(),
    {
        proof {
            lemma_max_region_bits();
        }
        let mut octet = BitRegion::new();
        octet.push_uint(0, 8);
        proof {
            assert(crate::bits::uint_bits(0, 8) =~= default_user_bits()) by {
                reveal_with_fuel(crate::bits::uint_bits, 9);
            }
            assert(octet@ =~= default_user_bits());
        }
        DataField { sec_header: None, user_data: Some(UserData::new(octet)) }
    }

    /// Secondary header length (zero if absent) plus user data length.
    pub fn len(&self) -> (r: usize)
        ensures
            r == self.spec_len(),
    {
        proof {
            lemma_max_region_bits();
        }
        let ud_size = match &self.user_data {
            Some(u) => u.len(),
            None => 0,
        };
        let sh_size = match &self.sec_header {
            Some(h) => h.len(),
            None => 0,
        };
        sh_size + ud_size
    }

    /// Replaces the user data.
    pub fn user_data(&mut self, data: Option<UserData>)
        ensures
            final(self).user_data_part() == data,
            final(self).sec_header_part() == old(self).sec_header_part(),
    {
        self.user_data = data;
    }

    /// Replaces the secondary header.
    pub fn sec_header(&mut self, data: Option<SecondaryHeader>)
        ensures
            final(self).sec_header_part() == data,
            final(self).user_data_part() == old(self).user_data_part(),
    {
        self.sec_header = data;
    }

    /// Appends the bits of this field to `out`.
    pub(crate) fn write_bits(&self, out: &mut BitRegion)
        requires
            old(out)@.len() + self.spec_len() <= MAX_REGION_BITS,
        ensures
            final(out)@ == old(out)@ + self.spec_bits(),
    {
        let ghost start = out@;
        if let Some(h) = &self.sec_header {
            h.write_bits(out);
        }
        if let Some(u) = &self.user_data {
            out.append(&u.data);
        }
        assert(out@ =~= start + self.spec_bits());
    }

    /// The bits of this field: secondary header, then user data.
    pub fn to_bits(&self) -> (r: BitRegion)
        requires
            self.spec_len() <= MAX_REGION_BITS,
        ensures
            r@ == self.spec_bits(),
    {
        let mut r = BitRegion::new();
        self.write_bits(&mut r);
        assert(r@ =~= self.spec_bits());
        r
    }
}

} // verus!
