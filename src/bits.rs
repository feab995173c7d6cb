//! Bit regions and the primitives that fill them.
//!
//! A [`BitRegion`] is a run of bits in transmission order: index 0 is the
//! first bit on the wire. Its storage is a `bitvec` bit vector; contracts speak
//! of a region through its view, the sequence of bits that it holds.
use bitvec::order::Msb0;
use bitvec::vec::BitVec;
use vstd::arithmetic::power2::{lemma_pow2_unfold, pow2};
use vstd::prelude::*;

verus! {

/// Most bits that one region can hold.
pub const MAX_REGION_BITS: usize = usize::MAX >> 3;

/// An owned run of bits, first transmitted bit first.
#[verifier::external_body]
#[derive(Debug)]
pub struct BitRegion {
    bits: BitVec<u8, Msb0>,
}

/// The bits that a region holds, in order.
pub uninterp spec fn bits_of(v: BitRegion) -> Seq<bool>;

impl View for BitRegion {
    type V = Seq<bool>;

    open spec fn view(&self) -> Seq<bool> {
        bits_of(*self)
    }
}

/// The `width` low bits of `v`, most significant first.
pub open spec fn uint_bits(v: nat, width: nat) -> Seq<bool>
    decreases width,
{
    if width == 0 {
        Seq::empty()
    } else {
        uint_bits(v / 2, (width - 1) as nat).push(v % 2 == 1)
    }
}

/// The number that a bit sequence spells, most significant bit first.
pub open spec fn bits_value(s: Seq<bool>) -> nat
    decreases s.len(),
{
    if s.len() == 0 {
        0
    } else {
        2 * bits_value(s.drop_last()) + if s.last() {
            1nat
        } else {
            0nat
        }
    }
}

/// The bits of a byte string, each byte most significant bit first.
pub open spec fn bytes_bits(s: Seq<u8>) -> Seq<bool>
    decreases s.len(),
{
    if s.len() == 0 {
        Seq::empty()
    } else {
        bytes_bits(s.drop_last()) + uint_bits(s.last() as nat, 8)
    }
}

pub proof fn lemma_uint_bits_len(v: nat, width: nat)
    ensures
        uint_bits(v, width).len() == width,
    decreases width,
{
    if width > 0 {
        lemma_uint_bits_len(v / 2, (width - 1) as nat);
    }
}

/// Reading back the bits of a number that fits in `width` bits gives the number.
pub proof fn lemma_bits_value_uint_bits(v: nat, width: nat)
    requires
        v < pow2(width),
    ensures
        bits_value(uint_bits(v, width)) == v,
    decreases width,
{
    if width == 0 {
        assert(pow2(0) == 1) by {
            vstd::arithmetic::power2::lemma2_to64();
        }
    } else {
        let w1 = (width - 1) as nat;
        let rest = uint_bits(v / 2, w1);
        lemma_pow2_unfold(width);
        assert(v / 2 < pow2(w1));
        lemma_bits_value_uint_bits(v / 2, w1);
        assert(rest.push(v % 2 == 1).drop_last() =~= rest);
    }
}

/// A region can hold at least 2^29 - 1 bits, on 32-bit targets as on 64-bit.
pub proof fn lemma_max_region_bits()
    ensures
        MAX_REGION_BITS >= 0x1fff_ffff,
        4 * MAX_REGION_BITS <= usize::MAX,
{
    let m: usize = usize::MAX;
    assert(m >= 0xffff_ffff);
    assert(m >= 0xffff_ffff ==> m >> 3usize >= 0x1fff_ffffusize) by (bit_vector);
    assert(m >> 3usize <= m / 4) by (bit_vector);
}

/// Relies on `BitVec::new`: a new bit vector holds no bits.
#[verifier::external_body]
fn empty_region() -> (r: BitRegion)
    ensures
        bits_of(r) == Seq::<bool>::empty(),
{
    BitRegion { bits: BitVec::new() }
}

/// Relies on `BitVec::len`: the number of bits held. The length is kept in a
/// `usize` shifted right by three, so it never exceeds `usize::MAX >> 3`.
#[verifier::external_body]
fn region_len(v: &BitRegion) -> (r: usize)
    ensures
        r == bits_of(*v).len(),
        r <= MAX_REGION_BITS,
{
    v.bits.len()
}

/// Relies on `BitVec::push`: appends one bit at the end. It panics when the
/// new length would exceed `usize::MAX >> 3`.
#[verifier::external_body]
fn region_push(v: &mut BitRegion, b: bool)
    requires
        bits_of(*old(v)).len() < MAX_REGION_BITS,
    ensures
        bits_of(*final(v)) == bits_of(*old(v)).push(b),
{
    v.bits.push(b)
}

/// Relies on `BitVec::extend_from_bitslice`: appends the bits of `tail`, in
/// order. It panics when the new length would exceed `usize::MAX >> 3`.
#[verifier::external_body]
fn region_append(v: &mut BitRegion, tail: &BitRegion)
    requires
        bits_of(*old(v)).len() + bits_of(*tail).len() <= MAX_REGION_BITS,
    ensures
        bits_of(*final(v)) == bits_of(*old(v)) + bits_of(*tail),
{
    v.bits.extend_from_bitslice(tail.bits.as_bitslice())
}

/// Relies on indexing a `BitSlice`: the bit at position `i`. It panics when
/// `i` is out of bounds.
#[verifier::external_body]
fn region_bit(v: &BitRegion, i: usize) -> (r: bool)
    requires
        i < bits_of(*v).len(),
    ensures
        r == bits_of(*v)[i as int],
{
    v.bits[i]
}

impl BitRegion {
    /// An empty region.
    pub fn new() -> (r: BitRegion)
        ensures
            r@ == Seq::<bool>::empty(),
    {
        empty_region()
    }

    /// Number of bits held.
    pub fn len(&self) -> (r: usize)
        ensures
            r == self@.len(),
            r <= MAX_REGION_BITS,
    {
        region_len(self)
    }

    /// Appends one bit.
    pub fn push(&mut self, b: bool)
        requires
            old(self)@.len() < MAX_REGION_BITS,
        ensures
            final(self)@ == old(self)@.push(b),
    {
        region_push(self, b)
    }

    /// Appends the bits of `tail`, in order.
    pub fn append(&mut self, tail: &BitRegion)
        requires
            old(self)@.len() + tail@.len() <= MAX_REGION_BITS,
        ensures
            final(self)@ == old(self)@ + tail@,
    {
        region_append(self, tail)
    }

    /// The bit at position `i`.
    pub fn get(&self, i: usize) -> (r: bool)
        requires
            i < self@.len(),
        ensures
            r == self@[i as int],
    {
        region_bit(self, i)
    }
    /// Appends the `width` low bits of `v`, most significant first.
    pub fn push_uint(&mut self, v: u32, width: u32)
        requires
            width <= 16,
            old(self)@.len() + width <= MAX_REGION_BITS,
        ensures
            final(self)@ == old(self)@ + uint_bits(v as nat, width as nat),
    {
        let ghost start = self@;
        let mut i: u32 = 0;
        while i < width
            invariant
                i <= width <= 16,
                start.len() + width <= MAX_REGION_BITS,
                self@ == start + uint_bits((v >> (width - i) as u32) as nat, i as nat),
            decreases width - i,
        {
            let shift: u32 = width - 1 - i;
            let bit = (v >> shift) & 1 == 1;
            proof {
                let x = v >> shift;
                assert(x / 2 == v >> (shift + 1) as u32 && (x & 1 == 1) == (x % 2 == 1)) by (bit_vector)
                    requires
                        x == v >> shift,
                        shift < 16,
                ;
                lemma_uint_bits_len((v >> (width - i) as u32) as nat, i as nat);
            }
            self.push(bit);
            proof {
                let x = v >> shift;
                assert(width - (i + 1) == shift);
                assert(uint_bits(x as nat, (i + 1) as nat) == uint_bits((x / 2) as nat, i as nat).push(
                    x % 2 == 1,
                ));
                assert(self@ =~= start + uint_bits(x as nat, (i + 1) as nat));
            }
            i = i + 1;
        }
        assert(v >> 0u32 == v) by (bit_vector);
    }

    /// A region holding the same bits as `self`.
    pub fn duplicate(&self) -> (r: BitRegion)
        ensures
            r@ == self@,
    {
        // The length read here bounds what `append` may add.
        let _: usize = self.len();
        let mut r = BitRegion::new();
        r.append(self);
        assert(r@ =~= self@);
        r
    }

    /// The region holding `b`, in order.
    pub fn from_bools(b: &Vec<bool>) -> (r: BitRegion)
        requires
            b@.len() <= MAX_REGION_BITS,
        ensures
            r@ == b@,
    {
        let mut r = BitRegion::new();
        let mut i: usize = 0;
        while i < b.len()
            invariant
                i <= b@.len() <= MAX_REGION_BITS,
                r@ == b@.subrange(0, i as int),
            decreases b@.len() - i,
        {
            r.push(b[i]);
            i = i + 1;
            assert(r@ =~= b@.subrange(0, i as int));
        }
        assert(b@.subrange(0, b@.len() as int) =~= b@);
        r
    }

    /// The bits of `bytes`, each byte most significant bit first.
    pub fn from_bytes(bytes: &Vec<u8>) -> (r: BitRegion)
        requires
            bytes@.len() <= MAX_REGION_BITS / 8,
        ensures
            r@ == bytes_bits(bytes@),
            r@.len() == 8 * bytes@.len(),
    {
        let mut r = BitRegion::new();
        let mut i: usize = 0;
        while i < bytes.len()
            invariant
                i <= bytes@.len() <= MAX_REGION_BITS / 8,
                r@ == bytes_bits(bytes@.subrange(0, i as int)),
                r@.len() == 8 * i,
            decreases bytes@.len() - i,
        {
            let ghost before = bytes@.subrange(0, i as int);
            r.push_uint(bytes[i] as u32, 8);
            proof {
                lemma_uint_bits_len(bytes[i as int] as nat, 8);
                let after = bytes@.subrange(0, i + 1);
                assert(after.drop_last() =~= before);
            }
            i = i + 1;
        }
        assert(bytes@.subrange(0, bytes@.len() as int) =~= bytes@);
        r
    }

    /// The bits held, in order.
    pub fn to_bools(&self) -> (r: Vec<bool>)
        ensures
            r@ == self@,
    {
        let n = self.len();
        let mut r: Vec<bool> = Vec::new();
        let mut i: usize = 0;
        while i < n
            invariant
                i <= n == self@.len(),
                r@ == self@.subrange(0, i as int),
            decreases n - i,
        {
            r.push(self.get(i));
            i = i + 1;
            assert(r@ =~= self@.subrange(0, i as int));
        }
        assert(self@.subrange(0, n as int) =~= self@);
        r
    }
}

} // verus!
