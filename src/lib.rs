//! Encoder for CCSDS Space Packet Protocol packets.
//!
//! A packet is assembled from typed field values by a [`packet::Builder`],
//! validated, and serialized into one contiguous bit sequence with no padding
//! between fields.
use vstd::prelude::*;

pub mod bits;
pub mod data;
pub mod errors;
pub mod packet;
pub mod pri_header;

verus! {

/// Number of bits in an octet.
pub const OCTET: usize = 8;

/// Largest data field, in octets.
pub const MAX_DATA_SIZE: usize = 65536;

/// Size of the primary header, in bits.
pub const PRIMARY_HEADER_SIZE: usize = 6 * OCTET;

/// Largest packet, in bits: the primary header and the largest data field.
pub const MAX_SP_SIZE: usize = PRIMARY_HEADER_SIZE + MAX_DATA_SIZE * OCTET;

} // verus!
