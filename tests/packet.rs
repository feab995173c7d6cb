use spp_rust::bits::BitRegion;
use spp_rust::data::{SecondaryHeader, UserData};
use spp_rust::errors::SPPError;
use spp_rust::packet::{Builder, SpacePacket};
use spp_rust::pri_header::{Identification, PacketType, SecHeaderFlag, SeqFlags, SequenceControl};
use spp_rust::{MAX_DATA_SIZE, OCTET, PRIMARY_HEADER_SIZE};

fn region(v: &[bool]) -> BitRegion {
    BitRegion::from_bools(&v.to_vec())
}

fn zeros(n: usize) -> BitRegion {
    region(&vec![false; n])
}

fn ones(n: usize) -> BitRegion {
    region(&vec![true; n])
}

fn value_of(bits: &[bool]) -> usize {
    bits.iter().fold(0, |acc, b| acc * 2 + usize::from(*b))
}

fn seq_control() -> SequenceControl {
    SequenceControl::new(SeqFlags::Unsegmented, zeros(14)).unwrap()
}

fn builder_with(id: Identification, user_bits: usize) -> Builder {
    let mut builder = SpacePacket::builder();
    builder.identification(Some(id));
    builder.sequence_control(Some(seq_control()));
    builder.user_data(Some(UserData::new(zeros(user_bits))));
    builder
}

#[test]
fn test_output() {
    let mut builder = SpacePacket::builder();

    let id = Identification::new_idle(PacketType::Telemetry);

    let pattern = [
        false, true, false, true, false, true, false, true, false, true, false, true, false, true,
        false, true,
    ];
    // A 16-bit count is refused: the field holds exactly 14 bits.
    assert_eq!(
        SequenceControl::new(SeqFlags::Unsegmented, region(&pattern)).unwrap_err(),
        SPPError::SequenceControlLenMismatch
    );
    let seq = SequenceControl::new(SeqFlags::Unsegmented, region(&pattern[..14])).unwrap();

    builder.identification(Some(id));
    builder.sequence_control(Some(seq));

    let data = BitRegion::from_bytes(&"Teste ooooi".as_bytes().to_vec());
    let ud = UserData::new(data);
    builder.user_data(Some(ud));

    let sp = builder.build().unwrap();

    let bits = sp.to_bits().to_bools();

    assert_eq!(bits.len(), PRIMARY_HEADER_SIZE + 11 * OCTET);
    let text: Vec<u8> = bits[48..].chunks(8).map(|c| value_of(c) as u8).collect();
    assert_eq!(text, "Teste ooooi".as_bytes());
}

#[test]
fn test_sec_header_req() {
    let mut builder = SpacePacket::builder();

    let id =
        Identification::new(PacketType::Telemetry, SecHeaderFlag::Present, &zeros(11)).unwrap();
    let seq = SequenceControl::new(SeqFlags::Unsegmented, zeros(14)).unwrap();

    let tc = zeros(4);

    let sec_head = SecondaryHeader::new(Some(tc), None);

    builder.identification(Some(id));
    builder.sequence_control(Some(seq));
    builder.secondary_header(Some(sec_head));

    let data = ones(65536);
    let ud = UserData::new(data);
    builder.user_data(Some(ud));

    let _sp = builder.build().unwrap();
}

#[test]
fn serializing_twice_gives_the_same_bits() {
    let id = Identification::new(PacketType::Telecommand, SecHeaderFlag::NotPresent, &ones(11))
        .unwrap();
    let sp = builder_with(id, 24).build().unwrap();
    let first = sp.to_bits().to_bools();
    let second = sp.to_bits().to_bools();
    assert_eq!(first, second);
}

#[test]
fn length_and_data_length_field() {
    let id = Identification::new(PacketType::Telemetry, SecHeaderFlag::NotPresent, &zeros(11))
        .unwrap();
    let sp = builder_with(id, 80).build().unwrap();
    assert_eq!(sp.len(), 48 + 80);
    let bits = sp.to_bits().to_bools();
    assert_eq!(bits.len(), 128);
    assert_eq!(value_of(&bits[32..48]), 80 / 8 - 1);
}

#[test]
fn data_length_field_counts_whole_octets() {
    let id = Identification::new(PacketType::Telemetry, SecHeaderFlag::Present, &zeros(11))
        .unwrap();
    let mut builder = builder_with(id, 8);
    builder.secondary_header(Some(SecondaryHeader::new(Some(ones(4)), None)));
    let sp = builder.build().unwrap();
    assert_eq!(sp.len(), 60);
    let bits = sp.to_bits().to_bools();
    assert_eq!(value_of(&bits[32..48]), 0);
}

#[test]
fn minimum_packet() {
    let sp = builder_with(Identification::new_idle(PacketType::Telemetry), 8).build().unwrap();
    assert_eq!(sp.len(), 56);
    let bits = sp.to_bits().to_bools();
    assert_eq!(bits.len(), 56);
    assert_eq!(value_of(&bits[32..48]), 0);
}

#[test]
fn maximum_packet() {
    let id = Identification::new(PacketType::Telemetry, SecHeaderFlag::NotPresent, &zeros(11))
        .unwrap();
    let sp = builder_with(id, MAX_DATA_SIZE * OCTET).build().unwrap();
    assert_eq!(sp.len(), 48 + 65536 * 8);
    let bits = sp.to_bits().to_bools();
    assert_eq!(bits.len(), 48 + 65536 * 8);
    assert_eq!(value_of(&bits[32..48]), 65535);
}

#[test]
fn one_bit_over_the_maximum_is_refused() {
    let id = Identification::new(PacketType::Telemetry, SecHeaderFlag::NotPresent, &zeros(11))
        .unwrap();
    let r = builder_with(id, MAX_DATA_SIZE * OCTET + 1).build();
    assert_eq!(r.unwrap_err(), SPPError::MaxDataSizeExedded);
}

#[test]
fn missing_mandatory_fields() {
    let builder = SpacePacket::builder();
    assert_eq!(builder.build().unwrap_err(), SPPError::MandatoryFieldNotPresent);

    let mut only_id = SpacePacket::builder();
    only_id.identification(Some(Identification::new_idle(PacketType::Telemetry)));
    only_id.user_data(Some(UserData::new(zeros(8))));
    assert_eq!(only_id.build().unwrap_err(), SPPError::MandatoryFieldNotPresent);

    let mut only_seq = SpacePacket::builder();
    only_seq.sequence_control(Some(seq_control()));
    only_seq.user_data(Some(UserData::new(zeros(8))));
    assert_eq!(only_seq.build().unwrap_err(), SPPError::MandatoryFieldNotPresent);
}

#[test]
fn secondary_header_must_be_given_when_flagged() {
    let present = || {
        Identification::new(PacketType::Telemetry, SecHeaderFlag::Present, &zeros(11)).unwrap()
    };

    let mut none = builder_with(present(), 8);
    none.secondary_header(None);
    assert_eq!(none.build().unwrap_err(), SPPError::SecondaryHeaderNotPresent);

    let mut empty = builder_with(present(), 8);
    empty.secondary_header(Some(SecondaryHeader::new(None, None)));
    assert_eq!(empty.build().unwrap_err(), SPPError::SecondaryHeaderNotPresent);

    let mut zero_length = builder_with(present(), 8);
    zero_length.secondary_header(Some(SecondaryHeader::new(Some(zeros(0)), Some(zeros(0)))));
    assert_eq!(zero_length.build().unwrap_err(), SPPError::SecondaryHeaderNotPresent);

    let mut given = builder_with(present(), 8);
    given.secondary_header(Some(SecondaryHeader::new(Some(ones(8)), None)));
    let sp = given.build().unwrap();
    assert_eq!(sp.len(), 48 + 16);
}

#[test]
fn idle_overrides_identification() {
    let id = Identification::new(PacketType::Telecommand, SecHeaderFlag::Present, &zeros(11))
        .unwrap();
    let mut builder = builder_with(id, 8);
    builder.idle(true);
    let sp = builder.build().unwrap();
    let bits = sp.to_bits().to_bools();
    assert!(bits[3]);
    assert!(!bits[4]);
    assert_eq!(&bits[5..16], &[true; 11]);
}

#[test]
fn idle_set_then_cleared_keeps_identification() {
    let id = Identification::new(PacketType::Telemetry, SecHeaderFlag::NotPresent, &zeros(11))
        .unwrap();
    let mut builder = builder_with(id, 8);
    builder.idle(true);
    builder.idle(false);
    let bits = builder.build().unwrap().to_bits().to_bools();
    assert_eq!(&bits[3..16], &[false; 13]);
}

#[test]
fn secondary_header_precedes_user_data() {
    let id = Identification::new(PacketType::Telemetry, SecHeaderFlag::Present, &zeros(11))
        .unwrap();
    let mut builder = SpacePacket::builder();
    builder.identification(Some(id));
    builder.sequence_control(Some(seq_control()));
    let time_code = [true, false, true];
    let ancillary = [false, false, true, true, true];
    builder.secondary_header(Some(SecondaryHeader::new(
        Some(region(&time_code)),
        Some(region(&ancillary)),
    )));
    let user = [true, true, false, true, false, false, true, false];
    builder.user_data(Some(UserData::new(region(&user))));
    let bits = builder.build().unwrap().to_bits().to_bools();
    assert_eq!(bits.len(), 48 + 3 + 5 + 8);
    assert_eq!(&bits[48..51], &time_code);
    assert_eq!(&bits[51..56], &ancillary);
    assert_eq!(&bits[56..64], &user);
}

#[test]
fn missing_user_data_is_refused() {
    let mut builder = SpacePacket::builder();
    builder.identification(Some(Identification::new_idle(PacketType::Telemetry)));
    builder.sequence_control(Some(seq_control()));
    assert_eq!(builder.build().unwrap_err(), SPPError::MinDataLen);
}

#[test]
fn user_data_under_one_octet_is_refused() {
    let r = builder_with(Identification::new_idle(PacketType::Telemetry), 7).build();
    assert_eq!(r.unwrap_err(), SPPError::MinDataLen);
}

#[test]
fn header_layout_of_a_telecommand() {
    let apid = [true, false, false, false, false, false, false, false, false, true, true];
    let id =
        Identification::new(PacketType::Telecommand, SecHeaderFlag::NotPresent, &region(&apid))
            .unwrap();
    let count = [false, false, false, false, false, false, false, false, false, false, true, false,
        true, false];
    let mut builder = SpacePacket::builder();
    builder.identification(Some(id));
    builder.sequence_control(Some(SequenceControl::new(SeqFlags::First, region(&count)).unwrap()));
    builder.user_data(Some(UserData::new(BitRegion::from_bytes(&vec![1, 2, 3]))));
    let bits = builder.build().unwrap().to_bits().to_bools();
    assert_eq!(&bits[0..3], &[false; 3]);
    assert!(bits[3]);
    assert!(!bits[4]);
    assert_eq!(&bits[5..16], &apid);
    assert_eq!(&bits[16..18], &[false, true]);
    assert_eq!(&bits[18..32], &count);
    assert_eq!(value_of(&bits[32..48]), 2);
    assert_eq!(value_of(&bits[48..72]), 0x010203);
}
