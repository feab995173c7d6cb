use spp_rust::bits::BitRegion;
use spp_rust::data::{DataField, SecondaryHeader, UserData};
use spp_rust::errors::SPPError;
use spp_rust::pri_header::{
    Identification, PacketType, PrimaryHeader, SecHeaderFlag, SeqFlags, SequenceControl,
};

fn region(v: &[bool]) -> BitRegion {
    BitRegion::from_bools(&v.to_vec())
}

fn zeros(n: usize) -> BitRegion {
    region(&vec![false; n])
}

fn value_of(bits: &[bool]) -> usize {
    bits.iter().fold(0, |acc, b| acc * 2 + usize::from(*b))
}

#[test]
fn identification_encodes_type_and_flag() {
    let apid = [false, true, true, false, false, true, false, true, true, true, false];
    for (t, t_bit) in [(PacketType::Telemetry, false), (PacketType::Telecommand, true)] {
        for (f, f_bit) in [
            (SecHeaderFlag::Present, true),
            (SecHeaderFlag::NotPresent, false),
            (SecHeaderFlag::Idle, false),
        ] {
            let id = Identification::new(t, f, &region(&apid)).unwrap();
            let mut out = BitRegion::new();
            id.to_bits(&mut out);
            let bits = out.to_bools();
            assert_eq!(bits.len(), 13);
            assert_eq!(bits[0], t_bit);
            assert_eq!(bits[1], f_bit);
            assert_eq!(&bits[2..], &apid);
        }
    }
}

#[test]
fn identification_appends_after_existing_bits() {
    let id = Identification::new_idle(PacketType::Telecommand);
    let mut out = region(&[false, false]);
    id.to_bits(&mut out);
    let bits = out.to_bools();
    assert_eq!(bits.len(), 15);
    assert_eq!(&bits[..3], &[false, false, true]);
    assert!(!bits[3]);
    assert_eq!(&bits[4..], &[true; 11]);
}

#[test]
fn apid_of_wrong_width_is_refused() {
    for n in [0, 1, 10, 12, 16] {
        let r = Identification::new(PacketType::Telemetry, SecHeaderFlag::NotPresent, &zeros(n));
        assert_eq!(r.unwrap_err(), SPPError::APIDLenMismatch(n));
    }
}

#[test]
fn idle_identification() {
    let id = Identification::new_idle(PacketType::Telemetry);
    assert_eq!(id.packet_type, PacketType::Telemetry);
    assert_eq!(id.sec_header_flag, SecHeaderFlag::Idle);
    let mut out = BitRegion::new();
    id.to_bits(&mut out);
    let bits = out.to_bools();
    assert_eq!(&bits[..2], &[false, false]);
    assert_eq!(&bits[2..], &[true; 11]);
}

#[test]
fn sequence_count_of_wrong_width_is_refused() {
    for n in [0, 13, 15, 16] {
        let r = SequenceControl::new(SeqFlags::First, zeros(n));
        assert_eq!(r.unwrap_err(), SPPError::SequenceControlLenMismatch);
    }
    assert!(SequenceControl::new(SeqFlags::First, zeros(14)).is_ok());
}

#[test]
fn sequence_flags_codes() {
    let id = Identification::new_idle(PacketType::Telemetry);
    for (flag, code) in [
        (SeqFlags::Continuation, [false, false]),
        (SeqFlags::First, [false, true]),
        (SeqFlags::Last, [true, false]),
        (SeqFlags::Unsegmented, [true, true]),
    ] {
        let sc = SequenceControl::new(flag, zeros(14)).unwrap();
        let header = PrimaryHeader::new(&id, &sc);
        let mut out = BitRegion::new();
        header.to_bits(&mut out);
        let bits = out.to_bools();
        assert_eq!(&bits[16..18], &code);
    }
}

#[test]
fn primary_header_data_length() {
    let id = Identification::new_idle(PacketType::Telemetry);
    let count = [true, false, false, false, false, false, false, false, false, false, false,
        false, false, true];
    let sc = SequenceControl::new(SeqFlags::Last, region(&count)).unwrap();
    let mut header = PrimaryHeader::new(&id, &sc);
    assert_eq!(header.data_length, 0);
    header.data_lenght(1);
    assert_eq!(header.data_length, 0);
    header.data_lenght(300);
    assert_eq!(header.data_length, 299);
    header.data_lenght(65536);
    assert_eq!(header.data_length, 65535);
    let mut out = BitRegion::new();
    header.to_bits(&mut out);
    let bits = out.to_bools();
    assert_eq!(bits.len(), 48);
    assert_eq!(&bits[..3], &[false; 3]);
    assert_eq!(&bits[18..32], &count);
    assert_eq!(value_of(&bits[32..]), 65535);
}

#[test]
fn secondary_header_length_and_bits() {
    let tc = [true, true, false];
    let anc = [false, true];
    assert_eq!(SecondaryHeader::new(None, None).len(), 0);
    assert_eq!(SecondaryHeader::new(Some(region(&tc)), None).len(), 3);
    assert_eq!(SecondaryHeader::new(None, Some(region(&anc))).len(), 2);
    let both = SecondaryHeader::new(Some(region(&tc)), Some(region(&anc)));
    assert_eq!(both.len(), 5);
    assert_eq!(both.to_bits().to_bools(), vec![true, true, false, false, true]);
    let only_anc = SecondaryHeader::new(None, Some(region(&anc)));
    assert_eq!(only_anc.to_bits().to_bools(), vec![false, true]);
}

#[test]
fn data_field_defaults_and_setters() {
    let mut df = DataField::new();
    assert_eq!(df.len(), 8);
    assert_eq!(df.to_bits().to_bools(), vec![false; 8]);

    df.user_data(None);
    assert_eq!(df.len(), 0);

    df.sec_header(Some(SecondaryHeader::new(Some(region(&[true, false])), None)));
    df.user_data(Some(UserData::new(region(&[true, true, true]))));
    assert_eq!(df.len(), 5);
    assert_eq!(df.to_bits().to_bools(), vec![true, false, true, true, true]);

    df.sec_header(None);
    assert_eq!(df.len(), 3);
    assert_eq!(df.to_bits().to_bools(), vec![true, true, true]);
}

#[test]
fn user_data_keeps_its_bits() {
    let ud = UserData::new(region(&[false, true, true]));
    assert_eq!(ud.data.to_bools(), vec![false, true, true]);
}
