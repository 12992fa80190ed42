use can_types::CanFrame;

#[test]
fn round_trip_extended_frame() {
    let f = CanFrame::new(0x123, true, false, 8, 0x0102030405060708);
    assert_eq!(f.get_id(), 0x123);
    assert_eq!(f.get_ide_flag(), true);
    assert_eq!(f.get_rtr_flag(), false);
    assert_eq!(f.get_dlc(), 8);
    assert_eq!(f.get_data_u64(), 0x0102030405060708);
}

#[test]
fn round_trip_all_flag_combinations() {
    for &(ide, rtr) in &[(false, false), (false, true), (true, false), (true, true)] {
        let f = CanFrame::new(0x1ABCDEF, ide, rtr, 4, 0xDEADBEEF);
        assert_eq!(f.get_id(), 0x1ABCDEF);
        assert_eq!(f.get_ide_flag(), ide);
        assert_eq!(f.get_rtr_flag(), rtr);
        assert_eq!(f.get_dlc(), 4);
        assert_eq!(f.get_data_u64(), 0xDEADBEEF);
    }
}

#[test]
fn round_trip_extreme_identifiers() {
    let low = CanFrame::new(0, true, true, 0, 0);
    assert_eq!(low.get_id(), 0);
    assert_eq!(low.get_ide_flag(), true);
    assert_eq!(low.get_rtr_flag(), true);

    let high = CanFrame::new(0x1FFF_FFFF, false, false, 8, u64::MAX);
    assert_eq!(high.get_id(), 0x1FFF_FFFF);
    assert_eq!(high.get_ide_flag(), false);
    assert_eq!(high.get_rtr_flag(), false);
    assert_eq!(high.get_data_u64(), u64::MAX);
}

#[test]
fn key_holds_packed_identifier() {
    let f = CanFrame::new(0x123, true, false, 8, 0);
    assert_eq!(f.key(), 0x8000_0123);

    let g = CanFrame::new(0x7FF, false, true, 0, 0);
    assert_eq!(g.key(), 0x4000_07FF);

    let h = CanFrame::new(0x456, false, false, 2, 0);
    assert_eq!(h.key(), 0x456);
}

#[test]
fn key_composes_id_and_shifted_flags() {
    for &(id, ide, rtr) in &[(0x123u32, true, false), (0x1FFF_FFFF, true, true), (7, false, true)] {
        let f = CanFrame::new(id, ide, rtr, 0, 0);
        let expected = f.get_id() | ((ide as u32) << 31) | ((rtr as u32) << 30);
        assert_eq!(f.key(), expected);
    }
}

#[test]
fn payload_bytes_little_endian() {
    let f = CanFrame::new(1, false, false, 8, 0x0102030405060708);
    assert_eq!(
        f.get_data_8u8(),
        [0x08, 0x07, 0x06, 0x05, 0x04, 0x03, 0x02, 0x01]
    );
}

#[test]
fn payload_byte_zero_is_least_significant() {
    let f = CanFrame::new(1, false, false, 3, 0xAABBCC);
    let bytes = f.get_data_8u8();
    assert_eq!(bytes[0], (f.get_data_u64() & 0xFF) as u8);
    assert_eq!(bytes, [0xCC, 0xBB, 0xAA, 0, 0, 0, 0, 0]);
}

#[test]
fn dlc_stored_verbatim() {
    let f = CanFrame::new(5, false, false, 0, 0);
    assert_eq!(f.get_dlc(), 0);
    let g = CanFrame::new(5, false, false, 8, 0x11);
    assert_eq!(g.get_dlc(), 8);
    let h = CanFrame::new(5, false, false, 15, 0x11);
    assert_eq!(h.get_dlc(), 15);
}

#[test]
fn clone_keeps_every_field() {
    let f = CanFrame::new(0x42, true, true, 6, 0x1234);
    let g = f.clone();
    assert_eq!(g.key(), f.key());
    assert_eq!(g.get_dlc(), f.get_dlc());
    assert_eq!(g.get_data_u64(), f.get_data_u64());
}
