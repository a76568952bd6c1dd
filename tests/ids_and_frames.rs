use can_socket::error::TryNewCanFrameErrorKind;
use can_socket::filter::CanFilter;
use can_socket::frame::CAN_EFF_FLAG;
use can_socket::{
    CanBaseId, CanData, CanExtendedId, CanFrame, CanId, ExtendedId, InvalidDataLengthCode, InvalidId,
    ParseIdErrorKind, StandardId, TryIntoCanDataError, TryNewCanFrameError,
};

#[test]
fn can_frame_is_copy() {
    let frame = CanFrame::new(CanId::from_u16(1), CanData::new([1, 2, 3, 4]));
    let copy = frame;
    assert!(copy.id() == CanId::new(1).unwrap());
    assert!(copy.data() == Some(CanData::new([1, 2, 3, 4])));
}

#[test]
fn can_data_from_array() {
    assert!(CanData::new([1]).as_slice() == [1]);
    assert!(CanData::new([1, 2]).as_slice() == [1, 2]);
    assert!(CanData::new([1, 2, 3]).as_slice() == [1, 2, 3]);
    assert!(CanData::new([1, 2, 3, 4, 5]).as_slice() == [1, 2, 3, 4, 5]);
    assert!(CanData::new([1, 2, 3, 4, 5, 6]).as_slice() == [1, 2, 3, 4, 5, 6]);
    assert!(CanData::new([1, 2, 3, 4, 5, 6, 7]).as_slice() == [1, 2, 3, 4, 5, 6, 7]);
    assert!(CanData::new([1, 2, 3, 4, 5, 6, 7, 8]).as_slice() == [1, 2, 3, 4, 5, 6, 7, 8]);

    assert!(CanData::new([1, 2]).as_slice() != [1]);
    assert!(CanData::new([1]).as_slice() != [1, 2]);
}

#[test]
fn can_id_new_keeps_the_value() {
    for x in [0u32, 1, 0x7FF, 0x800, 0x1234, 0x1FFF_FFFF] {
        let id = CanId::new(x).unwrap();
        assert_eq!(id.as_u32(), x);
        assert_eq!(id.as_standard().is_some(), x <= 0x7FF);
        assert_eq!(id.as_extended().is_some(), x > 0x7FF);
    }
    assert_eq!(CanId::new(0x2000_0000), Err(InvalidId { id: Some(0x2000_0000), extended: false }));
}

#[test]
fn standard_and_extended_differ() {
    let standard = CanId::new_standard(5).unwrap();
    let extended = CanId::new_extended(5).unwrap();
    assert!(standard != extended);
    assert_eq!(standard.as_u32(), extended.as_u32());
    assert_eq!(extended.to_standard().unwrap().as_u16(), 5);
    assert_eq!(CanId::new_extended(0x800).unwrap().to_standard(), Err(InvalidId { id: Some(0x800), extended: false }));
    assert_eq!(standard.to_extended().as_u32(), 5);
    assert_eq!(CanId::new_standard(0x800), Err(InvalidId { id: Some(0x800), extended: false }));
    assert_eq!(StandardId::new(0x800), Err(InvalidId { id: Some(0x800), extended: false }));
    assert_eq!(ExtendedId::new(0x2000_0000), Err(InvalidId { id: Some(0x2000_0000), extended: false }));
    assert_eq!(ExtendedId::from_u16(0xFFFF).as_u32(), 0xFFFF);
    assert_eq!(CanId::from_u16(0x800).as_extended().unwrap().as_u32(), 0x800);
}

#[test]
fn base_and_extended_ids() {
    assert_eq!(CanBaseId::new(0x7FF).unwrap().as_u16(), 0x7FF);
    assert_eq!(CanBaseId::new(0x800), Err(InvalidId { id: Some(0x800), extended: false }));
    assert_eq!(CanBaseId::from_u8(0x12).to_standard().as_u16(), 0x12);
    assert_eq!(CanExtendedId::new(0x1FFF_FFFF).unwrap().as_u32(), 0x1FFF_FFFF);
    assert_eq!(CanExtendedId::new(0x2000_0000), Err(InvalidId { id: Some(0x2000_0000), extended: true }));
    assert_eq!(CanExtendedId::from_u16(0x1234).to_extended().as_u32(), 0x1234);
    assert_eq!(CanExtendedId::from_u8(7).as_u32(), 7);
}

#[test]
fn parse_ids() {
    assert_eq!(CanId::parse("100").unwrap().as_u32(), 100);
    assert_eq!(CanId::parse("0x7FF").unwrap(), CanId::new_standard(0x7FF).unwrap());
    assert_eq!(CanId::parse("0x800").unwrap(), CanId::new_extended(0x800).unwrap());
    assert_eq!(CanId::parse("0o17").unwrap().as_u32(), 15);
    assert_eq!(CanId::parse("0b101").unwrap().as_u32(), 5);
    assert_eq!(CanId::parse("").unwrap_err().kind, ParseIdErrorKind::InvalidFormat);
    assert_eq!(CanId::parse("0x").unwrap_err().kind, ParseIdErrorKind::InvalidFormat);
    assert_eq!(CanId::parse("12a").unwrap_err().kind, ParseIdErrorKind::InvalidFormat);
    assert_eq!(
        CanId::parse("0x20000000").unwrap_err().kind,
        ParseIdErrorKind::InvalidValue(InvalidId { id: Some(0x2000_0000), extended: true })
    );
    assert_eq!(
        CanId::parse("4294967296").unwrap_err().kind,
        ParseIdErrorKind::InvalidValue(InvalidId { id: None, extended: true })
    );
}

#[test]
fn parse_format_parse_round_trip() {
    for text in ["0", "5", "0x7ff", "2047", "2048", "0x1fffffff", "0b1111", "0o777"] {
        let id = CanId::parse(text).unwrap();
        let decimal = String::from_utf8(id.to_decimal()).unwrap();
        let hex = String::from_utf8(id.to_hex()).unwrap();
        assert_eq!(CanId::parse(&decimal).unwrap(), id);
        assert_eq!(CanId::parse(&hex).unwrap(), id);
    }
    let id = CanId::parse("0x1ABCDEF").unwrap();
    assert_eq!(String::from_utf8(id.to_hex()).unwrap(), "0x1abcdef");
    assert_eq!(String::from_utf8(id.to_decimal()).unwrap(), "28036591");
}

#[test]
fn frame_data_is_the_payload() {
    for len in 0..=8usize {
        let payload: Vec<u8> = (0..len as u8).map(|b| b * 3 + 1).collect();
        let frame = CanFrame::try_new(0x123, &payload).unwrap();
        assert_eq!(frame.data().unwrap().as_slice(), payload.as_slice());
        assert!(!frame.is_rtr());
        assert_eq!(frame.data_length_code() as usize, len);
    }
    assert_eq!(
        CanFrame::try_new(1, &[0u8; 9]).unwrap_err().kind,
        TryNewCanFrameErrorKind::InvalidData(TryIntoCanDataError { len: 9 })
    );
    assert_eq!(
        CanFrame::try_new(0x2000_0000, &[0u8; 9]).unwrap_err().kind,
        TryNewCanFrameErrorKind::InvalidId(InvalidId { id: Some(0x2000_0000), extended: false })
    );
    assert_eq!(CanData::try_new(&[0u8; 12]).unwrap_err(), TryIntoCanDataError { len: 12 });
    let e: TryNewCanFrameError = TryIntoCanDataError { len: 9 }.into();
    assert_eq!(e.kind, TryNewCanFrameErrorKind::InvalidData(TryIntoCanDataError { len: 9 }));
}

#[test]
fn data_length_codes() {
    let frame = CanFrame::new(CanId::new(0x10).unwrap(), CanData::new([9, 8, 7]));
    for dlc in 0..=15u8 {
        let changed = frame.with_data_length_code(dlc).unwrap();
        assert_eq!(changed.data_length_code(), dlc);
        let data = changed.data().unwrap();
        assert_eq!(data.len(), dlc.min(8) as usize);
        for i in 0..data.len() {
            assert_eq!(data.get(i), if i < 3 { 9 - i as u8 } else { 0 });
        }
    }
    assert_eq!(frame.with_data_length_code(16).unwrap_err(), InvalidDataLengthCode { value: 16 });
    let mut same = frame;
    assert!(same.set_data_length_code(200).is_err());
    assert_eq!(same.data_length_code(), 3);
}

#[test]
fn rtr_frames() {
    let frame = CanFrame::new_rtr(CanId::new(0x42).unwrap());
    assert!(frame.is_rtr());
    assert!(frame.data().is_none());
    assert_eq!(frame.data_length_code(), 0);
    let frame = frame.with_data_length_code(12).unwrap();
    assert_eq!(frame.data_length_code(), 12);
    assert_eq!(frame.kernel_len(), 8);
    assert_eq!(frame.kernel_len8_dlc(), 12);
    assert_eq!(frame.can_id_word(), 0x42 | 0x4000_0000);
}

#[test]
fn kernel_layout() {
    let frame = CanFrame::new(CanId::new(0x1234_5678 & 0x1FFF_FFFF).unwrap(), CanData::new([1, 2]));
    assert_eq!(frame.can_id_word(), 0x1234_5678 | CAN_EFF_FLAG);
    assert_eq!(frame.kernel_len(), 2);
    assert_eq!(frame.kernel_len8_dlc(), 0);
    assert_eq!(frame.kernel_data(), [1, 2, 0, 0, 0, 0, 0, 0]);

    let back = CanFrame::from_kernel(0x8000_0123, 8, 11, [1, 2, 3, 4, 5, 6, 7, 8]);
    assert_eq!(back.id(), CanId::new_extended(0x123).unwrap());
    assert_eq!(back.data_length_code(), 11);
    assert_eq!(back.data().unwrap().as_slice(), [1, 2, 3, 4, 5, 6, 7, 8]);

    let rtr = CanFrame::from_kernel(0x4000_0123, 4, 0, [9; 8]);
    assert_eq!(rtr.id(), CanId::new_standard(0x123).unwrap());
    assert!(rtr.is_rtr());
    assert_eq!(rtr.data_length_code(), 4);
}

#[test]
fn filter_exact_id_is_value_then_format() {
    for id in [CanId::new(0x12).unwrap(), CanId::new_extended(0x12).unwrap(), CanId::new(0x1ABC_DEF0).unwrap()] {
        let f = CanFilter::new(id).match_id_mask(0x0F0F);
        assert_eq!(f.match_id_value().match_frame_format(), f.match_exact_id());
    }
}

#[test]
fn filter_defaults_and_flags() {
    let any = CanFilter::new(CanId::new(0x100).unwrap());
    let frame = CanFrame::new(CanId::new(0x7).unwrap(), CanData::new([1]));
    assert!(any.test(&frame));
    assert!(!any.inverted(true).test(&frame));
    assert!(any.inverted(true).is_inverted());
    assert!(!any.inverted(true).inverted(false).is_inverted());

    let exact = any.match_exact_id();
    assert!(!exact.test(&frame));
    assert!(exact.test(&CanFrame::new(CanId::new(0x100).unwrap(), CanData::new([]))));
    assert!(!exact.test(&CanFrame::new(CanId::new_extended(0x100).unwrap(), CanData::new([]))));

    let rtr_only = exact.match_rtr_only();
    assert!(rtr_only.test(&CanFrame::new_rtr(CanId::new(0x100).unwrap())));
    assert!(!rtr_only.test(&CanFrame::new(CanId::new(0x100).unwrap(), CanData::new([]))));
    assert!(rtr_only.matches_rtr_frames() && !rtr_only.matches_data_frames());
    let data_only = exact.match_data_only();
    assert!(!data_only.test(&CanFrame::new_rtr(CanId::new(0x100).unwrap())));
    assert!(data_only.matches_data_frames() && !data_only.matches_rtr_frames());
    assert!(exact.matches_standard_frames() && !exact.matches_extended_frames());
    assert_eq!(exact.id(), 0x100);
    assert_eq!(exact.id_mask(), 0x1FFF_FFFF);
}

#[test]
fn from_str_on_each_id_type() {
    let id: StandardId = "0x7FF".parse().unwrap();
    assert_eq!(id.as_u16(), 0x7FF);
    assert_eq!(
        "2048".parse::<StandardId>().unwrap_err().kind,
        ParseIdErrorKind::InvalidValue(InvalidId { id: Some(2048), extended: false })
    );
    let id: ExtendedId = "0b11".parse().unwrap();
    assert_eq!(id.as_u32(), 3);
    assert_eq!(
        "0x20000000".parse::<ExtendedId>().unwrap_err().kind,
        ParseIdErrorKind::InvalidValue(InvalidId { id: Some(0x2000_0000), extended: true })
    );
    assert_eq!("x12".parse::<CanId>().unwrap_err().kind, ParseIdErrorKind::InvalidFormat);
    assert_eq!("0o777".parse::<CanId>().unwrap(), CanId::new(0o777).unwrap());
    assert_eq!(StandardId::new(0x185).unwrap().function_code(), 0x180);
    assert_eq!(StandardId::new(0x185).unwrap().node_id(), 5);
}
