use can_socket::access::AccessType;
use can_socket::download::{DownloadStep, SdoDownload};
use can_socket::nmt::{heartbeat_id, nmt_command_frame, parse_heartbeat, sync_frame};
use can_socket::object::CanBaseIdExt;
use can_socket::pdo_config::{
    configure_rpdo_writes, configure_tpdo_writes, cob_id_word, rpdo_communication_from_values,
    rpdo_communication_params_object, rpdo_mapping_object, tpdo_communication_from_values,
    tpdo_communication_params_object, with_enabled, SdoWrite,
};
use can_socket::scalar::{le_bytes, parse_i16, parse_i32, parse_i64, parse_i8, parse_u16, parse_u32, parse_u64, parse_u8};
use can_socket::sdo::{abort_reason, check_server_command, is_response_from};
use can_socket::sdo_error::ServerCommand;
use can_socket::upload::{SdoUpload, UploadStep};
use can_socket::{
    AbortReason, CanData, CanFrame, CanId, InvalidPdoNumber, InvalidSyncInterval, MalformedResponse,
    NmtCommand, NmtError, NmtState, ObjectIndex, PdoConfigError, PdoMapping, RpdoCommunicationParameters,
    RpdoConfiguration, RpdoKind, RpdoTransmissionType, SdoAddress, SdoError, StandardId,
    TpdoCommunicationParameters, TpdoConfiguration, TpdoKind, TpdoTransmissionType, Value,
};

fn frame(id: u32, data: &[u8]) -> CanFrame {
    CanFrame::try_new(id, data).unwrap()
}

fn bytes(f: &CanFrame) -> Vec<u8> {
    f.data().unwrap().as_slice().to_vec()
}

#[test]
fn pdo_mapping_round_trip() {
    for raw in [0u32, 0x6041_0010, 0x2039_0520, 0xFFFF_FFFF, 0x1234_5678] {
        let m = PdoMapping::from_u32(raw);
        assert_eq!(m.to_u32(), raw);
        assert_eq!(PdoMapping::from_u32(m.to_u32()), m);
    }
    let m = PdoMapping { object: ObjectIndex::new(0x2039, 5), bit_length: 32 };
    assert_eq!(m.to_u32(), 0x2039_0520);
}

#[test]
fn pdo_objects() {
    assert_eq!(rpdo_communication_params_object(0).unwrap(), 0x1400);
    assert_eq!(rpdo_mapping_object(511).unwrap(), 0x1600 + 511);
    assert_eq!(tpdo_communication_params_object(3).unwrap(), 0x1803);
    assert_eq!(rpdo_communication_params_object(512).unwrap_err(), InvalidPdoNumber { value: 512 });
}

#[test]
fn transmission_types() {
    assert!(RpdoTransmissionType::sync().is_sync());
    assert!(RpdoTransmissionType::from_u8(0xF1).is_reserved());
    assert_eq!(RpdoTransmissionType::event_driven(true).is_event_driven(), Some(true));
    assert_eq!(RpdoTransmissionType::event_driven(false).to_u8(), 0xFF);
    assert!(TpdoTransmissionType::sync_acyclic().is_sync_acyclic());
    assert_eq!(TpdoTransmissionType::sync(10).unwrap().is_sync(), Some(10));
    assert_eq!(TpdoTransmissionType::sync(0).unwrap_err(), InvalidSyncInterval { value: 0 });
    assert_eq!(TpdoTransmissionType::sync(241).unwrap_err(), InvalidSyncInterval { value: 241 });
    assert!(TpdoTransmissionType::every_sync().is_every_sync());
    assert_eq!(TpdoTransmissionType::nth_sync(2).unwrap().is_nth_sync(), Some(2));
    assert!(TpdoTransmissionType::nth_sync(1).is_err());
    assert_eq!(TpdoTransmissionType::rtr_only(true).to_u8(), 0xFC);
    assert_eq!(TpdoTransmissionType::rtr_only(false).is_rtr_only(), Some(false));
    assert_eq!(TpdoTransmissionType::event_driven(true).is_event_driven(), Some(true));
    assert!(TpdoTransmissionType::from_u8(0xFB).is_reserved());
}

#[test]
fn pdo_kinds() {
    assert_eq!(RpdoKind::new(5, 2).unwrap().ord(), 2);
    assert!(RpdoKind::new(5, 4).is_none());
    assert_eq!(RpdoKind::First(5).default_cob_id().as_u32(), 0x205);
    assert_eq!(TpdoKind::new(5, 3).unwrap().default_cob_id().as_u32(), 0x485);
    assert_eq!(TpdoKind::Second(1).ord(), 1);
}

#[test]
fn communication_parameters_from_values() {
    let p = rpdo_communication_from_values(0x8000_0205, 0xFF, 0, 100);
    assert!(!p.enabled);
    assert_eq!(p.cob_id, CanId::new(0x205).unwrap());
    assert_eq!(p.mode.to_u8(), 0xFF);
    assert_eq!(p.deadline_timer_ms, 100);
    let t = tpdo_communication_from_values(0x6000_0185, 1, 10, 20, 3);
    assert!(t.enabled);
    assert!(!t.rtr_allowed);
    assert_eq!(t.cob_id, CanId::new_extended(0x185).unwrap());
    assert_eq!((t.inhibit_time_100us, t.event_timer_ms, t.start_sync), (10, 20, 3));
}

fn rpdo_config(enabled: bool) -> RpdoConfiguration {
    RpdoConfiguration {
        communication: RpdoCommunicationParameters {
            enabled,
            mode: RpdoTransmissionType::event_driven(false),
            cob_id: CanId::new(0x205).unwrap(),
            inhibit_time_100us: 0,
            deadline_timer_ms: 50,
        },
        mapping: vec![PdoMapping { object: ObjectIndex::new(0x6040, 0), bit_length: 16 }],
    }
}

fn write(index: u16, subindex: u8, value: u32, size: u8) -> SdoWrite {
    SdoWrite { object: ObjectIndex::new(index, subindex), value, size }
}

#[test]
fn configure_rpdo_disables_first_and_enables_last() {
    let writes = configure_rpdo_writes(0, &rpdo_config(true), 5, 0x0000_0201).unwrap();
    assert_eq!(
        writes,
        vec![
            write(0x1400, 1, 0x8000_0201, 4),
            write(0x1400, 1, 0x8000_0205, 4),
            write(0x1400, 2, 0xFF, 1),
            write(0x1400, 3, 0, 2),
            write(0x1400, 5, 50, 2),
            write(0x1600, 0, 0, 1),
            write(0x1600, 1, 0x6040_0010, 4),
            write(0x1600, 0, 1, 1),
            write(0x1400, 1, 0x0000_0205, 4),
        ]
    );
    let disabled = configure_rpdo_writes(0, &rpdo_config(false), 5, 0x0000_0201).unwrap();
    assert_eq!(disabled.len(), 8);
    assert_eq!(disabled[0].bytes(), vec![0x01, 0x02, 0x00, 0x80]);
    assert!(matches!(
        configure_rpdo_writes(0, &rpdo_config(true), 2, 0),
        Err(PdoConfigError::DeadlineTimerNotSupported)
    ));
    assert!(matches!(
        configure_rpdo_writes(600, &rpdo_config(true), 5, 0),
        Err(PdoConfigError::InvalidPdoNumber(InvalidPdoNumber { value: 600 }))
    ));
}

fn tpdo_config() -> TpdoConfiguration {
    TpdoConfiguration {
        communication: TpdoCommunicationParameters {
            enabled: true,
            rtr_allowed: false,
            cob_id: CanId::new_extended(0x185).unwrap(),
            mode: TpdoTransmissionType::sync(1).unwrap(),
            inhibit_time_100us: 3,
            event_timer_ms: 0,
            start_sync: 2,
        },
        mapping: vec![],
    }
}

#[test]
fn configure_tpdo_writes_and_errors() {
    let writes = configure_tpdo_writes(1, &tpdo_config(), 6, 0x4000_0181).unwrap();
    assert_eq!(
        writes,
        vec![
            write(0x1801, 1, 0xC000_0181, 4),
            write(0x1801, 1, 0xE000_0185, 4),
            write(0x1801, 2, 1, 1),
            write(0x1801, 3, 3, 2),
            write(0x1801, 5, 0, 2),
            write(0x1801, 6, 2, 1),
            write(0x1A01, 0, 0, 1),
            write(0x1A01, 0, 0, 1),
            write(0x1801, 1, 0x6000_0185, 4),
        ]
    );
    assert!(matches!(configure_tpdo_writes(1, &tpdo_config(), 5, 0), Err(PdoConfigError::StartSyncNotSupported)));
    assert!(matches!(configure_tpdo_writes(1, &tpdo_config(), 2, 0), Err(PdoConfigError::InhibitTimeNotSupported)));
    let mut timed = tpdo_config();
    timed.communication.inhibit_time_100us = 0;
    timed.communication.start_sync = 0;
    timed.communication.event_timer_ms = 9;
    assert!(matches!(configure_tpdo_writes(1, &timed, 4, 0), Err(PdoConfigError::EventTimerNotSupported)));
    assert_eq!(with_enabled(0x8000_0185, true), 0x185);
    assert_eq!(with_enabled(0x185, false), 0x8000_0185);
    assert_eq!(cob_id_word(CanId::new_extended(0x10).unwrap()), 0x2000_0010);
}

#[test]
fn sdo_response_errors() {
    let upload = || SdoUpload::start(5, SdoAddress::standard(), ObjectIndex::new(0x1000, 0), Some(4)).0;
    let step = upload().on_response(&frame(0x585, &[0x43, 0, 0x10, 0, 1, 2]));
    assert!(matches!(step, UploadStep::Abort(_, SdoError::MalformedResponse(MalformedResponse::WrongFrameSize(6)))));
    let step = upload().on_response(&CanFrame::new_rtr(CanId::new(0x585).unwrap()));
    assert!(matches!(step, UploadStep::Abort(_, SdoError::MalformedResponse(MalformedResponse::WrongFrameSize(0)))));
    let step = upload().on_response(&frame(0x585, &[0xE0, 0, 0, 0, 0, 0, 0, 0]));
    assert!(matches!(step, UploadStep::Abort(_, SdoError::MalformedResponse(MalformedResponse::InvalidServerCommand(7)))));
    let step = upload().on_response(&frame(0x585, &[0x60, 0, 0, 0, 0, 0, 0, 0]));
    match step {
        UploadStep::Abort(_, SdoError::UnexpectedResponse(e)) => {
            assert_eq!(e.expected, ServerCommand::InitiateUpload);
            assert_eq!(e.actual, ServerCommand::InitiateDownload);
        },
        other => panic!("unexpected step: {:?}", other),
    }
    let step = upload().on_response(&frame(0x585, &[0x40, 0, 0x10, 0, 0, 0, 0, 0]));
    assert!(matches!(step, UploadStep::Abort(_, SdoError::NoExpeditedOrSizeFlag)));
    let step = upload().on_response(&frame(0x585, &[0x41, 0, 0x10, 0, 100, 0, 0, 0]));
    match step {
        UploadStep::Abort(_, SdoError::BufferTooSmall(e)) => assert_eq!((e.available, e.needed), (4, 100)),
        other => panic!("unexpected step: {:?}", other),
    }
    let mut segmented = SdoUpload::start(5, SdoAddress::standard(), ObjectIndex::new(0x1000, 0), None).0;
    segmented.on_response(&frame(0x585, &[0x41, 0, 0x10, 0, 3, 0, 0, 0]));
    let step = segmented.on_response(&frame(0x585, &[0x11, 1, 2, 3, 4, 5, 6, 7]));
    assert!(matches!(step, UploadStep::Abort(_, SdoError::InvalidToggleFlag)));
    let step = segmented.on_response(&frame(0x585, &[0x01, 1, 2, 3, 4, 5, 6, 7]));
    match step {
        UploadStep::Abort(_, SdoError::WrongDataCount(e)) => assert_eq!((e.expected, e.actual), (3, 7)),
        other => panic!("unexpected step: {:?}", other),
    }
    let step = upload().on_response(&frame(0x585, &[0x80, 0, 0x10, 0, 0x78, 0x56, 0x34, 0x12]));
    match step {
        UploadStep::Abort(_, SdoError::TransferAborted(e)) => assert_eq!(e.reason, Err(0x1234_5678)),
        other => panic!("unexpected step: {:?}", other),
    }
}

#[test]
fn expedited_upload_without_size() {
    let (mut upload, _) = SdoUpload::start(5, SdoAddress::standard(), ObjectIndex::new(0x1000, 0), None);
    match upload.on_response(&frame(0x585, &[0x42, 0, 0x10, 0, 1, 2, 3, 4])) {
        UploadStep::Done(d) => {
            assert_eq!(d, vec![1, 2, 3, 4]);
            assert_eq!(parse_u32(&d), 0x0403_0201);
        },
        other => panic!("unexpected step: {:?}", other),
    }
}

#[test]
fn expedited_download() {
    let (mut download, request) =
        SdoDownload::start(5, SdoAddress::standard(), ObjectIndex::new(0x6040, 0), vec![0x0F, 0x00]).unwrap();
    assert_eq!(request.id().as_u32(), 0x605);
    assert_eq!(bytes(&request), vec![0x2B, 0x40, 0x60, 0x00, 0x0F, 0x00, 0x00, 0x00]);
    assert!(matches!(download.on_response(&frame(0x585, &[0x60, 0x40, 0x60, 0, 0, 0, 0, 0])), DownloadStep::Done));
    let (mut download, _) =
        SdoDownload::start(5, SdoAddress::standard(), ObjectIndex::new(0x6040, 0), vec![1]).unwrap();
    assert!(matches!(
        download.on_response(&frame(0x585, &[0x80, 0x40, 0x60, 0, 0x02, 0x00, 0x01, 0x06])),
        DownloadStep::Abort(_, SdoError::TransferAborted(_))
    ));
    assert_eq!(le_bytes(0x0102_0304, 4), vec![4, 3, 2, 1]);
    assert_eq!(parse_u8(&[0xAB]), 0xAB);
}

#[test]
fn sdo_addresses() {
    let address = SdoAddress::new(0x600, 0x580).unwrap();
    assert_eq!(address.command_id(0x7F).as_u16(), 0x67F);
    assert_eq!(address.response_id(0x7F).as_u16(), 0x5FF);
    assert_eq!(address.command_address(), 0x600);
    assert_eq!(address.response_address(), 0x580);
    assert!(SdoAddress::new(0x800, 0x580).is_err());
    assert!(SdoAddress::new(0x600, 0x1000).is_err());
    assert!(is_response_from(&frame(0x585, &[0; 8]), SdoAddress::standard().response_id(5)));
    assert!(!is_response_from(&frame(0x586, &[0; 8]), SdoAddress::standard().response_id(5)));
    let id = StandardId::new(0x185).unwrap();
    assert_eq!(id.function_code(), 0x180);
    assert_eq!(id.node_id(), 5);
}

#[test]
fn abort_reasons() {
    assert_eq!(abort_reason(0x0800_0000), Ok(AbortReason::GeneralError));
    assert_eq!(AbortReason::from_u32(0x0503_0000), Ok(AbortReason::ToggleBitNotAlternated));
    assert_eq!(AbortReason::from_u32(1), Err(1));
    assert_eq!(AbortReason::NoDataAvailable.to_u32(), 0x0800_0024);
    assert!(check_server_command(&frame(0x585, &[0x60, 0, 0, 0, 0, 0, 0, 0]), ServerCommand::InitiateDownload).is_ok());
}

#[test]
fn nmt_frames() {
    assert_eq!(bytes(&nmt_command_frame(0x10, NmtCommand::ResetCommunication)), vec![0x82, 0x10]);
    assert_eq!(heartbeat_id(5).as_u16(), 0x705);
    assert_eq!(parse_heartbeat(&frame(0x705, &[0x04])).unwrap(), NmtState::Stopped);
    assert!(matches!(parse_heartbeat(&frame(0x705, &[0x04, 0x00])), Err(NmtError::MalformedResponse)));
    assert!(matches!(parse_heartbeat(&frame(0x705, &[0x03])), Err(NmtError::MalformedResponse)));
    assert_eq!(NmtCommand::Reset.expected_state(), NmtState::Initializing);
    assert_eq!(NmtState::PreOperational.to_u8(), 0x7F);
    let sync = sync_frame(Some(7));
    assert_eq!(sync.id().as_u32(), 0x80);
    assert_eq!(bytes(&sync), vec![7]);
    assert!(sync_frame(None).data().unwrap().is_empty());
}

#[test]
fn access_types_and_values() {
    assert_eq!(AccessType::from_str("RW"), AccessType::new(true, true));
    assert_eq!(AccessType::from_str("ro"), AccessType::new(true, false));
    assert_eq!(AccessType::from_str("wO"), AccessType::new(false, true));
    assert_eq!(AccessType::from_str("const"), AccessType::new(false, false));
    assert!(AccessType::from_str("rw").is_writable());
    assert!(!AccessType::from_str("wo").is_readable());
    let mut v = Value::from_bytes(&[1, 2, 3]);
    assert_eq!(v.as_slice(), [1, 2, 3]);
    v.set_data(vec![4]);
    assert_eq!(v.as_slice(), [4]);
    assert_eq!(CanData::try_new(&[1, 2]).unwrap(), CanData::new([1, 2]));
}

#[test]
fn little_endian_scalars() {
    assert_eq!(parse_i8(&[0xFF]), -1);
    assert_eq!(parse_i8(&[0x7F]), 127);
    assert_eq!(parse_i16(&[0x00, 0x80]), i16::MIN);
    assert_eq!(parse_i16(&[0x37]), 0x37);
    assert_eq!(parse_i32(&[0xFE, 0xFF, 0xFF, 0xFF]), -2);
    assert_eq!(parse_i64(&[0xFF; 8]), -1);
    assert_eq!(parse_i64(&[0, 0, 0, 0, 0, 0, 0, 0x80]), i64::MIN);
    assert_eq!(parse_u64(&[1, 2, 3, 4, 5, 6, 7, 8]), 0x0807_0605_0403_0201);
    for (value, size) in [(0u64, 0usize), (0x1234, 2), (0xDEAD_BEEF, 4), (u64::MAX, 8), (0x0102_0304, 2)] {
        let bytes = le_bytes(value, size);
        assert_eq!(bytes.len(), size);
        let modulus = if size == 8 { u128::from(u64::MAX) + 1 } else { 1u128 << (8 * size) };
        assert_eq!(u128::from(parse_u64(&bytes)), u128::from(value) % modulus);
    }
    assert_eq!(parse_u16(&le_bytes(0xBEEF, 2)), 0xBEEF);
}
