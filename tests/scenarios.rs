use can_socket::download::{DownloadStep, SdoDownload};
use can_socket::filter::CanFilter;
use can_socket::nmt::{check_command_response, nmt_command_frame};
use can_socket::pdo_config::{mapping_from_values, tpdo_mapping_object};
use can_socket::scalar::parse_u16;
use can_socket::upload::{SdoUpload, UploadStep};
use can_socket::{
    AbortReason, CanData, CanFrame, CanId, ExtendedId, NmtCommand, NmtError, NmtState, ObjectIndex,
    PdoMapping, SdoAddress, SdoError, StandardId, UnexpectedState,
};

fn frame(id: u32, data: &[u8]) -> CanFrame {
    CanFrame::try_new(id, data).unwrap()
}

fn bytes(f: &CanFrame) -> Vec<u8> {
    f.data().unwrap().as_slice().to_vec()
}

#[test]
fn expedited_upload_of_u16() {
    let (mut upload, request) = SdoUpload::start(0x05, SdoAddress::standard(), ObjectIndex::new(0x6041, 0), Some(2));
    assert_eq!(request.id().as_u32(), 0x605);
    assert_eq!(bytes(&request), vec![0x40, 0x41, 0x60, 0x00, 0x00, 0x00, 0x00, 0x00]);
    let response = frame(0x585, &[0x4B, 0x41, 0x60, 0x00, 0x37, 0x06, 0x00, 0x00]);
    match upload.on_response(&response) {
        UploadStep::Done(data) => {
            assert_eq!(data, vec![0x37, 0x06]);
            assert_eq!(parse_u16(&data), 0x0637);
        },
        other => panic!("unexpected step: {:?}", other),
    }
}

#[test]
fn segmented_upload_of_ten_bytes() {
    let (mut upload, request) = SdoUpload::start(0x05, SdoAddress::standard(), ObjectIndex::new(0x1008, 0), None);
    assert_eq!(request.id().as_u32(), 0x605);
    assert_eq!(bytes(&request), vec![0x40, 0x08, 0x10, 0x00, 0, 0, 0, 0]);

    let step = upload.on_response(&frame(0x585, &[0x41, 0x08, 0x10, 0x00, 0x0A, 0, 0, 0]));
    let segment1 = match step {
        UploadStep::Send(f) => f,
        other => panic!("unexpected step: {:?}", other),
    };
    assert_eq!(segment1.id().as_u32(), 0x605);
    assert_eq!(bytes(&segment1), vec![0x60, 0, 0, 0, 0, 0, 0, 0]);

    let step = upload.on_response(&frame(0x585, &[0x00, 10, 11, 12, 13, 14, 15, 16]));
    let segment2 = match step {
        UploadStep::Send(f) => f,
        other => panic!("unexpected step: {:?}", other),
    };
    assert_eq!(bytes(&segment2), vec![0x70, 0, 0, 0, 0, 0, 0, 0]);

    // Toggle 1, four unused bytes, complete: 0b0001_1001.
    match upload.on_response(&frame(0x585, &[0x19, 17, 18, 19, 0, 0, 0, 0])) {
        UploadStep::Done(data) => assert_eq!(data, vec![10, 11, 12, 13, 14, 15, 16, 17, 18, 19]),
        other => panic!("unexpected step: {:?}", other),
    }
}

#[test]
fn segmented_upload_short_last_segment() {
    let (mut upload, _) = SdoUpload::start(0x05, SdoAddress::standard(), ObjectIndex::new(0x1008, 0), None);
    upload.on_response(&frame(0x585, &[0x41, 0x08, 0x10, 0x00, 0x0A, 0, 0, 0]));
    upload.on_response(&frame(0x585, &[0x00, 10, 11, 12, 13, 14, 15, 16]));
    // Byte 0x1B announces five unused bytes, so only two arrive: nine in all.
    match upload.on_response(&frame(0x585, &[0x1B, 17, 18, 19, 0, 0, 0, 0])) {
        UploadStep::Abort(abort, SdoError::WrongDataCount(e)) => {
            assert_eq!((e.expected, e.actual), (10, 9));
            assert_eq!(bytes(&abort), vec![0x80, 0x08, 0x10, 0x00, 0x00, 0x00, 0x00, 0x08]);
        },
        other => panic!("unexpected step: {:?}", other),
    }
}

#[test]
fn abort_from_server() {
    let (mut upload, _) = SdoUpload::start(0x05, SdoAddress::standard(), ObjectIndex::new(0x1008, 0), None);
    let response = frame(0x585, &[0x80, 0x08, 0x10, 0x00, 0x11, 0x00, 0x09, 0x06]);
    match upload.on_response(&response) {
        UploadStep::Abort(abort, SdoError::TransferAborted(e)) => {
            assert_eq!(e.reason, Ok(AbortReason::SubIndexDoesNotExist));
            assert_eq!(AbortReason::SubIndexDoesNotExist.to_u32(), 0x0609_0011);
            assert_eq!(abort.id().as_u32(), 0x605);
            assert_eq!(bytes(&abort), vec![0x80, 0x08, 0x10, 0x00, 0x00, 0x00, 0x00, 0x08]);
        },
        other => panic!("unexpected step: {:?}", other),
    }
}

#[test]
fn nmt_start() {
    let command = nmt_command_frame(0x05, NmtCommand::Start);
    assert_eq!(command.id().as_u32(), 0x000);
    assert_eq!(bytes(&command), vec![0x01, 0x05]);
    assert!(check_command_response(NmtCommand::Start, &frame(0x705, &[0x05])).is_ok());
    match check_command_response(NmtCommand::Start, &frame(0x705, &[0x7F])) {
        Err(NmtError::UnexpectedState(e)) => assert_eq!(
            e,
            UnexpectedState { expected: NmtState::Operational, actual: NmtState::PreOperational }
        ),
        other => panic!("unexpected result: {:?}", other),
    }
}

#[test]
fn pdo_mapping_read() {
    assert_eq!(tpdo_mapping_object(0).unwrap(), 0x1A00);
    let mapping = mapping_from_values(&[0x6041_0010, 0x6043_0010, 0x2039_0520]);
    assert_eq!(
        mapping,
        vec![
            PdoMapping { object: ObjectIndex::new(0x6041, 0), bit_length: 16 },
            PdoMapping { object: ObjectIndex::new(0x6043, 0), bit_length: 16 },
            PdoMapping { object: ObjectIndex::new(0x2039, 5), bit_length: 32 },
        ]
    );
}

#[test]
fn filter_semantics() {
    let filter = CanFilter::new(CanId::new_extended(0x1200).unwrap())
        .match_id_mask(0xFFFF_FF00)
        .match_frame_format();
    let extended = |id: u32| CanFrame::new(CanId::Extended(ExtendedId::new(id).unwrap()), CanData::new([1]));
    let standard = |id: u16| CanFrame::new(CanId::Standard(StandardId::new(id).unwrap()), CanData::new([1]));
    assert!(filter.test(&extended(0x1200)));
    assert!(filter.test(&extended(0x12FF)));
    assert!(filter.test(&extended(0x1234)));
    assert!(!filter.test(&extended(0x1300)));
    assert!(!filter.test(&extended(0x11FF)));
    assert!(!filter.test(&standard(0x200)));
    assert!(!filter.test(&standard(0x000)));
}

#[test]
fn segmented_download() {
    let data: Vec<u8> = (1..=10).collect();
    let (mut download, request) = SdoDownload::start(0x05, SdoAddress::standard(), ObjectIndex::new(0x2000, 1), data).unwrap();
    assert_eq!(bytes(&request), vec![0x21, 0x00, 0x20, 0x01, 10, 0, 0, 0]);
    let first = match download.on_response(&frame(0x585, &[0x60, 0x00, 0x20, 0x01, 0, 0, 0, 0])) {
        DownloadStep::Send(f) => f,
        other => panic!("unexpected step: {:?}", other),
    };
    assert_eq!(bytes(&first), vec![0x00, 1, 2, 3, 4, 5, 6, 7]);
    let second = match download.on_response(&frame(0x585, &[0x20, 0, 0, 0, 0, 0, 0, 0])) {
        DownloadStep::Send(f) => f,
        other => panic!("unexpected step: {:?}", other),
    };
    assert_eq!(bytes(&second), vec![0x19, 8, 9, 10, 0, 0, 0, 0]);
    assert!(matches!(download.on_response(&frame(0x585, &[0x30, 0, 0, 0, 0, 0, 0, 0])), DownloadStep::Done));
}
