//! The frames of SDO transfers: building requests and reading responses.

use vstd::prelude::*;
use crate::frame::{CanData, CanFrame, CanFrameView};
use crate::id::{CanId, StandardId};
use crate::object::{ObjectIndex, SdoAddress, node_address};
use crate::sdo_error::{
    AbortReason, MalformedResponse, SdoError, ServerCommand, TransferAborted, UnexpectedResponse,
};

verus! {

/// The view of a data frame with 8 bytes on a standard ID.
pub open spec fn sdo_frame_view(id: u16, bytes: Seq<u8>) -> CanFrameView {
    CanFrameView { id: CanId::Standard(StandardId::spec_from(id)), rtr: false, data: bytes, dlc: 8 }
}

/// The little-endian bytes of a 16 bit value.
pub open spec fn le16(v: u16) -> Seq<u8> {
    seq![(v % 256) as u8, (v / 256) as u8]
}

/// The little-endian bytes of a 32 bit value.
pub open spec fn le32(v: u32) -> Seq<u8> {
    seq![(v % 256) as u8, ((v / 256) % 256) as u8, ((v / 65536) % 256) as u8, (v / 16777216) as u8]
}

/// The value of four little-endian bytes.
pub open spec fn from_le32(b: Seq<u8>) -> u32 {
    (b[0] + 256 * b[1] + 65536 * b[2] + 16777216 * b[3]) as u32
}

/// Bytes 1 to 3 of an SDO frame: the object's index (little endian) and subindex.
pub open spec fn object_bytes(object: ObjectIndex) -> Seq<u8> {
    le16(object.index).push(object.subindex)
}

/// Read a 32 bit little-endian value from four bytes.
pub fn u32_from_le(b0: u8, b1: u8, b2: u8, b3: u8) -> (r: u32)
    ensures
        r == from_le32(seq![b0, b1, b2, b3]),
{
    b0 as u32 + 256 * (b1 as u32) + 65536 * (b2 as u32) + 16777216 * (b3 as u32)
}

/// A data frame with 8 bytes on a standard ID.
fn sdo_frame(id: StandardId, bytes: [u8; 8]) -> (r: CanFrame)
    ensures
        r@ == sdo_frame_view(id@, bytes@),
{
    proof {
        StandardId::lemma_from_view(id);
    }
    CanFrame::new(CanId::Standard(id), CanData::new(bytes))
}

/// The request that starts an upload of `object` from node `node_id`.
pub fn initiate_upload_request(node_id: u8, sdo: SdoAddress, object: ObjectIndex) -> (r: CanFrame)
    ensures
        r@ == sdo_frame_view(
            node_address(sdo.spec_command_address(), node_id),
            seq![0x40u8] + object_bytes(object) + seq![0u8, 0u8, 0u8, 0u8],
        ),
{
    let bytes: [u8; 8] = [
        0x40,
        (object.index % 256) as u8,
        (object.index / 256) as u8,
        object.subindex,
        0,
        0,
        0,
        0,
    ];
    let r = sdo_frame(sdo.command_id(node_id), bytes);
    assert(bytes@ =~= seq![0x40u8] + object_bytes(object) + seq![0u8, 0u8, 0u8, 0u8]);
    r
}

/// The request for the next segment of an upload.
pub fn upload_segment_request(sdo: SdoAddress, node_id: u8, toggle: bool) -> (r: CanFrame)
    ensures
        r@ == sdo_frame_view(
            node_address(sdo.spec_command_address(), node_id),
            seq![if toggle { 0x70u8 } else { 0x60u8 }, 0u8, 0u8, 0u8, 0u8, 0u8, 0u8, 0u8],
        ),
{
    let b0: u8 = if toggle { 0x70 } else { 0x60 };
    let bytes: [u8; 8] = [b0, 0, 0, 0, 0, 0, 0, 0];
    let r = sdo_frame(sdo.command_id(node_id), bytes);
    assert(bytes@ =~= seq![b0, 0u8, 0u8, 0u8, 0u8, 0u8, 0u8, 0u8]);
    r
}

/// The byte at `i` of `data`, or 0 past its end.
pub open spec fn byte_or_zero(data: Seq<u8>, i: int) -> u8 {
    if 0 <= i < data.len() {
        data[i]
    } else {
        0
    }
}

fn get_or_zero(data: &[u8], i: usize) -> (r: u8)
    ensures
        r == byte_or_zero(data@, i as int),
{
    if i < data.len() {
        data[i]
    } else {
        0
    }
}

/// The request of an expedited download: up to 4 bytes in one frame.
pub fn expedited_download_request(
    node_id: u8,
    sdo: SdoAddress,
    object: ObjectIndex,
    data: &[u8],
) -> (r: CanFrame)
    requires
        data@.len() <= 4,
    ensures
        r@ == sdo_frame_view(
            node_address(sdo.spec_command_address(), node_id),
            seq![(0x23 + 4 * (4 - data@.len())) as u8] + object_bytes(object) + seq![
                byte_or_zero(data@, 0),
                byte_or_zero(data@, 1),
                byte_or_zero(data@, 2),
                byte_or_zero(data@, 3),
            ],
        ),
{
    let n = 4 - data.len() as u8;
    let bytes: [u8; 8] = [
        0x23 + 4 * n,
        (object.index % 256) as u8,
        (object.index / 256) as u8,
        object.subindex,
        get_or_zero(data, 0),
        get_or_zero(data, 1),
        get_or_zero(data, 2),
        get_or_zero(data, 3),
    ];
    let r = sdo_frame(sdo.command_id(node_id), bytes);
    assert(bytes@ =~= seq![(0x23 + 4 * (4 - data@.len())) as u8] + object_bytes(object) + seq![
        byte_or_zero(data@, 0),
        byte_or_zero(data@, 1),
        byte_or_zero(data@, 2),
        byte_or_zero(data@, 3),
    ]);
    r
}

/// The request that starts a segmented download of `len` bytes.
pub fn initiate_segmented_download_request(
    node_id: u8,
    sdo: SdoAddress,
    object: ObjectIndex,
    len: u32,
) -> (r: CanFrame)
    ensures
        r@ == sdo_frame_view(
            node_address(sdo.spec_command_address(), node_id),
            seq![0x21u8] + object_bytes(object) + le32(len),
        ),
{
    let bytes: [u8; 8] = [
        0x21,
        (object.index % 256) as u8,
        (object.index / 256) as u8,
        object.subindex,
        (len % 256) as u8,
        ((len / 256) % 256) as u8,
        ((len / 65536) % 256) as u8,
        (len / 16777216) as u8,
    ];
    let r = sdo_frame(sdo.command_id(node_id), bytes);
    assert(bytes@ =~= seq![0x21u8] + object_bytes(object) + le32(len));
    r
}

/// Byte 0 of a download segment: the toggle bit, the count of unused bytes
/// and the completion bit.
pub open spec fn segment_download_command(toggle: bool, len: nat, complete: bool) -> u8 {
    ((if toggle { 0x10int } else { 0int }) + 2 * (7 - len) + (if complete { 1int } else { 0int })) as u8
}

/// A segment of a download: up to 7 bytes.
pub fn segment_download_request(
    node_id: u8,
    sdo: SdoAddress,
    toggle: bool,
    complete: bool,
    data: &[u8],
) -> (r: CanFrame)
    requires
        data@.len() <= 7,
    ensures
        r@ == sdo_frame_view(
            node_address(sdo.spec_command_address(), node_id),
            seq![segment_download_command(toggle, data@.len(), complete)] + Seq::new(7, |i: int| byte_or_zero(data@, i)),
        ),
{
    let t: u8 = if toggle { 0x10 } else { 0 };
    let c: u8 = if complete { 1 } else { 0 };
    let n = 7 - data.len() as u8;
    let bytes: [u8; 8] = [
        t + 2 * n + c,
        get_or_zero(data, 0),
        get_or_zero(data, 1),
        get_or_zero(data, 2),
        get_or_zero(data, 3),
        get_or_zero(data, 4),
        get_or_zero(data, 5),
        get_or_zero(data, 6),
    ];
    let r = sdo_frame(sdo.command_id(node_id), bytes);
    assert(bytes@ =~= seq![segment_download_command(toggle, data@.len(), complete)] + Seq::new(7, |i: int| byte_or_zero(data@, i)));
    r
}

/// The frame that aborts a transfer, with a 32 bit abort code.
pub fn abort_request(node_id: u8, sdo: SdoAddress, object: ObjectIndex, code: u32) -> (r: CanFrame)
    ensures
        r@ == sdo_frame_view(
            node_address(sdo.spec_command_address(), node_id),
            seq![0x80u8] + object_bytes(object) + le32(code),
        ),
{
    let bytes: [u8; 8] = [
        0x80,
        (object.index % 256) as u8,
        (object.index / 256) as u8,
        object.subindex,
        (code % 256) as u8,
        ((code / 256) % 256) as u8,
        ((code / 65536) % 256) as u8,
        (code / 16777216) as u8,
    ];
    let r = sdo_frame(sdo.command_id(node_id), bytes);
    assert(bytes@ =~= seq![0x80u8] + object_bytes(object) + le32(code));
    r
}

/// The server command of a specifier of at most 4.
pub open spec fn server_command_of(code: u8) -> ServerCommand {
    if code == 0 {
        ServerCommand::SegmentUpload
    } else if code == 1 {
        ServerCommand::SegmentDownload
    } else if code == 2 {
        ServerCommand::InitiateUpload
    } else if code == 3 {
        ServerCommand::InitiateDownload
    } else {
        ServerCommand::AbortTransfer
    }
}

/// The abort reason that a code names, or the code itself.
pub open spec fn spec_abort_reason(code: u32) -> Result<AbortReason, u32> {
    if exists|a: AbortReason| #[trigger] a.spec_code() == code {
        Ok(choose|a: AbortReason| #[trigger] a.spec_code() == code)
    } else {
        Err(code)
    }
}

/// What a response frame gives where the server command `expected` is awaited:
/// its 8 data bytes, or the error it stands for.
pub open spec fn spec_check_response(frame: CanFrameView, expected: ServerCommand) -> Result<Seq<u8>, SdoError> {
    if frame.rtr {
        Err(SdoError::MalformedResponse(MalformedResponse::WrongFrameSize(0)))
    } else if frame.data.len() != 8 {
        Err(SdoError::MalformedResponse(MalformedResponse::WrongFrameSize(frame.data.len() as usize)))
    } else if frame.data[0] / 32 > 4 {
        Err(SdoError::MalformedResponse(MalformedResponse::InvalidServerCommand(frame.data[0] / 32)))
    } else if server_command_of(frame.data[0] / 32) == expected {
        Ok(frame.data)
    } else if frame.data[0] / 32 == 4 {
        Err(SdoError::TransferAborted(TransferAborted { reason: spec_abort_reason(from_le32(frame.data.subrange(4, 8))) }))
    } else {
        Err(SdoError::UnexpectedResponse(UnexpectedResponse { expected, actual: server_command_of(frame.data[0] / 32) }))
    }
}

/// The reason of an abort code, as [`spec_abort_reason`] gives it.
pub fn abort_reason(code: u32) -> (r: Result<AbortReason, u32>)
    ensures
        r == spec_abort_reason(code),
{
    let r = AbortReason::from_u32(code);
    proof {
        if let Ok(a) = r {
            let b = choose|b: AbortReason| #[trigger] b.spec_code() == code;
            assert(b.spec_code() == code);
            assert(a == b);
        }
    }
    r
}

/// Check that a response frame holds the server command `expected`, and
/// give its 8 data bytes.
///
/// An abort from the server gives [`SdoError::TransferAborted`] with its reason.
pub fn check_server_command(frame: &CanFrame, expected: ServerCommand) -> (r: Result<[u8; 8], SdoError>)
    ensures
        match spec_check_response(frame@, expected) {
            Ok(d) => r is Ok && r->Ok_0@ == d,
            Err(e) => r is Err && r->Err_0 == e,
        },
{
    let data = match frame.data() {
        Some(d) => d,
        None => return Err(SdoError::MalformedResponse(MalformedResponse::WrongFrameSize(0))),
    };
    if data.len() != 8 {
        return Err(SdoError::MalformedResponse(MalformedResponse::WrongFrameSize(data.len())));
    }
    let bytes = data.to_array();
    assert(bytes@ =~= frame@.data) by {
        assert(bytes@.subrange(0, 8) == frame@.data);
    }
    let code = bytes[0] / 32;
    let command = match ServerCommand::from_code(code) {
        Some(c) => c,
        None => return Err(SdoError::MalformedResponse(MalformedResponse::InvalidServerCommand(code))),
    };
    if command == expected {
        Ok(bytes)
    } else if code == 4 {
        let reason = abort_reason(u32_from_le(bytes[4], bytes[5], bytes[6], bytes[7]));
        assert(bytes@.subrange(4, 8) =~= seq![bytes[4], bytes[5], bytes[6], bytes[7]]);
        Err(SdoError::TransferAborted(TransferAborted { reason }))
    } else {
        Err(SdoError::UnexpectedResponse(UnexpectedResponse { expected, actual: command }))
    }
}

/// Whether a frame can be the response of a server on the ID `id`: a data
/// frame whose ID has the value of `id`.
pub fn is_response_from(frame: &CanFrame, id: StandardId) -> (r: bool)
    ensures
        r == (!frame@.rtr && frame@.id.value() == id@ as u32),
{
    !frame.is_rtr() && frame.id().as_u32() == id.as_u16() as u32
}

} // verus!
