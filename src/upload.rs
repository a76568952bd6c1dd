//! SDO upload (reading an object from a server): the responses and the
//! client's state between them.

use vstd::prelude::*;
use crate::frame::{CanData, CanFrame, CanFrameView};
use crate::object::{ObjectIndex, SdoAddress, node_address};
use crate::sdo::{
    abort_request, check_server_command, from_le32, initiate_upload_request, le32, object_bytes,
    sdo_frame_view, spec_check_response, u32_from_le, upload_segment_request,
};
use crate::sdo_error::{AbortReason, BufferTooSmall, SdoError, ServerCommand, WrongDataCount};

verus! {

/// What the server's answer to an initiate upload request announces.
pub ghost enum InitiateUploadView {
    /// The data itself, in the response.
    Expedited(Seq<u8>),
    /// The number of bytes that the segments will carry.
    Segmented(u32),
}

/// What the server's answer to an initiate upload request announces.
#[derive(Debug, Clone, Copy)]
pub enum InitiateUploadResponse {
    /// The data itself, in the response.
    Expedited(CanData),
    /// The number of bytes that the segments will carry.
    Segmented(u32),
}

impl View for InitiateUploadResponse {
    type V = InitiateUploadView;

    open spec fn view(&self) -> InitiateUploadView {
        match self {
            InitiateUploadResponse::Expedited(d) => InitiateUploadView::Expedited(d@),
            InitiateUploadResponse::Segmented(n) => InitiateUploadView::Segmented(*n),
        }
    }
}

/// What a response to an initiate upload request gives.
///
/// Byte 0 holds the expedited flag (bit 1), the size flag (bit 0) and, for
/// an expedited response with size, the number of unused bytes (bits 3:2).
pub open spec fn spec_initiate_upload(frame: CanFrameView) -> Result<InitiateUploadView, SdoError> {
    match spec_check_response(frame, ServerCommand::InitiateUpload) {
        Err(e) => Err(e),
        Ok(d) => {
            let n = (d[0] / 4) % 4;
            let expedited = (d[0] / 2) % 2 == 1;
            let size_set = d[0] % 2 == 1;
            if expedited {
                let len = if size_set { 4 - n } else { 4 };
                Ok(InitiateUploadView::Expedited(d.subrange(4, 4 + len)))
            } else if !size_set {
                Err(SdoError::NoExpeditedOrSizeFlag)
            } else {
                Ok(InitiateUploadView::Segmented(from_le32(d.subrange(4, 8))))
            }
        },
    }
}

/// What a response to an upload segment request gives: whether it is the
/// last segment, and its data.
///
/// Byte 0 holds the toggle bit (bit 4), the number of unused bytes (bits
/// 3:1) and the completion bit (bit 0).
pub open spec fn spec_segment_upload(frame: CanFrameView, toggle: bool) -> Result<(bool, Seq<u8>), SdoError> {
    match spec_check_response(frame, ServerCommand::SegmentUpload) {
        Err(e) => Err(e),
        Ok(d) => {
            let t = (d[0] / 16) % 2 == 1;
            let n = (d[0] / 2) % 8;
            let complete = d[0] % 2 == 1;
            if t != toggle {
                Err(SdoError::InvalidToggleFlag)
            } else {
                Ok((complete, d.subrange(1, 8 - n)))
            }
        },
    }
}

/// The bytes of `d` from `start` up to `end`, as a payload.
fn bytes_between(d: &[u8; 8], start: usize, end: usize) -> (r: CanData)
    requires
        start <= end <= 8,
    ensures
        r@ == d@.subrange(start as int, end as int),
{
    match CanData::try_new(vstd::slice::slice_subrange(d.as_slice(), start, end)) {
        Ok(p) => p,
        Err(_) => CanData::empty(),
    }
}

/// Read the server's response to an upload segment request, where the
/// toggle bit `toggle` is expected.
pub fn parse_segment_upload_response(frame: &CanFrame, toggle: bool) -> (r: Result<(bool, CanData), SdoError>)
    ensures
        match spec_segment_upload(frame@, toggle) {
            Ok(v) => r is Ok && r->Ok_0.0 == v.0 && r->Ok_0.1@ == v.1,
            Err(e) => r is Err && r->Err_0 == e,
        },
{
    let d = match check_server_command(frame, ServerCommand::SegmentUpload) {
        Ok(d) => d,
        Err(e) => return Err(e),
    };
    let t = (d[0] / 16) % 2 == 1;
    let n = (d[0] / 2) % 8;
    let complete = d[0] % 2 == 1;
    if t != toggle {
        return Err(SdoError::InvalidToggleFlag);
    }
    Ok((complete, bytes_between(&d, 1, 8 - n as usize)))
}

/// Read the server's response to an initiate upload request.
pub fn parse_initiate_upload_response(frame: &CanFrame) -> (r: Result<InitiateUploadResponse, SdoError>)
    ensures
        match spec_initiate_upload(frame@) {
            Ok(v) => r is Ok && r->Ok_0@ == v,
            Err(e) => r is Err && r->Err_0 == e,
        },
{
    let d = match check_server_command(frame, ServerCommand::InitiateUpload) {
        Ok(d) => d,
        Err(e) => return Err(e),
    };
    let n = (d[0] / 4) % 4;
    let expedited = (d[0] / 2) % 2 == 1;
    let size_set = d[0] % 2 == 1;
    if expedited {
        let len: usize = if size_set { 4 - n as usize } else { 4 };
        let part = bytes_between(&d, 4, 4 + len);
        Ok(InitiateUploadResponse::Expedited(part))
    } else if !size_set {
        Err(SdoError::NoExpeditedOrSizeFlag)
    } else {
        assert(d@.subrange(4, 8) =~= seq![d[4], d[5], d[6], d[7]]);
        Ok(InitiateUploadResponse::Segmented(u32_from_le(d[4], d[5], d[6], d[7])))
    }
}

/// The client's side of an upload in progress.
pub ghost struct SdoUploadView {
    pub node_id: u8,
    pub address: SdoAddress,
    pub object: ObjectIndex,
    /// The most bytes that the destination holds; `None` where it grows.
    pub capacity: Option<usize>,
    /// The length that the server announced for a segmented transfer.
    pub total: Option<u32>,
    /// The toggle bit of the segment that was last requested.
    pub toggle: bool,
    /// The data received so far.
    pub data: Seq<u8>,
}

/// What the client does next in a transfer.
pub ghost enum StepView {
    /// Send this frame and await the response.
    Send(CanFrameView),
    /// The transfer is complete, with these bytes.
    Done(Seq<u8>),
    /// The transfer failed: send this abort frame and report the error.
    Abort(CanFrameView, SdoError),
}

/// What the client does next in an upload.
#[derive(Debug)]
pub enum UploadStep {
    /// Send this frame and hand the response to [`SdoUpload::on_response`].
    Send(CanFrame),
    /// The upload is complete, with these bytes.
    Done(Vec<u8>),
    /// The upload failed: send this abort frame and report the error.
    Abort(CanFrame, SdoError),
}

impl View for UploadStep {
    type V = StepView;

    open spec fn view(&self) -> StepView {
        match self {
            UploadStep::Send(f) => StepView::Send(f@),
            UploadStep::Done(d) => StepView::Done(d@),
            UploadStep::Abort(f, e) => StepView::Abort(f@, *e),
        }
    }
}

/// The abort frame with the general error code (0x0800_0000) for a transfer.
pub open spec fn general_abort_view(node_id: u8, address: SdoAddress, object: ObjectIndex) -> CanFrameView {
    sdo_frame_view(
        node_address(address.spec_command_address(), node_id),
        seq![0x80u8] + object_bytes(object) + le32(0x0800_0000),
    )
}

/// The request for an upload segment with the given toggle bit.
pub open spec fn segment_request_view(node_id: u8, address: SdoAddress, toggle: bool) -> CanFrameView {
    sdo_frame_view(
        node_address(address.spec_command_address(), node_id),
        seq![if toggle { 0x70u8 } else { 0x60u8 }, 0u8, 0u8, 0u8, 0u8, 0u8, 0u8, 0u8],
    )
}

/// The state after a response and what the client does next.
pub open spec fn spec_upload_step(s: SdoUploadView, frame: CanFrameView) -> (SdoUploadView, StepView) {
    let abort = general_abort_view(s.node_id, s.address, s.object);
    match s.total {
        None => match spec_initiate_upload(frame) {
            Err(e) => (s, StepView::Abort(abort, e)),
            Ok(InitiateUploadView::Expedited(d)) => if s.capacity is Some && d.len() > s.capacity->Some_0 {
                (s, StepView::Abort(abort, SdoError::BufferTooSmall(BufferTooSmall { available: s.capacity->Some_0, needed: d.len() as usize })))
            } else {
                (s, StepView::Done(d))
            },
            Ok(InitiateUploadView::Segmented(n)) => if s.capacity is Some && n > s.capacity->Some_0 {
                (s, StepView::Abort(abort, SdoError::BufferTooSmall(BufferTooSmall { available: s.capacity->Some_0, needed: n as usize })))
            } else {
                (SdoUploadView { total: Some(n), toggle: false, ..s }, StepView::Send(segment_request_view(s.node_id, s.address, false)))
            },
        },
        Some(n) => match spec_segment_upload(frame, s.toggle) {
            Err(e) => (s, StepView::Abort(abort, e)),
            Ok((complete, seg)) => {
                let sum = s.data.len() + seg.len();
                if sum > n {
                    (s, StepView::Abort(abort, SdoError::WrongDataCount(WrongDataCount { expected: n as u64, actual: sum as u64 })))
                } else if complete && sum != n {
                    (s, StepView::Abort(abort, SdoError::WrongDataCount(WrongDataCount { expected: n as u64, actual: sum as u64 })))
                } else if complete {
                    (SdoUploadView { data: s.data + seg, ..s }, StepView::Done(s.data + seg))
                } else {
                    (SdoUploadView { toggle: !s.toggle, data: s.data + seg, ..s }, StepView::Send(segment_request_view(s.node_id, s.address, !s.toggle)))
                }
            },
        },
    }
}

/// A segmented upload completes only with exactly the number of bytes that
/// the server announced, and every segment request alternates the toggle bit.
pub proof fn lemma_segmented_upload_steps(s: SdoUploadView, frame: CanFrameView)
    requires
        s.total is Some,
        s.data.len() <= s.total->Some_0,
    ensures
        spec_upload_step(s, frame).1 matches StepView::Done(d) ==> d.len() == s.total->Some_0,
        spec_upload_step(s, frame).1 is Send ==> spec_upload_step(s, frame).0.toggle == !s.toggle,
        spec_upload_step(s, frame).0.data.len() <= s.total->Some_0,
{
}

/// The client's side of an upload in progress: the toggle bit alternates
/// from 0, and the data may not exceed what the server announced.
pub struct SdoUpload {
    node_id: u8,
    address: SdoAddress,
    object: ObjectIndex,
    capacity: Option<usize>,
    total: Option<u32>,
    toggle: bool,
    data: Vec<u8>,
}

impl View for SdoUpload {
    type V = SdoUploadView;

    closed spec fn view(&self) -> SdoUploadView {
        SdoUploadView {
            node_id: self.node_id,
            address: self.address,
            object: self.object,
            capacity: self.capacity,
            total: self.total,
            toggle: self.toggle,
            data: self.data@,
        }
    }
}

impl SdoUpload {
    /// Whether the state is one that a transfer can reach.
    pub open spec fn wf(&self) -> bool {
        match self@.total {
            None => self@.data.len() == 0,
            Some(n) => self@.data.len() <= n,
        }
    }

    /// Start an upload of `object` from node `node_id`: the state, and the
    /// initiate request to send.
    ///
    /// `capacity` bounds the data where the destination is of fixed size.
    pub fn start(node_id: u8, address: SdoAddress, object: ObjectIndex, capacity: Option<usize>) -> (r: (Self, CanFrame))
        ensures
            r.0.wf(),
            r.0@ == (SdoUploadView { node_id, address, object, capacity, total: None, toggle: false, data: Seq::empty() }),
            r.1@ == sdo_frame_view(
                node_address(address.spec_command_address(), node_id),
                seq![0x40u8] + object_bytes(object) + seq![0u8, 0u8, 0u8, 0u8],
            ),
    {
        let request = initiate_upload_request(node_id, address, object);
        (SdoUpload { node_id, address, object, capacity, total: None, toggle: false, data: Vec::new() }, request)
    }

    /// The frame that aborts this transfer with the general error code.
    pub fn abort_frame(&self) -> (r: CanFrame)
        ensures
            r@ == general_abort_view(self@.node_id, self@.address, self@.object),
    {
        abort_request(self.node_id, self.address, self.object, AbortReason::GeneralError.to_u32())
    }

    /// Take the server's response to the last request.
    pub fn on_response(&mut self, frame: &CanFrame) -> (r: UploadStep)
        requires
            old(self).wf(),
        ensures
            final(self).wf(),
            (final(self)@, r@) == spec_upload_step(old(self)@, frame@),
    {
        match self.total {
            None => match parse_initiate_upload_response(frame) {
                Err(e) => UploadStep::Abort(self.abort_frame(), e),
                Ok(InitiateUploadResponse::Expedited(d)) => {
                    if let Some(c) = self.capacity {
                        if d.len() > c {
                            return UploadStep::Abort(
                                self.abort_frame(),
                                SdoError::BufferTooSmall(BufferTooSmall { available: c, needed: d.len() }),
                            );
                        }
                    }
                    UploadStep::Done(slice_to_vec(d.as_slice()))
                },
                Ok(InitiateUploadResponse::Segmented(n)) => {
                    if let Some(c) = self.capacity {
                        if n as u64 > c as u64 {
                            return UploadStep::Abort(
                                self.abort_frame(),
                                SdoError::BufferTooSmall(BufferTooSmall { available: c, needed: n as usize }),
                            );
                        }
                    }
                    self.total = Some(n);
                    self.toggle = false;
                    UploadStep::Send(upload_segment_request(self.address, self.node_id, false))
                },
            },
            Some(n) => match parse_segment_upload_response(frame, self.toggle) {
                Err(e) => UploadStep::Abort(self.abort_frame(), e),
                Ok((complete, seg)) => {
                    let sum: u64 = self.data.len() as u64 + seg.len() as u64;
                    if sum > n as u64 || (complete && sum != n as u64) {
                        return UploadStep::Abort(
                            self.abort_frame(),
                            SdoError::WrongDataCount(WrongDataCount { expected: n as u64, actual: sum }),
                        );
                    }
                    append_bytes(&mut self.data, seg.as_slice());
                    if complete {
                        UploadStep::Done(slice_to_vec(self.data.as_slice()))
                    } else {
                        self.toggle = !self.toggle;
                        UploadStep::Send(upload_segment_request(self.address, self.node_id, self.toggle))
                    }
                },
            },
        }
    }
}

/// Append the bytes of `s` to `v`.
pub fn append_bytes(v: &mut Vec<u8>, s: &[u8])
    ensures
        final(v)@ == old(v)@ + s@,
{
    let mut i: usize = 0;
    while i < s.len()
        invariant
            i <= s@.len(),
            v@ == old(v)@ + s@.subrange(0, i as int),
        decreases s@.len() - i,
    {
        v.push(s[i]);
        i = i + 1;
        assert(v@ =~= old(v)@ + s@.subrange(0, i as int));
    }
    assert(s@.subrange(0, i as int) =~= s@);
}

/// A copy of the bytes of a slice.
fn slice_to_vec(s: &[u8]) -> (r: Vec<u8>)
    ensures
        r@ == s@,
{
    let mut r: Vec<u8> = Vec::new();
    let mut i: usize = 0;
    while i < s.len()
        invariant
            i <= s@.len(),
            r@ == s@.subrange(0, i as int),
        decreases s@.len() - i,
    {
        r.push(s[i]);
        i = i + 1;
        assert(r@ =~= s@.subrange(0, i as int));
    }
    assert(r@ =~= s@);
    r
}

} // verus!
