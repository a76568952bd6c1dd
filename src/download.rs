//! SDO download (writing an object to a server): the responses and the
//! client's state between them.

use vstd::prelude::*;
use crate::frame::{CanFrame, CanFrameView};
use crate::object::{ObjectIndex, SdoAddress, node_address};
use crate::sdo::{
    abort_request, byte_or_zero, check_server_command, expedited_download_request,
    initiate_segmented_download_request, le32, object_bytes, sdo_frame_view,
    segment_download_command, segment_download_request, spec_check_response,
};
use crate::sdo_error::{AbortReason, DataLengthExceedsMaximum, SdoError, ServerCommand};
use crate::upload::{general_abort_view, StepView};

verus! {

/// What a response to a download segment gives, where the toggle bit
/// `toggle` is expected.
pub open spec fn spec_segment_download(frame: CanFrameView, toggle: bool) -> Result<(), SdoError> {
    match spec_check_response(frame, ServerCommand::SegmentDownload) {
        Err(e) => Err(e),
        Ok(d) => if ((d[0] / 16) % 2 == 1) != toggle {
            Err(SdoError::InvalidToggleFlag)
        } else {
            Ok(())
        },
    }
}

/// Read the server's response to a download segment.
pub fn parse_segment_download_response(frame: &CanFrame, toggle: bool) -> (r: Result<(), SdoError>)
    ensures
        match spec_segment_download(frame@, toggle) {
            Ok(()) => r is Ok,
            Err(e) => r is Err && r->Err_0 == e,
        },
{
    let d = match check_server_command(frame, ServerCommand::SegmentDownload) {
        Ok(d) => d,
        Err(e) => return Err(e),
    };
    if ((d[0] / 16) % 2 == 1) != toggle {
        return Err(SdoError::InvalidToggleFlag);
    }
    Ok(())
}

/// The client's side of a download in progress.
pub ghost struct SdoDownloadView {
    pub node_id: u8,
    pub address: SdoAddress,
    pub object: ObjectIndex,
    /// The bytes to write.
    pub data: Seq<u8>,
    /// Whether the initiate response is still awaited.
    pub initiating: bool,
    /// The end of the data sent in segments so far.
    pub offset: nat,
    /// The toggle bit of the segment that was last sent.
    pub toggle: bool,
}

/// The end of the segment that starts at `offset`: 7 bytes on, or the end of the data.
pub open spec fn segment_end(len: nat, offset: nat) -> nat {
    if offset + 7 < len {
        offset + 7
    } else {
        len
    }
}

/// The segment of `data` from `offset` on, with the given toggle bit; the
/// completion bit is set on the last one.
pub open spec fn download_segment_view(node_id: u8, address: SdoAddress, data: Seq<u8>, offset: nat, toggle: bool) -> CanFrameView {
    let end = segment_end(data.len(), offset);
    let part = data.subrange(offset as int, end as int);
    sdo_frame_view(
        node_address(address.spec_command_address(), node_id),
        seq![segment_download_command(toggle, part.len(), end == data.len())] + Seq::new(7, |i: int| byte_or_zero(part, i)),
    )
}

/// The request that starts a download of `data`: expedited for at most 4
/// bytes, segmented with the length otherwise.
pub open spec fn download_request_view(node_id: u8, address: SdoAddress, object: ObjectIndex, data: Seq<u8>) -> CanFrameView {
    let id = node_address(address.spec_command_address(), node_id);
    if data.len() <= 4 {
        sdo_frame_view(
            id,
            seq![(0x23 + 4 * (4 - data.len())) as u8] + object_bytes(object) + seq![
                byte_or_zero(data, 0),
                byte_or_zero(data, 1),
                byte_or_zero(data, 2),
                byte_or_zero(data, 3),
            ],
        )
    } else {
        sdo_frame_view(id, seq![0x21u8] + object_bytes(object) + le32(data.len() as u32))
    }
}

/// The state after a response and what the client does next.
pub open spec fn spec_download_step(s: SdoDownloadView, frame: CanFrameView) -> (SdoDownloadView, StepView) {
    let abort = general_abort_view(s.node_id, s.address, s.object);
    if s.initiating {
        match spec_check_response(frame, ServerCommand::InitiateDownload) {
            Err(e) => (s, StepView::Abort(abort, e)),
            Ok(_) => if s.data.len() <= 4 {
                (SdoDownloadView { initiating: false, offset: s.data.len(), ..s }, StepView::Done(Seq::empty()))
            } else {
                (
                    SdoDownloadView { initiating: false, offset: segment_end(s.data.len(), 0), toggle: false, ..s },
                    StepView::Send(download_segment_view(s.node_id, s.address, s.data, 0, false)),
                )
            },
        }
    } else {
        match spec_segment_download(frame, s.toggle) {
            Err(e) => (s, StepView::Abort(abort, e)),
            Ok(()) => if s.offset >= s.data.len() {
                (s, StepView::Done(Seq::empty()))
            } else {
                (
                    SdoDownloadView { offset: segment_end(s.data.len(), s.offset), toggle: !s.toggle, ..s },
                    StepView::Send(download_segment_view(s.node_id, s.address, s.data, s.offset, !s.toggle)),
                )
            },
        }
    }
}

/// After the initiate response, a download completes only once every byte
/// has gone out, and each further segment starts where the last one ended,
/// with the toggle bit flipped.
pub proof fn lemma_segmented_download_steps(s: SdoDownloadView, frame: CanFrameView)
    requires
        !s.initiating,
        s.offset <= s.data.len(),
    ensures
        spec_download_step(s, frame).1 is Done ==> s.offset == s.data.len(),
        spec_download_step(s, frame).1 is Send ==> {
            let t = spec_download_step(s, frame).0;
            &&& s.offset < t.offset <= s.data.len()
            &&& t.toggle == !s.toggle
        },
{
}

/// What the client does next in a download.
#[derive(Debug)]
pub enum DownloadStep {
    /// Send this frame and hand the response to [`SdoDownload::on_response`].
    Send(CanFrame),
    /// The download is complete.
    Done,
    /// The download failed: send this abort frame and report the error.
    Abort(CanFrame, SdoError),
}

impl View for DownloadStep {
    type V = StepView;

    open spec fn view(&self) -> StepView {
        match self {
            DownloadStep::Send(f) => StepView::Send(f@),
            DownloadStep::Done => StepView::Done(Seq::empty()),
            DownloadStep::Abort(f, e) => StepView::Abort(f@, *e),
        }
    }
}

/// The client's side of a download in progress: segments of 7 bytes go out
/// in order, with the toggle bit alternating from 0.
pub struct SdoDownload {
    node_id: u8,
    address: SdoAddress,
    object: ObjectIndex,
    data: Vec<u8>,
    initiating: bool,
    offset: usize,
    toggle: bool,
}

impl View for SdoDownload {
    type V = SdoDownloadView;

    closed spec fn view(&self) -> SdoDownloadView {
        SdoDownloadView {
            node_id: self.node_id,
            address: self.address,
            object: self.object,
            data: self.data@,
            initiating: self.initiating,
            offset: self.offset as nat,
            toggle: self.toggle,
        }
    }
}

impl SdoDownload {
    /// Whether the state is one that a transfer can reach.
    pub open spec fn wf(&self) -> bool {
        &&& self@.offset <= self@.data.len()
        &&& self@.data.len() <= u32::MAX
        &&& self@.initiating ==> self@.offset == 0
    }

    /// Start a download of `data` to `object` of node `node_id`: the state,
    /// and the initiate request to send.
    ///
    /// Data of more than `u32::MAX` bytes cannot be announced and is refused.
    pub fn start(node_id: u8, address: SdoAddress, object: ObjectIndex, data: Vec<u8>) -> (r: Result<(Self, CanFrame), SdoError>)
        ensures
            match r {
                Ok((s, f)) => s.wf() && data@.len() <= u32::MAX
                    && s@ == (SdoDownloadView { node_id, address, object, data: data@, initiating: true, offset: 0, toggle: false })
                    && f@ == download_request_view(node_id, address, object, data@),
                Err(e) => data@.len() > u32::MAX
                    && e == SdoError::DataLengthExceedsMaximum(DataLengthExceedsMaximum { data_len: data@.len() as usize }),
            },
    {
        let request = if data.len() <= 4 {
            expedited_download_request(node_id, address, object, data.as_slice())
        } else if data.len() as u64 > u32::MAX as u64 {
            return Err(SdoError::DataLengthExceedsMaximum(DataLengthExceedsMaximum { data_len: data.len() }));
        } else {
            initiate_segmented_download_request(node_id, address, object, data.len() as u32)
        };
        Ok((SdoDownload { node_id, address, object, data, initiating: true, offset: 0, toggle: false }, request))
    }

    /// The frame that aborts this transfer with the general error code.
    pub fn abort_frame(&self) -> (r: CanFrame)
        ensures
            r@ == general_abort_view(self@.node_id, self@.address, self@.object),
    {
        abort_request(self.node_id, self.address, self.object, AbortReason::GeneralError.to_u32())
    }

    /// The segment from `self.offset` on, with the given toggle bit, and its end.
    fn segment(&self, toggle: bool) -> (r: (CanFrame, usize))
        requires
            self.wf(),
        ensures
            r.0@ == download_segment_view(self@.node_id, self@.address, self@.data, self@.offset, toggle),
            r.1 == segment_end(self@.data.len(), self@.offset),
    {
        let end: usize = if self.offset < self.data.len() && self.data.len() - self.offset > 7 {
            self.offset + 7
        } else {
            self.data.len()
        };
        let part = vstd::slice::slice_subrange(self.data.as_slice(), self.offset, end);
        let frame = segment_download_request(self.node_id, self.address, toggle, end == self.data.len(), part);
        (frame, end)
    }

    /// Take the server's response to the last request.
    pub fn on_response(&mut self, frame: &CanFrame) -> (r: DownloadStep)
        requires
            old(self).wf(),
        ensures
            final(self).wf(),
            (final(self)@, r@) == spec_download_step(old(self)@, frame@),
    {
        if self.initiating {
            match check_server_command(frame, ServerCommand::InitiateDownload) {
                Err(e) => DownloadStep::Abort(self.abort_frame(), e),
                Ok(_) => {
                    if self.data.len() <= 4 {
                        self.initiating = false;
                        self.offset = self.data.len();
                        DownloadStep::Done
                    } else {
                        let (f, end) = self.segment(false);
                        self.initiating = false;
                        self.offset = end;
                        self.toggle = false;
                        DownloadStep::Send(f)
                    }
                },
            }
        } else {
            match parse_segment_download_response(frame, self.toggle) {
                Err(e) => DownloadStep::Abort(self.abort_frame(), e),
                Ok(()) => {
                    if self.offset >= self.data.len() {
                        DownloadStep::Done
                    } else {
                        let t = !self.toggle;
                        let (f, end) = self.segment(t);
                        self.offset = end;
                        self.toggle = t;
                        DownloadStep::Send(f)
                    }
                },
            }
        }
    }
}

} // verus!
