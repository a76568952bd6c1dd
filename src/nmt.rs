//! Network management (NMT): state-change commands and the heartbeat that
//! confirms them, and the SYNC message.

use vstd::prelude::*;
use crate::frame::{CanData, CanFrame, CanFrameView};
use crate::id::{CanId, StandardId};
use crate::object::{node_address, or_in_range};

verus! {

/// The NMT state of a node, as its heartbeat reports it.
#[derive(Debug, Clone, Copy, PartialEq, Eq, Structural, PartialOrd, Ord, Hash)]
pub enum NmtState {
    Initializing,
    Stopped,
    Operational,
    PreOperational,
}

/// An NMT command.
#[derive(Debug, Clone, Copy, PartialEq, Eq, Structural, PartialOrd, Ord, Hash)]
pub enum NmtCommand {
    Start,
    Stop,
    GoToPreOperational,
    Reset,
    ResetCommunication,
}

/// The heartbeat did not report the state that the command asks for.
#[derive(Debug, Clone, Copy, PartialEq, Eq, Structural)]
pub struct UnexpectedState {
    pub expected: NmtState,
    pub actual: NmtState,
}

/// An error of an NMT command.
#[derive(Debug)]
pub enum NmtError {
    /// Sending the command failed.
    SendFailed(std::io::Error),
    /// Receiving the heartbeat failed.
    RecvFailed(std::io::Error),
    /// No heartbeat came in time.
    Timeout,
    /// The heartbeat is no single byte naming a state.
    MalformedResponse,
    UnexpectedState(UnexpectedState),
}

impl NmtState {
    /// The byte of the state in a heartbeat.
    pub open spec fn spec_code(self) -> u8 {
        match self {
            NmtState::Initializing => 0x00,
            NmtState::Stopped => 0x04,
            NmtState::Operational => 0x05,
            NmtState::PreOperational => 0x7F,
        }
    }

    /// The byte of the state in a heartbeat.
    pub fn to_u8(self) -> (r: u8)
        ensures
            r == self.spec_code(),
    {
        match self {
            NmtState::Initializing => 0x00,
            NmtState::Stopped => 0x04,
            NmtState::Operational => 0x05,
            NmtState::PreOperational => 0x7F,
        }
    }

    /// The state that a heartbeat byte names, if any.
    pub fn from_u8(code: u8) -> (r: Option<Self>)
        ensures
            match r {
                Some(s) => s.spec_code() == code,
                None => forall|s: NmtState| #[trigger] s.spec_code() != code,
            },
    {
        match code {
            0x00 => Some(NmtState::Initializing),
            0x04 => Some(NmtState::Stopped),
            0x05 => Some(NmtState::Operational),
            0x7F => Some(NmtState::PreOperational),
            _ => None,
        }
    }
}

impl NmtCommand {
    /// The command byte.
    pub open spec fn spec_code(self) -> u8 {
        match self {
            NmtCommand::Start => 1,
            NmtCommand::Stop => 2,
            NmtCommand::GoToPreOperational => 0x80,
            NmtCommand::Reset => 0x81,
            NmtCommand::ResetCommunication => 0x82,
        }
    }

    /// The state that a node reports after the command.
    pub open spec fn spec_expected_state(self) -> NmtState {
        match self {
            NmtCommand::Start => NmtState::Operational,
            NmtCommand::Stop => NmtState::Stopped,
            NmtCommand::GoToPreOperational => NmtState::PreOperational,
            NmtCommand::Reset => NmtState::Initializing,
            NmtCommand::ResetCommunication => NmtState::Initializing,
        }
    }

    /// The command byte.
    pub fn to_u8(self) -> (r: u8)
        ensures
            r == self.spec_code(),
    {
        match self {
            NmtCommand::Start => 1,
            NmtCommand::Stop => 2,
            NmtCommand::GoToPreOperational => 0x80,
            NmtCommand::Reset => 0x81,
            NmtCommand::ResetCommunication => 0x82,
        }
    }

    /// The state that a node reports after the command.
    pub fn expected_state(self) -> (r: NmtState)
        ensures
            r == self.spec_expected_state(),
    {
        match self {
            NmtCommand::Start => NmtState::Operational,
            NmtCommand::Stop => NmtState::Stopped,
            NmtCommand::GoToPreOperational => NmtState::PreOperational,
            NmtCommand::Reset => NmtState::Initializing,
            NmtCommand::ResetCommunication => NmtState::Initializing,
        }
    }
}

/// The function code of heartbeat frames.
pub const FUNCTION_HEARTBEAT: u16 = 0x700;

/// The frame of an NMT command to node `node_id`: ID 0, bytes `[command, node_id]`.
pub fn nmt_command_frame(node_id: u8, command: NmtCommand) -> (r: CanFrame)
    ensures
        r@.id is Standard,
        r@.id.value() == 0,
        !r@.rtr,
        r@.data == seq![command.spec_code(), node_id],
        r@.dlc == 2,
{
    let data = CanData::new([command.to_u8(), node_id]);
    CanFrame::new(CanId::Standard(StandardId::from_u8(0)), data)
}

/// The ID of the heartbeat of node `node_id`.
pub fn heartbeat_id(node_id: u8) -> (r: StandardId)
    ensures
        r@ == node_address(FUNCTION_HEARTBEAT, node_id),
{
    or_in_range(FUNCTION_HEARTBEAT, node_id)
}

/// The state that a heartbeat frame reports.
pub open spec fn spec_heartbeat(frame: CanFrameView) -> Result<NmtState, NmtError> {
    if frame.rtr || frame.data.len() != 1 {
        Err(NmtError::MalformedResponse)
    } else if exists|s: NmtState| #[trigger] s.spec_code() == frame.data[0] {
        Ok(choose|s: NmtState| #[trigger] s.spec_code() == frame.data[0])
    } else {
        Err(NmtError::MalformedResponse)
    }
}

/// Read the state from a heartbeat frame.
pub fn parse_heartbeat(frame: &CanFrame) -> (r: Result<NmtState, NmtError>)
    ensures
        match spec_heartbeat(frame@) {
            Ok(s) => r is Ok && r->Ok_0 == s,
            Err(e) => r is Err && r->Err_0 == e,
        },
{
    let data = match frame.data() {
        Some(d) => d,
        None => return Err(NmtError::MalformedResponse),
    };
    if data.len() != 1 {
        return Err(NmtError::MalformedResponse);
    }
    match NmtState::from_u8(data.get(0)) {
        Some(s) => {
            proof {
                let c = choose|t: NmtState| #[trigger] t.spec_code() == frame@.data[0];
                assert(c.spec_code() == s.spec_code());
            }
            Ok(s)
        },
        None => Err(NmtError::MalformedResponse),
    }
}

/// What a heartbeat frame says of a command: `Ok` where it reports the
/// state that the command asks for.
pub open spec fn spec_command_outcome(command: NmtCommand, frame: CanFrameView) -> Result<(), NmtError> {
    match spec_heartbeat(frame) {
        Err(e) => Err(e),
        Ok(s) => if s == command.spec_expected_state() {
            Ok(())
        } else {
            Err(NmtError::UnexpectedState(UnexpectedState { expected: command.spec_expected_state(), actual: s }))
        },
    }
}

/// Check the heartbeat that follows a command.
pub fn check_command_response(command: NmtCommand, frame: &CanFrame) -> (r: Result<(), NmtError>)
    ensures
        match spec_command_outcome(command, frame@) {
            Ok(()) => r is Ok,
            Err(e) => r is Err && r->Err_0 == e,
        },
{
    let state = match parse_heartbeat(frame) {
        Ok(s) => s,
        Err(e) => return Err(e),
    };
    let expected = command.expected_state();
    if state == expected {
        Ok(())
    } else {
        Err(NmtError::UnexpectedState(UnexpectedState { expected, actual: state }))
    }
}

/// The COB-ID of the SYNC message.
pub const SYNC_COB_ID: u8 = 0x80;

/// The SYNC frame: ID 0x80, with no data or with the counter byte.
pub fn sync_frame(counter: Option<u8>) -> (r: CanFrame)
    requires
        counter matches Some(c) ==> 1 <= c <= 240,
    ensures
        r@.id is Standard,
        r@.id.value() == 0x80,
        !r@.rtr,
        r@.data == match counter {
            Some(c) => seq![c],
            None => Seq::<u8>::empty(),
        },
{
    let id = CanId::Standard(StandardId::from_u8(SYNC_COB_ID));
    match counter {
        Some(c) => CanFrame::new(id, CanData::new([c])),
        None => CanFrame::new(id, CanData::empty()),
    }
}

} // verus!
