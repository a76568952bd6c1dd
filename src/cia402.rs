//! The states of the CiA 402 drive profile.

use vstd::prelude::*;

verus! {

/// A state of the CiA 402 power drive state machine.
#[derive(Debug, Clone, Copy, PartialEq, Eq, Structural)]
pub enum State {
    NotReadyToSwitchOn,
    SwitchOnDisabled,
    ReadyToSwitchOn,
    SwitchedOn,
    OperationEnabled,
    Fault,
    FaultReactionActive,
    QuickStopActive,
    DisableVoltage,
}

} // verus!
