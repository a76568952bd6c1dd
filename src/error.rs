//! Error types of identifiers, payloads and frames.

use vstd::prelude::*;

verus! {

/// The ID was invalid.
#[derive(Debug, Clone, Copy, PartialEq, Eq, Structural)]
pub struct InvalidId {
    /// The offending value, if it was representable.
    pub id: Option<u32>,
    /// Whether an extended ID was being constructed.
    pub extended: bool,
}

/// Why an ID could not be parsed.
#[derive(Debug, Clone, Copy, PartialEq, Eq, Structural)]
pub enum ParseIdErrorKind {
    /// The text is not a number in the accepted notations.
    InvalidFormat,
    /// The number does not fit in the identifier.
    InvalidValue(InvalidId),
}

/// Failed to parse the ID.
#[derive(Debug, Clone, Copy, PartialEq, Eq, Structural)]
pub struct ParseIdError {
    pub kind: ParseIdErrorKind,
}

/// The data does not fit in a CAN data frame.
#[derive(Debug, Clone, Copy, PartialEq, Eq, Structural)]
pub struct TryIntoCanDataError {
    /// The length of the rejected data.
    pub len: usize,
}

/// What was out of bounds in a CAN frame.
#[derive(Debug, Clone, Copy, PartialEq, Eq, Structural)]
pub enum TryNewCanFrameErrorKind {
    InvalidId(InvalidId),
    InvalidData(TryIntoCanDataError),
}

/// The data or ID used to construct a CAN frame was out of bounds.
#[derive(Debug, Clone, Copy, PartialEq, Eq, Structural)]
pub struct TryNewCanFrameError {
    pub kind: TryNewCanFrameErrorKind,
}

/// The data length code is too large (maximum possible value is 15).
#[derive(Debug, Clone, Copy, PartialEq, Eq, Structural)]
pub struct InvalidDataLengthCode {
    pub value: u8,
}

impl InvalidId {
    /// A readable description of the error.
    pub fn message(&self) -> (r: String) {
        if self.extended {
            String::from_str("invalid extended CAN ID, allowed values are 0 to 0x1FFF_FFFF")
        } else {
            String::from_str("invalid standard CAN ID, allowed values are 0 to 0x7FF")
        }
    }
}

impl From<InvalidId> for TryNewCanFrameError {
    fn from(value: InvalidId) -> (r: Self) {
        TryNewCanFrameError { kind: TryNewCanFrameErrorKind::InvalidId(value) }
    }
}

impl vstd::std_specs::convert::FromSpecImpl<InvalidId> for TryNewCanFrameError {
    open spec fn obeys_from_spec() -> bool {
        true
    }

    open spec fn from_spec(v: InvalidId) -> Self {
        TryNewCanFrameError { kind: TryNewCanFrameErrorKind::InvalidId(v) }
    }
}

impl From<TryIntoCanDataError> for TryNewCanFrameError {
    fn from(value: TryIntoCanDataError) -> (r: Self) {
        TryNewCanFrameError { kind: TryNewCanFrameErrorKind::InvalidData(value) }
    }
}

impl vstd::std_specs::convert::FromSpecImpl<TryIntoCanDataError> for TryNewCanFrameError {
    open spec fn obeys_from_spec() -> bool {
        true
    }

    open spec fn from_spec(v: TryIntoCanDataError) -> Self {
        TryNewCanFrameError { kind: TryNewCanFrameErrorKind::InvalidData(v) }
    }
}

} // verus!
