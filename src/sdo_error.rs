//! Errors of SDO transfers and the abort codes of CiA 301.

use vstd::prelude::*;

verus! {

/// Declares std's `std::io::Error`, so that the error types here can carry a
/// transport error as it came; nothing is assumed of its values.
#[verifier::external_type_specification]
#[verifier::external_body]
pub struct ExIoError(std::io::Error);

/// The command specifier of a frame from client to server (bits 7 to 5 of byte 0).
#[derive(Debug, Clone, Copy, PartialEq, Eq, Structural)]
pub enum ClientCommand {
    SegmentDownload,
    InitiateDownload,
    InitiateUpload,
    SegmentUpload,
    AbortTransfer,
}

/// The command specifier of a frame from server to client (bits 7 to 5 of byte 0).
#[derive(Debug, Clone, Copy, PartialEq, Eq, Structural)]
pub enum ServerCommand {
    SegmentUpload,
    SegmentDownload,
    InitiateUpload,
    InitiateDownload,
    AbortTransfer,
}

impl ClientCommand {
    pub open spec fn spec_code(self) -> u8 {
        match self {
            ClientCommand::SegmentDownload => 0,
            ClientCommand::InitiateDownload => 1,
            ClientCommand::InitiateUpload => 2,
            ClientCommand::SegmentUpload => 3,
            ClientCommand::AbortTransfer => 4,
        }
    }

    /// The command specifier.
    pub fn code(self) -> (r: u8)
        ensures
            r == self.spec_code(),
    {
        match self {
            ClientCommand::SegmentDownload => 0,
            ClientCommand::InitiateDownload => 1,
            ClientCommand::InitiateUpload => 2,
            ClientCommand::SegmentUpload => 3,
            ClientCommand::AbortTransfer => 4,
        }
    }
}

impl ServerCommand {
    pub open spec fn spec_code(self) -> u8 {
        match self {
            ServerCommand::SegmentUpload => 0,
            ServerCommand::SegmentDownload => 1,
            ServerCommand::InitiateUpload => 2,
            ServerCommand::InitiateDownload => 3,
            ServerCommand::AbortTransfer => 4,
        }
    }

    /// The server command with the given specifier, if there is one.
    pub fn from_code(code: u8) -> (r: Option<Self>)
        ensures
            match r {
                Some(c) => c.spec_code() == code,
                None => code > 4,
            },
    {
        match code {
            0 => Some(ServerCommand::SegmentUpload),
            1 => Some(ServerCommand::SegmentDownload),
            2 => Some(ServerCommand::InitiateUpload),
            3 => Some(ServerCommand::InitiateDownload),
            4 => Some(ServerCommand::AbortTransfer),
            _ => None,
        }
    }
}

/// The reason of an aborted SDO transfer.
#[derive(Debug, Clone, Copy, PartialEq, Eq, Structural)]
pub enum AbortReason {
    ToggleBitNotAlternated,
    SdoProtocolTimedOut,
    InvalidOrUnknownCommandSpecifier,
    InvalidBlockSize,
    InvalidSequenceNumber,
    CrcError,
    OutOfMemory,
    UnsupportedObjectAccess,
    ReadFromWriteOnlyObject,
    WriteToReadOnlyObject,
    ObjectDoesNotExist,
    ObjectCanNotBeMapped,
    NumberAndLengthOfObjectsExceedPdoLength,
    GeneralParameterError,
    GeneralInternalError,
    HardwareError,
    LengthMismatch,
    LengthTooHigh,
    LengthTooLow,
    SubIndexDoesNotExist,
    ObjectValueInvalid,
    ObjectValueTooHigh,
    ObjectValueTooLow,
    MaximumBelowMinimum,
    ResourceNotAvailable,
    GeneralError,
    CanNotTransferData,
    LocalControlError,
    InvalidDeviceStateForTransfer,
    FailedToGenerateDynamicDictionary,
    NoDataAvailable,
}

impl AbortReason {
    /// The 32 bit abort code of the reason.
    pub open spec fn spec_code(self) -> u32 {
        match self {
            AbortReason::ToggleBitNotAlternated => 0x0503_0000,
            AbortReason::SdoProtocolTimedOut => 0x0504_0000,
            AbortReason::InvalidOrUnknownCommandSpecifier => 0x0504_0001,
            AbortReason::InvalidBlockSize => 0x0504_0002,
            AbortReason::InvalidSequenceNumber => 0x0504_0003,
            AbortReason::CrcError => 0x0504_0004,
            AbortReason::OutOfMemory => 0x0504_0005,
            AbortReason::UnsupportedObjectAccess => 0x0601_0000,
            AbortReason::ReadFromWriteOnlyObject => 0x0601_0001,
            AbortReason::WriteToReadOnlyObject => 0x0601_0002,
            AbortReason::ObjectDoesNotExist => 0x0602_0000,
            AbortReason::ObjectCanNotBeMapped => 0x0604_0041,
            AbortReason::NumberAndLengthOfObjectsExceedPdoLength => 0x0604_0042,
            AbortReason::GeneralParameterError => 0x0604_0043,
            AbortReason::GeneralInternalError => 0x0604_0047,
            AbortReason::HardwareError => 0x0606_0000,
            AbortReason::LengthMismatch => 0x0607_0010,
            AbortReason::LengthTooHigh => 0x0607_0012,
            AbortReason::LengthTooLow => 0x0607_0013,
            AbortReason::SubIndexDoesNotExist => 0x0609_0011,
            AbortReason::ObjectValueInvalid => 0x0609_0030,
            AbortReason::ObjectValueTooHigh => 0x0609_0031,
            AbortReason::ObjectValueTooLow => 0x0609_0032,
            AbortReason::MaximumBelowMinimum => 0x0609_0036,
            AbortReason::ResourceNotAvailable => 0x060A_0023,
            AbortReason::GeneralError => 0x0800_0000,
            AbortReason::CanNotTransferData => 0x0800_0020,
            AbortReason::LocalControlError => 0x0800_0021,
            AbortReason::InvalidDeviceStateForTransfer => 0x0800_0022,
            AbortReason::FailedToGenerateDynamicDictionary => 0x0800_0023,
            AbortReason::NoDataAvailable => 0x0800_0024,
        }
    }

    /// The 32 bit abort code of the reason.
    pub fn to_u32(self) -> (r: u32)
        ensures
            r == self.spec_code(),
    {
        match self {
            AbortReason::ToggleBitNotAlternated => 0x0503_0000,
            AbortReason::SdoProtocolTimedOut => 0x0504_0000,
            AbortReason::InvalidOrUnknownCommandSpecifier => 0x0504_0001,
            AbortReason::InvalidBlockSize => 0x0504_0002,
            AbortReason::InvalidSequenceNumber => 0x0504_0003,
            AbortReason::CrcError => 0x0504_0004,
            AbortReason::OutOfMemory => 0x0504_0005,
            AbortReason::UnsupportedObjectAccess => 0x0601_0000,
            AbortReason::ReadFromWriteOnlyObject => 0x0601_0001,
            AbortReason::WriteToReadOnlyObject => 0x0601_0002,
            AbortReason::ObjectDoesNotExist => 0x0602_0000,
            AbortReason::ObjectCanNotBeMapped => 0x0604_0041,
            AbortReason::NumberAndLengthOfObjectsExceedPdoLength => 0x0604_0042,
            AbortReason::GeneralParameterError => 0x0604_0043,
            AbortReason::GeneralInternalError => 0x0604_0047,
            AbortReason::HardwareError => 0x0606_0000,
            AbortReason::LengthMismatch => 0x0607_0010,
            AbortReason::LengthTooHigh => 0x0607_0012,
            AbortReason::LengthTooLow => 0x0607_0013,
            AbortReason::SubIndexDoesNotExist => 0x0609_0011,
            AbortReason::ObjectValueInvalid => 0x0609_0030,
            AbortReason::ObjectValueTooHigh => 0x0609_0031,
            AbortReason::ObjectValueTooLow => 0x0609_0032,
            AbortReason::MaximumBelowMinimum => 0x0609_0036,
            AbortReason::ResourceNotAvailable => 0x060A_0023,
            AbortReason::GeneralError => 0x0800_0000,
            AbortReason::CanNotTransferData => 0x0800_0020,
            AbortReason::LocalControlError => 0x0800_0021,
            AbortReason::InvalidDeviceStateForTransfer => 0x0800_0022,
            AbortReason::FailedToGenerateDynamicDictionary => 0x0800_0023,
            AbortReason::NoDataAvailable => 0x0800_0024,
        }
    }

    /// A readable description of the reason.
    pub fn description(&self) -> &'static str {
        match self {
            AbortReason::ToggleBitNotAlternated => "toggle bit not alternated",
            AbortReason::SdoProtocolTimedOut => "SDO protocol timed out",
            AbortReason::InvalidOrUnknownCommandSpecifier => "invalid or unknown SDO command",
            AbortReason::InvalidBlockSize => "invalid block size",
            AbortReason::InvalidSequenceNumber => "invalid sequence number",
            AbortReason::CrcError => "CRC error",
            AbortReason::OutOfMemory => "out of memory",
            AbortReason::UnsupportedObjectAccess => "unsupported access to an object",
            AbortReason::ReadFromWriteOnlyObject => "attempt to read a write only object",
            AbortReason::WriteToReadOnlyObject => "attempt to write a read only object",
            AbortReason::ObjectDoesNotExist => "object does not exist in the object dictionary",
            AbortReason::ObjectCanNotBeMapped => "object cannot be mapped to the PDO",
            AbortReason::NumberAndLengthOfObjectsExceedPdoLength => "the number and length of the objects to be mapped would exceed PDO length",
            AbortReason::GeneralParameterError => "general parameter incompatibility reason",
            AbortReason::GeneralInternalError => "general internal incompatibility in the device",
            AbortReason::HardwareError => "access failed due to a hardware error",
            AbortReason::LengthMismatch => "data type does not match, length of service parameter does not match",
            AbortReason::LengthTooHigh => "data type does not match, length of service parameter too high",
            AbortReason::LengthTooLow => "data type does not match, length of service parameter too low",
            AbortReason::SubIndexDoesNotExist => "sub-index does not exist",
            AbortReason::ObjectValueInvalid => "invalid value for parameter",
            AbortReason::ObjectValueTooHigh => "value of parameter written is too high",
            AbortReason::ObjectValueTooLow => "value of parameter written is too low",
            AbortReason::MaximumBelowMinimum => "maximum value is less than minimum value",
            AbortReason::ResourceNotAvailable => "resource not available: SDO connection",
            AbortReason::GeneralError => "general error",
            AbortReason::CanNotTransferData => "data cannot be transferred or stored to the application",
            AbortReason::LocalControlError => "data cannot be transferred or stored to the application because of local control",
            AbortReason::InvalidDeviceStateForTransfer => "data cannot be transferred or stored to the application because of the present device state",
            AbortReason::FailedToGenerateDynamicDictionary => "dynamic object dictionary generation failed or no object dictionary is present",
            AbortReason::NoDataAvailable => "no data available",
        }
    }

    /// The reason with the given abort code, or the code itself where it
    /// names no known reason.
    pub fn from_u32(code: u32) -> (r: Result<Self, u32>)
        ensures
            match r {
                Ok(a) => a.spec_code() == code,
                Err(c) => c == code && forall|a: AbortReason| #[trigger] a.spec_code() != code,
            },
    {
        match code {
            0x0503_0000 => Ok(AbortReason::ToggleBitNotAlternated),
            0x0504_0000 => Ok(AbortReason::SdoProtocolTimedOut),
            0x0504_0001 => Ok(AbortReason::InvalidOrUnknownCommandSpecifier),
            0x0504_0002 => Ok(AbortReason::InvalidBlockSize),
            0x0504_0003 => Ok(AbortReason::InvalidSequenceNumber),
            0x0504_0004 => Ok(AbortReason::CrcError),
            0x0504_0005 => Ok(AbortReason::OutOfMemory),
            0x0601_0000 => Ok(AbortReason::UnsupportedObjectAccess),
            0x0601_0001 => Ok(AbortReason::ReadFromWriteOnlyObject),
            0x0601_0002 => Ok(AbortReason::WriteToReadOnlyObject),
            0x0602_0000 => Ok(AbortReason::ObjectDoesNotExist),
            0x0604_0041 => Ok(AbortReason::ObjectCanNotBeMapped),
            0x0604_0042 => Ok(AbortReason::NumberAndLengthOfObjectsExceedPdoLength),
            0x0604_0043 => Ok(AbortReason::GeneralParameterError),
            0x0604_0047 => Ok(AbortReason::GeneralInternalError),
            0x0606_0000 => Ok(AbortReason::HardwareError),
            0x0607_0010 => Ok(AbortReason::LengthMismatch),
            0x0607_0012 => Ok(AbortReason::LengthTooHigh),
            0x0607_0013 => Ok(AbortReason::LengthTooLow),
            0x0609_0011 => Ok(AbortReason::SubIndexDoesNotExist),
            0x0609_0030 => Ok(AbortReason::ObjectValueInvalid),
            0x0609_0031 => Ok(AbortReason::ObjectValueTooHigh),
            0x0609_0032 => Ok(AbortReason::ObjectValueTooLow),
            0x0609_0036 => Ok(AbortReason::MaximumBelowMinimum),
            0x060A_0023 => Ok(AbortReason::ResourceNotAvailable),
            0x0800_0000 => Ok(AbortReason::GeneralError),
            0x0800_0020 => Ok(AbortReason::CanNotTransferData),
            0x0800_0021 => Ok(AbortReason::LocalControlError),
            0x0800_0022 => Ok(AbortReason::InvalidDeviceStateForTransfer),
            0x0800_0023 => Ok(AbortReason::FailedToGenerateDynamicDictionary),
            0x0800_0024 => Ok(AbortReason::NoDataAvailable),
            _ => Err(code),
        }
    }
}

/// The data is too long for an SDO transfer (at most `u32::MAX` bytes).
#[derive(Debug, Clone, Copy, PartialEq, Eq, Structural)]
pub struct DataLengthExceedsMaximum {
    pub data_len: usize,
}

/// The buffer is too small for the data that the server announced.
#[derive(Debug, Clone, Copy, PartialEq, Eq, Structural)]
pub struct BufferTooSmall {
    pub available: usize,
    pub needed: usize,
}

/// The server aborted the transfer: the reason, or the unknown abort code.
#[derive(Debug, Clone, Copy, PartialEq, Eq)]
pub struct TransferAborted {
    pub reason: Result<AbortReason, u32>,
}

/// The server's response does not have the shape of an SDO frame.
#[derive(Debug, Clone, Copy, PartialEq, Eq, Structural)]
pub enum MalformedResponse {
    /// The frame does not hold 8 data bytes; this many it holds.
    WrongFrameSize(usize),
    /// The command specifier names no server command.
    InvalidServerCommand(u8),
}

/// The server answered with another command than the one expected.
#[derive(Debug, Clone, Copy, PartialEq, Eq, Structural)]
pub struct UnexpectedResponse {
    pub expected: ServerCommand,
    pub actual: ServerCommand,
}

/// The server sent another amount of data than it announced.
#[derive(Debug, Clone, Copy, PartialEq, Eq, Structural)]
pub struct WrongDataCount {
    pub expected: u64,
    pub actual: u64,
}

/// An error of an SDO transfer.
#[derive(Debug)]
pub enum SdoError {
    DataLengthExceedsMaximum(DataLengthExceedsMaximum),
    /// Sending a frame failed.
    SendFailed(std::io::Error),
    /// Receiving a frame failed.
    RecvFailed(std::io::Error),
    /// No response came in time.
    Timeout,
    BufferTooSmall(BufferTooSmall),
    TransferAborted(TransferAborted),
    MalformedResponse(MalformedResponse),
    UnexpectedResponse(UnexpectedResponse),
    /// The server's initiate response sets neither the expedited nor the size flag.
    NoExpeditedOrSizeFlag,
    /// The server's segment response does not echo the toggle bit.
    InvalidToggleFlag,
    WrongDataCount(WrongDataCount),
}

/// An error of an upload that is then parsed into a value.
#[derive(Debug)]
pub enum UploadError<E> {
    /// The transfer failed.
    UploadFailed(SdoError),
    /// The data that came could not be parsed.
    ParseFailed(E),
}

} // verus!
