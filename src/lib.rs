//! CAN identifiers, frames and filters for Linux SocketCAN, and the protocol
//! logic of a CANopen client: NMT, SDO transfers, PDO configuration and SYNC.
//!
//! Everything here computes on plain values: frames go in and frames come
//! out. Moving them over a socket, and waiting for them, is left to the caller.

pub mod access;
pub mod base_id;
pub mod cia402;
pub mod download;
pub mod error;
pub mod filter;
pub mod frame;
pub mod id;
pub mod nmt;
pub mod number;
pub mod object;
pub mod pdo;
pub mod pdo_config;
pub mod router;
pub mod scalar;
pub mod sdo;
pub mod sdo_error;
pub mod upload;

pub use error::{
    InvalidDataLengthCode, InvalidId, ParseIdError, ParseIdErrorKind, TryIntoCanDataError,
    TryNewCanFrameError,
};
pub use filter::CanFilter;
pub use frame::{CanData, CanFrame};
pub use access::{AccessType, Value};
pub use base_id::{CanBaseId, CanExtendedId};
pub use id::{CanId, ExtendedId, StandardId, MAX_EXTENDED_ID, MAX_STANDARD_ID};
pub use nmt::{NmtCommand, NmtError, NmtState, UnexpectedState};
pub use object::{CanBaseIdExt, CanInterface, ObjectIndex, SdoAddress};
pub use pdo::{
    InvalidPdoNumber, InvalidSyncInterval, PdoConfigError, PdoField, PdoMapping, RpdoCommunicationMode,
    RpdoCommunicationParameters, RpdoConfiguration, RpdoKind, RpdoTransmissionType, TpdoCommunicationMode,
    TpdoCommunicationParameters, TpdoConfiguration, TpdoKind, TpdoTransmissionType,
};
pub use sdo_error::{
    AbortReason, BufferTooSmall, DataLengthExceedsMaximum, MalformedResponse, SdoError, TransferAborted,
    UnexpectedResponse, UploadError, WrongDataCount,
};
