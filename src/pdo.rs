//! Process data object (PDO) configuration: communication parameters,
//! transmission types and mappings.

use vstd::prelude::*;
use crate::id::CanId;
use crate::object::ObjectIndex;
use crate::sdo_error::SdoError;

verus! {

/// A CANopen node ID.
pub type NodeId = u8;

/// The PDO number is out of range (it must be at most 511).
#[derive(Debug, Clone, Copy, PartialEq, Eq, Structural)]
pub struct InvalidPdoNumber {
    pub value: u16,
}

/// The SYNC interval is out of range (it must be 1 to 240).
#[derive(Debug, Clone, Copy, PartialEq, Eq, Structural)]
pub struct InvalidSyncInterval {
    pub value: u8,
}

/// An error of reading or writing a PDO configuration.
#[derive(Debug)]
pub enum PdoConfigError {
    InvalidPdoNumber(InvalidPdoNumber),
    /// The PDO does not support the inhibit time parameter.
    InhibitTimeNotSupported,
    /// The PDO does not support the deadline timer parameter.
    DeadlineTimerNotSupported,
    /// The PDO does not support the event timer parameter.
    EventTimerNotSupported,
    /// The PDO does not support the start SYNC parameter.
    StartSyncNotSupported,
    SdoError(SdoError),
}

/// One entry of a PDO mapping: an object and the number of its bits that the PDO carries.
#[derive(Debug, Clone, Copy, PartialEq, Eq, Structural)]
pub struct PdoMapping {
    pub object: ObjectIndex,
    pub bit_length: u8,
}

/// A mapping entry, seen as one field of the PDO.
pub type PdoField = PdoMapping;

/// The packed form of a mapping entry: `index << 16 | subindex << 8 | bit_length`.
pub open spec fn spec_mapping_u32(m: PdoMapping) -> u32 {
    (m.object.index as int * 65536 + m.object.subindex as int * 256 + m.bit_length as int) as u32
}

/// The mapping entry of a packed 32 bit value.
pub open spec fn spec_mapping_from_u32(raw: u32) -> PdoMapping {
    PdoMapping {
        object: ObjectIndex { index: (raw / 65536) as u16, subindex: ((raw / 256) % 256) as u8 },
        bit_length: (raw % 256) as u8,
    }
}

impl PdoMapping {
    /// Unpack a mapping entry: the index in bits 31 to 16, the subindex in
    /// bits 15 to 8 and the bit length in bits 7 to 0.
    pub fn from_u32(raw: u32) -> (r: Self)
        ensures
            r == spec_mapping_from_u32(raw),
    {
        PdoMapping {
            object: ObjectIndex::new((raw / 65536) as u16, ((raw / 256) % 256) as u8),
            bit_length: (raw % 256) as u8,
        }
    }

    /// Pack a mapping entry into its 32 bit form.
    pub fn to_u32(self) -> (r: u32)
        ensures
            r == spec_mapping_u32(self),
    {
        self.object.index as u32 * 65536 + self.object.subindex as u32 * 256 + self.bit_length as u32
    }
}

/// Packing a mapping entry and unpacking it again gives the same entry.
pub proof fn lemma_mapping_round_trip(m: PdoMapping)
    ensures
        spec_mapping_from_u32(spec_mapping_u32(m)) == m,
{
    let i = m.object.index as int;
    let s = m.object.subindex as int;
    let b = m.bit_length as int;
    let v = i * 65536 + s * 256 + b;
    assert(v / 65536 == i) by (nonlinear_arith)
        requires
            v == i * 65536 + s * 256 + b,
            0 <= s < 256,
            0 <= b < 256,
    ;
    assert((v / 256) % 256 == s) by (nonlinear_arith)
        requires
            v == i * 65536 + s * 256 + b,
            0 <= s < 256,
            0 <= b < 256,
            0 <= i,
    ;
    assert(v % 256 == b) by (nonlinear_arith)
        requires
            v == i * 65536 + s * 256 + b,
            0 <= s < 256,
            0 <= b < 256,
            0 <= i,
    ;
}

/// Unpacking a 32 bit value and packing it again gives the same value.
pub proof fn lemma_mapping_u32_round_trip(raw: u32)
    ensures
        spec_mapping_u32(spec_mapping_from_u32(raw)) == raw,
{
    let v = raw as int;
    assert((v / 65536) * 65536 + ((v / 256) % 256) * 256 + v % 256 == v) by (nonlinear_arith)
        requires
            0 <= v,
    ;
}

/// The transmission type of a receive PDO (RPDO).
#[derive(Debug, Clone, Copy, PartialEq, Eq, Structural)]
pub struct RpdoTransmissionType {
    raw: u8,
}

/// The transmission type of a transmit PDO (TPDO).
#[derive(Debug, Clone, Copy, PartialEq, Eq, Structural)]
pub struct TpdoTransmissionType {
    raw: u8,
}

/// Another name for [`RpdoTransmissionType`].
pub type RpdoCommunicationMode = RpdoTransmissionType;

/// Another name for [`TpdoTransmissionType`].
pub type TpdoCommunicationMode = TpdoTransmissionType;

impl View for RpdoTransmissionType {
    type V = u8;

    closed spec fn view(&self) -> u8 {
        self.raw
    }
}

impl View for TpdoTransmissionType {
    type V = u8;

    closed spec fn view(&self) -> u8 {
        self.raw
    }
}

impl RpdoTransmissionType {
    /// The transmission type with the given byte.
    pub fn from_u8(raw: u8) -> (r: Self)
        ensures
            r@ == raw,
    {
        RpdoTransmissionType { raw }
    }

    /// The byte of the transmission type.
    pub fn to_u8(self) -> (r: u8)
        ensures
            r == self@,
    {
        self.raw
    }

    /// Synchronous reception (type 0).
    pub fn sync() -> (r: Self)
        ensures
            r@ == 0,
    {
        Self::from_u8(0)
    }

    /// Whether the PDO is received synchronously (types 0 to 240).
    pub fn is_sync(self) -> (r: bool)
        ensures
            r == (self@ <= 0xF0),
    {
        self.raw <= 0xF0
    }

    /// Whether the type is reserved (241 to 251).
    pub fn is_reserved(&self) -> (r: bool)
        ensures
            r == (0xF1 <= self@ <= 0xFB),
    {
        self.raw >= 0xF1 && self.raw <= 0xFB
    }

    /// Event driven reception: manufacturer specific (254) or by the device profile (255).
    pub fn event_driven(manufacturer_specific: bool) -> (r: Self)
        ensures
            r@ == (if manufacturer_specific { 0xFEu8 } else { 0xFFu8 }),
    {
        if manufacturer_specific {
            Self::from_u8(0xFE)
        } else {
            Self::from_u8(0xFF)
        }
    }

    /// For an event driven type, whether it is manufacturer specific.
    pub fn is_event_driven(&self) -> (r: Option<bool>)
        ensures
            r == (if self@ == 0xFE { Some(true) } else if self@ == 0xFF { Some(false) } else { None }),
    {
        if self.raw == 0xFE {
            Some(true)
        } else if self.raw == 0xFF {
            Some(false)
        } else {
            None
        }
    }
}

impl TpdoTransmissionType {
    /// The transmission type with the given byte.
    pub fn from_u8(raw: u8) -> (r: Self)
        ensures
            r@ == raw,
    {
        TpdoTransmissionType { raw }
    }

    /// The byte of the transmission type.
    pub fn to_u8(self) -> (r: u8)
        ensures
            r == self@,
    {
        self.raw
    }

    /// Synchronous and acyclic transmission (type 0).
    pub fn sync_acyclic() -> (r: Self)
        ensures
            r@ == 0,
    {
        Self::from_u8(0)
    }

    /// Whether the type is synchronous and acyclic.
    pub fn is_sync_acyclic(self) -> (r: bool)
        ensures
            r == (self@ == 0),
    {
        self.raw == 0
    }

    /// Transmission on every `interval`-th SYNC, for an interval of 1 to 240.
    pub fn sync(interval: u8) -> (r: Result<Self, InvalidSyncInterval>)
        ensures
            match r {
                Ok(t) => 1 <= interval <= 0xF0 && t@ == interval,
                Err(e) => !(1 <= interval <= 0xF0) && e == (InvalidSyncInterval { value: interval }),
            },
    {
        if interval >= 1 && interval <= 0xF0 {
            Ok(Self::from_u8(interval))
        } else {
            Err(InvalidSyncInterval { value: interval })
        }
    }

    /// For a cyclic synchronous type, the SYNC interval.
    pub fn is_sync(&self) -> (r: Option<u8>)
        ensures
            r == (if 1 <= self@ <= 0xF0 { Some(self@) } else { None }),
    {
        if self.raw >= 1 && self.raw <= 0xF0 {
            Some(self.raw)
        } else {
            None
        }
    }

    /// Transmission on every SYNC (type 1).
    pub fn every_sync() -> (r: Self)
        ensures
            r@ == 1,
    {
        Self::from_u8(1)
    }

    /// Whether the PDO is sent on every SYNC.
    pub fn is_every_sync(self) -> (r: bool)
        ensures
            r == (self@ == 1),
    {
        self.raw == 1
    }

    /// Transmission on every `counter`-th SYNC, for a counter of 2 to 240.
    pub fn nth_sync(counter: u8) -> (r: Result<Self, InvalidSyncInterval>)
        ensures
            match r {
                Ok(t) => 2 <= counter <= 0xF0 && t@ == counter,
                Err(e) => !(2 <= counter <= 0xF0) && e == (InvalidSyncInterval { value: counter }),
            },
    {
        if counter >= 2 && counter <= 0xF0 {
            Ok(Self::from_u8(counter))
        } else {
            Err(InvalidSyncInterval { value: counter })
        }
    }

    /// For a type that sends on every n-th SYNC with n of at least 2, that n.
    pub fn is_nth_sync(&self) -> (r: Option<u8>)
        ensures
            r == (if 2 <= self@ <= 0xF0 { Some(self@) } else { None }),
    {
        if self.raw >= 2 && self.raw <= 0xF0 {
            Some(self.raw)
        } else {
            None
        }
    }

    /// Whether the type is reserved (241 to 251).
    pub fn is_reserved(&self) -> (r: bool)
        ensures
            r == (0xF1 <= self@ <= 0xFB),
    {
        self.raw >= 0xF1 && self.raw <= 0xFB
    }

    /// Transmission on a remote request only: after the next SYNC (252) or at once (253).
    pub fn rtr_only(sync: bool) -> (r: Self)
        ensures
            r@ == (if sync { 0xFCu8 } else { 0xFDu8 }),
    {
        if sync {
            Self::from_u8(0xFC)
        } else {
            Self::from_u8(0xFD)
        }
    }

    /// For a type that sends on remote requests only, whether it waits for SYNC.
    pub fn is_rtr_only(&self) -> (r: Option<bool>)
        ensures
            r == (if self@ == 0xFC { Some(true) } else if self@ == 0xFD { Some(false) } else { None }),
    {
        if self.raw == 0xFC {
            Some(true)
        } else if self.raw == 0xFD {
            Some(false)
        } else {
            None
        }
    }

    /// Event driven transmission: manufacturer specific (254) or by the device profile (255).
    pub fn event_driven(manufacturer_specific: bool) -> (r: Self)
        ensures
            r@ == (if manufacturer_specific { 0xFEu8 } else { 0xFFu8 }),
    {
        if manufacturer_specific {
            Self::from_u8(0xFE)
        } else {
            Self::from_u8(0xFF)
        }
    }

    /// For an event driven type, whether it is manufacturer specific.
    pub fn is_event_driven(&self) -> (r: Option<bool>)
        ensures
            r == (if self@ == 0xFE { Some(true) } else if self@ == 0xFF { Some(false) } else { None }),
    {
        if self.raw == 0xFE {
            Some(true)
        } else if self.raw == 0xFF {
            Some(false)
        } else {
            None
        }
    }
}

/// One of the four default receive PDOs of a node.
#[derive(Debug, Clone, Copy, PartialEq, Eq, Structural)]
pub enum RpdoKind {
    First(NodeId),
    Second(NodeId),
    Third(NodeId),
    Fourth(NodeId),
}

/// One of the four default transmit PDOs of a node.
#[derive(Debug, Clone, Copy, PartialEq, Eq, Structural)]
pub enum TpdoKind {
    First(NodeId),
    Second(NodeId),
    Third(NodeId),
    Fourth(NodeId),
}

impl RpdoKind {
    /// The PDO number (0 to 3) of the kind.
    pub open spec fn spec_ord(self) -> u16 {
        match self {
            RpdoKind::First(_) => 0,
            RpdoKind::Second(_) => 1,
            RpdoKind::Third(_) => 2,
            RpdoKind::Fourth(_) => 3,
        }
    }

    /// The receive PDO `ord` (0 to 3) of a node, if there is one.
    pub fn new(node: NodeId, ord: u16) -> (r: Option<Self>)
        ensures
            match r {
                Some(k) => ord <= 3 && k.spec_ord() == ord && k.spec_node() == node,
                None => ord > 3,
            },
    {
        match ord {
            0 => Some(RpdoKind::First(node)),
            1 => Some(RpdoKind::Second(node)),
            2 => Some(RpdoKind::Third(node)),
            3 => Some(RpdoKind::Fourth(node)),
            _ => None,
        }
    }

    /// The node of the kind.
    pub open spec fn spec_node(self) -> NodeId {
        match self {
            RpdoKind::First(n) => n,
            RpdoKind::Second(n) => n,
            RpdoKind::Third(n) => n,
            RpdoKind::Fourth(n) => n,
        }
    }

    /// The PDO number (0 to 3) of the kind.
    pub fn ord(&self) -> (r: u16)
        ensures
            r == self.spec_ord(),
    {
        match self {
            RpdoKind::First(_) => 0,
            RpdoKind::Second(_) => 1,
            RpdoKind::Third(_) => 2,
            RpdoKind::Fourth(_) => 3,
        }
    }

    /// The default COB-ID of the PDO: 0x200, 0x300, 0x400 or 0x500, plus the node ID.
    pub fn default_cob_id(&self) -> (r: CanId)
        requires
            self.spec_node() <= 0x7F,
        ensures
            r is Standard,
            r.value() == 0x200 + 0x100 * self.spec_ord() + self.spec_node(),
    {
        let (base, node): (u16, u8) = match self {
            RpdoKind::First(n) => (0x200, *n),
            RpdoKind::Second(n) => (0x300, *n),
            RpdoKind::Third(n) => (0x400, *n),
            RpdoKind::Fourth(n) => (0x500, *n),
        };
        CanId::from_u16(base + node as u16)
    }
}

impl TpdoKind {
    /// The PDO number (0 to 3) of the kind.
    pub open spec fn spec_ord(self) -> u16 {
        match self {
            TpdoKind::First(_) => 0,
            TpdoKind::Second(_) => 1,
            TpdoKind::Third(_) => 2,
            TpdoKind::Fourth(_) => 3,
        }
    }

    /// The node of the kind.
    pub open spec fn spec_node(self) -> NodeId {
        match self {
            TpdoKind::First(n) => n,
            TpdoKind::Second(n) => n,
            TpdoKind::Third(n) => n,
            TpdoKind::Fourth(n) => n,
        }
    }

    /// The transmit PDO `ord` (0 to 3) of a node, if there is one.
    pub fn new(node: NodeId, ord: u16) -> (r: Option<Self>)
        ensures
            match r {
                Some(k) => ord <= 3 && k.spec_ord() == ord && k.spec_node() == node,
                None => ord > 3,
            },
    {
        match ord {
            0 => Some(TpdoKind::First(node)),
            1 => Some(TpdoKind::Second(node)),
            2 => Some(TpdoKind::Third(node)),
            3 => Some(TpdoKind::Fourth(node)),
            _ => None,
        }
    }

    /// The PDO number (0 to 3) of the kind.
    pub fn ord(&self) -> (r: u16)
        ensures
            r == self.spec_ord(),
    {
        match self {
            TpdoKind::First(_) => 0,
            TpdoKind::Second(_) => 1,
            TpdoKind::Third(_) => 2,
            TpdoKind::Fourth(_) => 3,
        }
    }

    /// The default COB-ID of the PDO: 0x180, 0x280, 0x380 or 0x480, plus the node ID.
    pub fn default_cob_id(&self) -> (r: CanId)
        requires
            self.spec_node() <= 0x7F,
        ensures
            r is Standard,
            r.value() == 0x180 + 0x100 * self.spec_ord() + self.spec_node(),
    {
        let (base, node): (u16, u8) = match self {
            TpdoKind::First(n) => (0x180, *n),
            TpdoKind::Second(n) => (0x280, *n),
            TpdoKind::Third(n) => (0x380, *n),
            TpdoKind::Fourth(n) => (0x480, *n),
        };
        CanId::from_u16(base + node as u16)
    }
}

/// The communication parameters of a receive PDO.
#[derive(Debug, Clone, Copy, PartialEq, Eq, Structural)]
pub struct RpdoCommunicationParameters {
    pub enabled: bool,
    pub mode: RpdoTransmissionType,
    pub cob_id: CanId,
    pub inhibit_time_100us: u16,
    pub deadline_timer_ms: u16,
}

/// The communication parameters of a transmit PDO.
#[derive(Debug, Clone, Copy, PartialEq, Eq, Structural)]
pub struct TpdoCommunicationParameters {
    pub enabled: bool,
    pub rtr_allowed: bool,
    pub cob_id: CanId,
    pub mode: TpdoTransmissionType,
    pub inhibit_time_100us: u16,
    pub event_timer_ms: u16,
    pub start_sync: u8,
}

/// The configuration of a receive PDO.
#[derive(Debug, Clone)]
pub struct RpdoConfiguration {
    pub communication: RpdoCommunicationParameters,
    pub mapping: Vec<PdoMapping>,
}

/// The configuration of a transmit PDO.
#[derive(Debug, Clone)]
pub struct TpdoConfiguration {
    pub communication: TpdoCommunicationParameters,
    pub mapping: Vec<PdoMapping>,
}

} // verus!
