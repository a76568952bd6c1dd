//! Standard (11 bit) and extended (29 bit) CAN identifiers.

use vstd::prelude::*;
use vstd::string::StringSliceAdditionalSpecFns;
use crate::error::{InvalidId, ParseIdError, ParseIdErrorKind};
use crate::number::{
    all_digits, digits_of, lemma_digits_of, parse_digits, push_digits, spec_parse_digits,
    NumberError,
};

verus! {

/// The highest valid value for a standard CAN ID.
pub const MAX_STANDARD_ID: u16 = 0x7FF;

/// The highest valid value for an extended CAN ID.
pub const MAX_EXTENDED_ID: u32 = 0x1FFF_FFFF;

/// A standard 11 bit CAN ID.
#[derive(Debug, Clone, Copy, PartialEq, Eq, Structural, PartialOrd, Ord, Hash)]
pub struct StandardId {
    id: u16,
}

/// An extended 29 bit CAN ID.
#[derive(Debug, Clone, Copy, PartialEq, Eq, Structural, PartialOrd, Ord, Hash)]
pub struct ExtendedId {
    id: u32,
}

/// A CAN ID, either standard (11 bit) or extended (29 bits).
///
/// The two variants differ on the wire even where the numeric values agree.
#[derive(Debug, Clone, Copy, PartialEq, Eq, Structural, PartialOrd, Ord, Hash)]
pub enum CanId {
    /// A standard 11 bit CAN ID.
    Standard(StandardId),
    /// An extended 29 bit CAN ID.
    Extended(ExtendedId),
}

impl View for StandardId {
    type V = u16;

    closed spec fn view(&self) -> u16 {
        self.id
    }
}

impl View for ExtendedId {
    type V = u32;

    closed spec fn view(&self) -> u32 {
        self.id
    }
}

impl StandardId {
    #[verifier::type_invariant]
    spec fn inv(self) -> bool {
        self.id <= 0x7FF
    }

    /// The standard ID with the given value.
    pub closed spec fn spec_from(id: u16) -> StandardId {
        StandardId { id }
    }

    /// A standard ID is the one that its value names.
    pub proof fn lemma_from_view(s: StandardId)
        ensures
            Self::spec_from(s@) == s,
    {
    }

    /// Try to create a new standard ID from a raw value.
    ///
    /// Returns an error if the value doesn't fit in 11 bits.
    pub fn new(id: u16) -> (r: Result<Self, InvalidId>)
        ensures
            match r {
                Ok(s) => id <= 0x7FF && s@ == id,
                Err(e) => id > 0x7FF && e == (InvalidId { id: Some(id as u32), extended: false }),
            },
    {
        if id <= MAX_STANDARD_ID {
            Ok(StandardId { id })
        } else {
            Err(InvalidId { id: Some(id as u32), extended: false })
        }
    }

    /// Create a new standard ID from a `u8`.
    pub fn from_u8(id: u8) -> (r: Self)
        ensures
            r@ == id as u16,
    {
        StandardId { id: id as u16 }
    }

    /// Get the raw value as a `u16`.
    pub fn as_u16(self) -> (r: u16)
        ensures
            r == self@,
            r <= 0x7FF,
    {
        proof {
            use_type_invariant(self);
        }
        self.id
    }

    /// The CANopen function code of the ID: bits 10 to 7.
    pub fn function_code(self) -> (r: u16)
        ensures
            r == self@ & 0x780,
    {
        self.id & 0x780
    }

    /// The CANopen node ID of the ID: bits 6 to 0.
    pub fn node_id(self) -> (r: u8)
        ensures
            r == self@ & 0x7F,
    {
        let v = self.id;
        let n = v & 0x7F;
        assert(n <= 0x7F) by (bit_vector)
            requires
                n == v & 0x7F,
        ;
        n as u8
    }

    /// Try to create a standard ID from a 32 bit raw value.
    pub fn try_from_u32(value: u32) -> (r: Result<Self, InvalidId>)
        ensures
            match r {
                Ok(s) => value <= 0x7FF && s@ as u32 == value,
                Err(e) => value > 0x7FF && e == (InvalidId { id: Some(value), extended: false }),
            },
    {
        if value > MAX_STANDARD_ID as u32 {
            Err(InvalidId { id: Some(value), extended: false })
        } else {
            Ok(StandardId { id: value as u16 })
        }
    }
}

impl ExtendedId {
    #[verifier::type_invariant]
    spec fn inv(self) -> bool {
        self.id <= 0x1FFF_FFFF
    }

    /// Try to create a new extended ID from a raw value.
    ///
    /// Returns an error if the value doesn't fit in 29 bits.
    pub fn new(id: u32) -> (r: Result<Self, InvalidId>)
        ensures
            match r {
                Ok(e) => id <= 0x1FFF_FFFF && e@ == id,
                Err(e) => id > 0x1FFF_FFFF && e == (InvalidId { id: Some(id), extended: false }),
            },
    {
        if id <= MAX_EXTENDED_ID {
            Ok(ExtendedId { id })
        } else {
            Err(InvalidId { id: Some(id), extended: false })
        }
    }

    /// Create a new extended ID from a `u8`.
    pub fn from_u8(id: u8) -> (r: Self)
        ensures
            r@ == id as u32,
    {
        ExtendedId { id: id as u32 }
    }

    /// Create a new extended ID from a `u16`.
    pub fn from_u16(id: u16) -> (r: Self)
        ensures
            r@ == id as u32,
    {
        ExtendedId { id: id as u32 }
    }

    /// Get the raw value as a `u32`.
    pub fn as_u32(self) -> (r: u32)
        ensures
            r == self@,
            r <= 0x1FFF_FFFF,
    {
        proof {
            use_type_invariant(self);
        }
        self.id
    }
}

impl CanId {
    /// The numeric value of the ID, whatever its variant.
    pub open spec fn value(self) -> u32 {
        match self {
            CanId::Standard(s) => s@ as u32,
            CanId::Extended(e) => e@,
        }
    }

    /// Create a new CAN ID from a raw value.
    ///
    /// Values that fit in 11 bits give a standard ID, other values that fit in
    /// 29 bits give an extended ID, and larger values give an error.
    pub fn new(id: u32) -> (r: Result<Self, InvalidId>)
        ensures
            match r {
                Ok(c) => id <= 0x1FFF_FFFF && c.value() == id && (c is Standard <==> id <= 0x7FF),
                Err(e) => id > 0x1FFF_FFFF && e == (InvalidId { id: Some(id), extended: false }),
            },
    {
        if id <= MAX_STANDARD_ID as u32 {
            Ok(CanId::Standard(StandardId { id: id as u16 }))
        } else {
            match ExtendedId::new(id) {
                Ok(x) => Ok(CanId::Extended(x)),
                Err(e) => Err(e),
            }
        }
    }

    /// Create a new standard CAN ID from a raw value.
    pub fn new_standard(id: u16) -> (r: Result<Self, InvalidId>)
        ensures
            match r {
                Ok(c) => id <= 0x7FF && c is Standard && c.value() == id as u32,
                Err(e) => id > 0x7FF && e == (InvalidId { id: Some(id as u32), extended: false }),
            },
    {
        match StandardId::new(id) {
            Ok(x) => Ok(CanId::Standard(x)),
            Err(e) => Err(e),
        }
    }

    /// [`Self::new_standard`], named after the CAN 2.0 base frame format.
    pub fn new_base(id: u16) -> (r: Result<Self, InvalidId>)
        ensures
            match r {
                Ok(c) => id <= 0x7FF && c is Standard && c.value() == id as u32,
                Err(e) => id > 0x7FF && e == (InvalidId { id: Some(id as u32), extended: false }),
            },
    {
        Self::new_standard(id)
    }

    /// Create a new extended CAN ID from a raw value.
    pub fn new_extended(id: u32) -> (r: Result<Self, InvalidId>)
        ensures
            match r {
                Ok(c) => id <= 0x1FFF_FFFF && c is Extended && c.value() == id,
                Err(e) => id > 0x1FFF_FFFF && e == (InvalidId { id: Some(id), extended: false }),
            },
    {
        match ExtendedId::new(id) {
            Ok(x) => Ok(CanId::Extended(x)),
            Err(e) => Err(e),
        }
    }

    /// Get the raw value as a `u32`.
    pub fn as_u32(self) -> (r: u32)
        ensures
            r == self.value(),
            r <= 0x1FFF_FFFF,
    {
        self.to_extended().as_u32()
    }

    /// Get `self` as a `StandardId`, or `None` if this is an extended ID.
    ///
    /// An extended ID gives `None` even where its value would fit in 11 bits.
    pub fn as_standard(self) -> (r: Option<StandardId>)
        ensures
            match self {
                CanId::Standard(s) => r == Some(s),
                CanId::Extended(_) => r is None,
            },
    {
        match self {
            CanId::Standard(id) => Some(id),
            CanId::Extended(_) => None,
        }
    }

    /// [`Self::as_standard`], named after the CAN 2.0 base frame format.
    pub fn as_base(self) -> (r: Option<StandardId>)
        ensures
            match self {
                CanId::Standard(s) => r == Some(s),
                CanId::Extended(_) => r is None,
            },
    {
        self.as_standard()
    }

    /// Get `self` as an `ExtendedId`, or `None` if this is a standard ID.
    pub fn as_extended(self) -> (r: Option<ExtendedId>)
        ensures
            match self {
                CanId::Standard(_) => r is None,
                CanId::Extended(e) => r == Some(e),
            },
    {
        match self {
            CanId::Standard(_) => None,
            CanId::Extended(id) => Some(id),
        }
    }

    /// Try to convert the ID to a standard ID.
    ///
    /// Returns an error if the value doesn't fit in a standard ID.
    pub fn to_standard(self) -> (r: Result<StandardId, InvalidId>)
        ensures
            match r {
                Ok(s) => self.value() <= 0x7FF && s@ as u32 == self.value(),
                Err(e) => self.value() > 0x7FF && e == (InvalidId { id: Some(self.value()), extended: false }),
            },
    {
        match self {
            CanId::Standard(id) => {
                proof {
                    use_type_invariant(id);
                }
                Ok(id)
            },
            CanId::Extended(id) => StandardId::try_from_u32(id.as_u32()),
        }
    }

    /// [`Self::to_standard`], named after the CAN 2.0 base frame format.
    pub fn to_base(self) -> (r: Result<StandardId, InvalidId>)
        ensures
            match r {
                Ok(s) => self.value() <= 0x7FF && s@ as u32 == self.value(),
                Err(e) => self.value() > 0x7FF && e == (InvalidId { id: Some(self.value()), extended: false }),
            },
    {
        self.to_standard()
    }

    /// Convert the ID to an extended ID.
    pub fn to_extended(self) -> (r: ExtendedId)
        ensures
            r@ == self.value(),
    {
        match self {
            CanId::Standard(id) => ExtendedId::from_u16(id.as_u16()),
            CanId::Extended(id) => id,
        }
    }

    /// The ID that a `u16` denotes: standard where it fits, extended otherwise.
    pub fn from_u16(value: u16) -> (r: Self)
        ensures
            r.value() == value as u32,
            r is Standard <==> value <= 0x7FF,
    {
        if value <= MAX_STANDARD_ID {
            CanId::Standard(StandardId { id: value })
        } else {
            CanId::Extended(ExtendedId::from_u16(value))
        }
    }
}

/// The number that ID text denotes: `0x` hexadecimal, `0o` octal, `0b` binary, or decimal.
pub open spec fn spec_parse_number(b: Seq<u8>) -> Result<u32, NumberError> {
    if b.len() >= 2 && b[0] == 48 && b[1] == 120 {
        spec_parse_digits(b.subrange(2, b.len() as int), 16)
    } else if b.len() >= 2 && b[0] == 48 && b[1] == 111 {
        spec_parse_digits(b.subrange(2, b.len() as int), 8)
    } else if b.len() >= 2 && b[0] == 48 && b[1] == 98 {
        spec_parse_digits(b.subrange(2, b.len() as int), 2)
    } else {
        spec_parse_digits(b, 10)
    }
}

/// The value of a CAN ID that text denotes, or the error that parsing it gives.
pub open spec fn spec_parse_id(b: Seq<u8>) -> Result<u32, ParseIdError> {
    match spec_parse_number(b) {
        Err(NumberError::InvalidDigit) => Err(ParseIdError { kind: ParseIdErrorKind::InvalidFormat }),
        Err(NumberError::Overflow) => Err(
            ParseIdError { kind: ParseIdErrorKind::InvalidValue(InvalidId { id: None, extended: true }) },
        ),
        Ok(v) => if v > 0x1FFF_FFFF {
            Err(
                ParseIdError {
                    kind: ParseIdErrorKind::InvalidValue(InvalidId { id: Some(v), extended: true }),
                },
            )
        } else {
            Ok(v)
        },
    }
}

/// The decimal text of a value.
pub open spec fn decimal_text(v: u32) -> Seq<u8> {
    digits_of(v as nat, 10)
}

/// The `0x` hexadecimal text of a value, in lower case.
pub open spec fn hex_text(v: u32) -> Seq<u8> {
    seq![48u8, 120u8] + digits_of(v as nat, 16)
}

/// Read a number in one of the notations of [`spec_parse_number`].
pub fn parse_number(b: &[u8]) -> (r: Result<u32, NumberError>)
    ensures
        r == spec_parse_number(b@),
{
    if b.len() >= 2 && b[0] == 48 && b[1] == 120 {
        parse_digits(b, 2, 16)
    } else if b.len() >= 2 && b[0] == 48 && b[1] == 111 {
        parse_digits(b, 2, 8)
    } else if b.len() >= 2 && b[0] == 48 && b[1] == 98 {
        parse_digits(b, 2, 2)
    } else {
        proof {
            assert(b@.subrange(0, b@.len() as int) =~= b@);
        }
        parse_digits(b, 0, 10)
    }
}

/// Formatting an ID that was parsed, in decimal or in `0x` hexadecimal, and
/// parsing that text again gives the same ID.
pub proof fn lemma_parse_format_round_trip(b: Seq<u8>)
    requires
        spec_parse_id(b) is Ok,
    ensures
        spec_parse_id(decimal_text(spec_parse_id(b)->Ok_0)) == spec_parse_id(b),
        spec_parse_id(hex_text(spec_parse_id(b)->Ok_0)) == spec_parse_id(b),
{
    let v = spec_parse_id(b)->Ok_0;
    lemma_digits_of(v as nat, 10);
    lemma_digits_of(v as nat, 16);
    let d = decimal_text(v);
    if d.len() >= 2 {
        assert(all_digits(d, 10));
        assert(crate::number::digit_value(d[1]) < 10);
    }
    assert(d.subrange(0, d.len() as int) =~= d);
    let h = hex_text(v);
    assert(h.subrange(2, h.len() as int) =~= digits_of(v as nat, 16));
}

impl CanId {
    /// Parse an ID written in decimal, or in hexadecimal, octal or binary
    /// after a `0x`, `0o` or `0b` prefix.
    ///
    /// A value that fits in 11 bits gives a standard ID.
    pub fn parse_bytes(b: &[u8]) -> (r: Result<CanId, ParseIdError>)
        ensures
            match spec_parse_id(b@) {
                Ok(v) => r is Ok && r->Ok_0.value() == v && (r->Ok_0 is Standard <==> v <= 0x7FF),
                Err(e) => r == Err::<CanId, ParseIdError>(e),
            },
    {
        match parse_number(b) {
            Err(NumberError::InvalidDigit) => Err(ParseIdError { kind: ParseIdErrorKind::InvalidFormat }),
            Err(NumberError::Overflow) => Err(
                ParseIdError {
                    kind: ParseIdErrorKind::InvalidValue(InvalidId { id: None, extended: true }),
                },
            ),
            Ok(v) => match CanId::new(v) {
                Ok(id) => Ok(id),
                Err(_) => Err(
                    ParseIdError {
                        kind: ParseIdErrorKind::InvalidValue(InvalidId { id: Some(v), extended: true }),
                    },
                ),
            },
        }
    }

    /// Parse an ID from text, as [`Self::parse_bytes`] does.
    pub fn parse(s: &str) -> (r: Result<CanId, ParseIdError>)
        ensures
            match spec_parse_id(s.spec_bytes()) {
                Ok(v) => r is Ok && r->Ok_0.value() == v && (r->Ok_0 is Standard <==> v <= 0x7FF),
                Err(e) => r == Err::<CanId, ParseIdError>(e),
            },
    {
        Self::parse_bytes(s.as_bytes())
    }

    /// The value of the ID in decimal.
    pub fn to_decimal(&self) -> (r: Vec<u8>)
        ensures
            r@ == decimal_text(self.value()),
    {
        let mut out: Vec<u8> = Vec::new();
        push_digits(self.as_u32(), 10, &mut out);
        proof {
            assert(out@ =~= decimal_text(self.value()));
        }
        out
    }

    /// The value of the ID in lower-case hexadecimal, after `0x`.
    pub fn to_hex(&self) -> (r: Vec<u8>)
        ensures
            r@ == hex_text(self.value()),
    {
        let mut out: Vec<u8> = Vec::new();
        out.push(48u8);
        out.push(120u8);
        push_digits(self.as_u32(), 16, &mut out);
        proof {
            assert(out@ =~= hex_text(self.value()));
        }
        out
    }
}

/// The value that ID text denotes where it is at most `max`, or the error
/// that parsing it gives; `extended` is the flag of a value above `max`.
pub open spec fn spec_parse_bounded(b: Seq<u8>, max: u32, extended: bool) -> Result<u32, ParseIdError> {
    match spec_parse_number(b) {
        Err(NumberError::InvalidDigit) => Err(ParseIdError { kind: ParseIdErrorKind::InvalidFormat }),
        Err(NumberError::Overflow) => Err(
            ParseIdError { kind: ParseIdErrorKind::InvalidValue(InvalidId { id: None, extended: true }) },
        ),
        Ok(v) => if v > max {
            Err(ParseIdError { kind: ParseIdErrorKind::InvalidValue(InvalidId { id: Some(v), extended }) })
        } else {
            Ok(v)
        },
    }
}

fn parse_bounded(b: &[u8], max: u32, extended: bool) -> (r: Result<u32, ParseIdError>)
    ensures
        r == spec_parse_bounded(b@, max, extended),
{
    match parse_number(b) {
        Err(NumberError::InvalidDigit) => Err(ParseIdError { kind: ParseIdErrorKind::InvalidFormat }),
        Err(NumberError::Overflow) => Err(
            ParseIdError { kind: ParseIdErrorKind::InvalidValue(InvalidId { id: None, extended: true }) },
        ),
        Ok(v) => if v > max {
            Err(ParseIdError { kind: ParseIdErrorKind::InvalidValue(InvalidId { id: Some(v), extended }) })
        } else {
            Ok(v)
        },
    }
}

impl StandardId {
    /// Parse a standard ID written as [`CanId::parse`] reads IDs.
    pub fn parse(s: &str) -> (r: Result<StandardId, ParseIdError>)
        ensures
            match spec_parse_bounded(s.spec_bytes(), 0x7FF, false) {
                Ok(v) => r is Ok && r->Ok_0@ as u32 == v,
                Err(e) => r == Err::<StandardId, ParseIdError>(e),
            },
    {
        match parse_bounded(s.as_bytes(), 0x7FF, false) {
            Ok(v) => Ok(StandardId { id: v as u16 }),
            Err(e) => Err(e),
        }
    }
}

impl ExtendedId {
    /// Parse an extended ID written as [`CanId::parse`] reads IDs.
    pub fn parse(s: &str) -> (r: Result<ExtendedId, ParseIdError>)
        ensures
            match spec_parse_bounded(s.spec_bytes(), 0x1FFF_FFFF, true) {
                Ok(v) => r is Ok && r->Ok_0@ == v,
                Err(e) => r == Err::<ExtendedId, ParseIdError>(e),
            },
    {
        match parse_bounded(s.as_bytes(), 0x1FFF_FFFF, true) {
            Ok(v) => Ok(ExtendedId { id: v }),
            Err(e) => Err(e),
        }
    }
}

impl std::str::FromStr for CanId {
    type Err = ParseIdError;

    fn from_str(s: &str) -> Result<CanId, ParseIdError> {
        CanId::parse(s)
    }
}

impl std::str::FromStr for StandardId {
    type Err = ParseIdError;

    fn from_str(s: &str) -> Result<StandardId, ParseIdError> {
        StandardId::parse(s)
    }
}

impl std::str::FromStr for ExtendedId {
    type Err = ParseIdError;

    fn from_str(s: &str) -> Result<ExtendedId, ParseIdError> {
        ExtendedId::parse(s)
    }
}

impl From<StandardId> for CanId {
    fn from(value: StandardId) -> (r: Self) {
        CanId::Standard(value)
    }
}

impl vstd::std_specs::convert::FromSpecImpl<StandardId> for CanId {
    open spec fn obeys_from_spec() -> bool {
        true
    }

    open spec fn from_spec(v: StandardId) -> Self {
        CanId::Standard(v)
    }
}

impl From<ExtendedId> for CanId {
    fn from(value: ExtendedId) -> (r: Self) {
        CanId::Extended(value)
    }
}

impl vstd::std_specs::convert::FromSpecImpl<ExtendedId> for CanId {
    open spec fn obeys_from_spec() -> bool {
        true
    }

    open spec fn from_spec(v: ExtendedId) -> Self {
        CanId::Extended(v)
    }
}

} // verus!
