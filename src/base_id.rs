//! Identifiers named after the frame formats of CAN 2.0: the 11 bit "base"
//! format and the 29 bit extended format. They convert one for one into
//! [`StandardId`] and [`ExtendedId`].

use vstd::prelude::*;
use crate::error::InvalidId;
use crate::id::{ExtendedId, StandardId};

verus! {

/// An 11 bit identifier of the CAN 2.0 base frame format.
#[derive(Debug, Clone, Copy, PartialEq, Eq, Structural, PartialOrd, Ord, Hash)]
pub struct CanBaseId {
    id: u16,
}

/// A 29 bit identifier of the CAN 2.0 extended frame format.
#[derive(Debug, Clone, Copy, PartialEq, Eq, Structural, PartialOrd, Ord, Hash)]
pub struct CanExtendedId {
    id: u32,
}

impl View for CanBaseId {
    type V = u16;

    closed spec fn view(&self) -> u16 {
        self.id
    }
}

impl View for CanExtendedId {
    type V = u32;

    closed spec fn view(&self) -> u32 {
        self.id
    }
}

impl CanBaseId {
    #[verifier::type_invariant]
    spec fn inv(self) -> bool {
        self.id <= 0x7FF
    }

    /// The base ID with the given value, or an error where it does not fit in 11 bits.
    pub fn new(id: u16) -> (r: Result<Self, InvalidId>)
        ensures
            match r {
                Ok(b) => id <= 0x7FF && b@ == id,
                Err(e) => id > 0x7FF && e == (InvalidId { id: Some(id as u32), extended: false }),
            },
    {
        if id <= 0x7FF {
            Ok(CanBaseId { id })
        } else {
            Err(InvalidId { id: Some(id as u32), extended: false })
        }
    }

    /// The base ID with the value of a `u8`.
    pub fn from_u8(id: u8) -> (r: Self)
        ensures
            r@ == id as u16,
    {
        CanBaseId { id: id as u16 }
    }

    /// The value of the ID.
    pub fn as_u16(self) -> (r: u16)
        ensures
            r == self@,
            r <= 0x7FF,
    {
        proof {
            use_type_invariant(self);
        }
        self.id
    }

    /// The same ID as a [`StandardId`].
    pub fn to_standard(self) -> (r: StandardId)
        ensures
            r@ == self@,
    {
        match StandardId::new(self.as_u16()) {
            Ok(s) => s,
            Err(_) => StandardId::from_u8(0),
        }
    }

    /// The base ID of a [`StandardId`].
    pub fn from_standard(id: StandardId) -> (r: Self)
        ensures
            r@ == id@,
    {
        CanBaseId { id: id.as_u16() }
    }
}

impl CanExtendedId {
    #[verifier::type_invariant]
    spec fn inv(self) -> bool {
        self.id <= 0x1FFF_FFFF
    }

    /// The extended ID with the given value, or an error where it does not fit in 29 bits.
    pub fn new(id: u32) -> (r: Result<Self, InvalidId>)
        ensures
            match r {
                Ok(e) => id <= 0x1FFF_FFFF && e@ == id,
                Err(e) => id > 0x1FFF_FFFF && e == (InvalidId { id: Some(id), extended: true }),
            },
    {
        if id <= 0x1FFF_FFFF {
            Ok(CanExtendedId { id })
        } else {
            Err(InvalidId { id: Some(id), extended: true })
        }
    }

    /// The extended ID with the value of a `u8`.
    pub fn from_u8(id: u8) -> (r: Self)
        ensures
            r@ == id as u32,
    {
        CanExtendedId { id: id as u32 }
    }

    /// The extended ID with the value of a `u16`.
    pub fn from_u16(id: u16) -> (r: Self)
        ensures
            r@ == id as u32,
    {
        CanExtendedId { id: id as u32 }
    }

    /// The value of the ID.
    pub fn as_u32(self) -> (r: u32)
        ensures
            r == self@,
            r <= 0x1FFF_FFFF,
    {
        proof {
            use_type_invariant(self);
        }
        self.id
    }

    /// The same ID as an [`ExtendedId`].
    pub fn to_extended(self) -> (r: ExtendedId)
        ensures
            r@ == self@,
    {
        match ExtendedId::new(self.as_u32()) {
            Ok(e) => e,
            Err(_) => ExtendedId::from_u8(0),
        }
    }

    /// The extended ID of an [`ExtendedId`].
    pub fn from_extended(id: ExtendedId) -> (r: Self)
        ensures
            r@ == id@,
    {
        CanExtendedId { id: id.as_u32() }
    }
}

} // verus!
