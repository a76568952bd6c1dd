//! Object dictionary addresses, SDO channel addresses and CAN interfaces.

use vstd::prelude::*;
use crate::error::InvalidId;
use crate::id::StandardId;

verus! {

/// An entry in a CANopen node's object dictionary.
#[derive(Debug, Clone, Copy, PartialEq, Eq, Structural, PartialOrd, Ord, Hash)]
pub struct ObjectIndex {
    /// The index of the object.
    pub index: u16,
    /// The subindex within the object.
    pub subindex: u8,
}

impl ObjectIndex {
    /// The entry `index:subindex`.
    pub fn new(index: u16, subindex: u8) -> (r: Self)
        ensures
            r == (ObjectIndex { index, subindex }),
    {
        ObjectIndex { index, subindex }
    }
}

/// The two 11 bit bases of an SDO channel: commands go to
/// `command_address | node_id`, responses come from `response_address | node_id`.
#[derive(Debug, Clone, Copy, PartialEq, Eq, Structural)]
pub struct SdoAddress {
    command_address: u16,
    response_address: u16,
}

/// The frame ID of one node on an SDO base address.
pub open spec fn node_address(base: u16, node_id: u8) -> u16 {
    base | (node_id as u16)
}

impl SdoAddress {
    #[verifier::type_invariant]
    spec fn inv(self) -> bool {
        self.command_address <= 0x7FF && self.response_address <= 0x7FF
    }

    /// The base of the commands from client to server.
    pub closed spec fn spec_command_address(self) -> u16 {
        self.command_address
    }

    /// The base of the responses from server to client.
    pub closed spec fn spec_response_address(self) -> u16 {
        self.response_address
    }

    /// An SDO address with the given bases, or an error if one of them does
    /// not fit in 11 bits.
    pub fn new(command_address: u16, response_address: u16) -> (r: Result<Self, InvalidId>)
        ensures
            match r {
                Ok(a) => command_address <= 0x7FF && response_address <= 0x7FF
                    && a.spec_command_address() == command_address
                    && a.spec_response_address() == response_address,
                Err(e) => if command_address > 0x7FF {
                    e == (InvalidId { id: Some(command_address as u32), extended: false })
                } else {
                    response_address > 0x7FF && e == (InvalidId { id: Some(response_address as u32), extended: false })
                },
            },
    {
        if let Err(e) = StandardId::new(command_address) {
            return Err(e);
        }
        if let Err(e) = StandardId::new(response_address) {
            return Err(e);
        }
        Ok(SdoAddress { command_address, response_address })
    }

    /// The default SDO channel: commands on 0x600, responses on 0x580.
    pub fn standard() -> (r: Self)
        ensures
            r.spec_command_address() == 0x600,
            r.spec_response_address() == 0x580,
    {
        SdoAddress { command_address: 0x600, response_address: 0x580 }
    }

    /// The ID of the commands to a node.
    pub fn command_id(self, node_id: u8) -> (r: StandardId)
        ensures
            r@ == node_address(self.spec_command_address(), node_id),
    {
        proof {
            use_type_invariant(self);
        }
        or_in_range(self.command_address, node_id)
    }

    /// The ID of the responses from a node.
    pub fn response_id(self, node_id: u8) -> (r: StandardId)
        ensures
            r@ == node_address(self.spec_response_address(), node_id),
    {
        proof {
            use_type_invariant(self);
        }
        or_in_range(self.response_address, node_id)
    }

    /// The base of the commands from client to server.
    pub fn command_address(self) -> (r: u16)
        ensures
            r == self.spec_command_address(),
    {
        self.command_address
    }

    /// The base of the responses from server to client.
    pub fn response_address(self) -> (r: u16)
        ensures
            r == self.spec_response_address(),
    {
        self.response_address
    }
}

/// The standard ID `base | node_id`, for an 11 bit base.
pub fn or_in_range(base: u16, node_id: u8) -> (r: StandardId)
    requires
        base <= 0x7FF,
    ensures
        r@ == node_address(base, node_id),
{
    let n = node_id as u16;
    let v = base | n;
    assert(v <= 0x7FF) by (bit_vector)
        requires
            base <= 0x7FF,
            n <= 0xFF,
            v == base | n,
    ;
    match StandardId::new(v) {
        Ok(id) => id,
        Err(_) => StandardId::from_u8(0),
    }
}

/// CANopen parts of a standard ID: the function code in bits 10 to 7 and
/// the node ID in bits 6 to 0.
pub trait CanBaseIdExt {
    /// The function code (bits 10 to 7) of the ID.
    fn function_code(&self) -> u16;

    /// The node ID (bits 6 to 0) of the ID.
    fn node_id(&self) -> u8;
}

impl CanBaseIdExt for StandardId {
    fn function_code(&self) -> (r: u16) {
        StandardId::function_code(*self)
    }

    fn node_id(&self) -> (r: u8) {
        StandardId::node_id(*self)
    }
}

/// A network interface, known by its index; index 0 stands for all CAN
/// interfaces.
#[derive(Debug, Clone, Copy, PartialEq, Eq, Structural, PartialOrd, Ord, Hash)]
pub struct CanInterface {
    index: u32,
}

impl CanInterface {
    /// The interface with the given index.
    pub fn from_index(index: u32) -> (r: Self)
        ensures
            r.spec_index() == index,
    {
        CanInterface { index }
    }

    /// The index of the interface.
    pub closed spec fn spec_index(self) -> u32 {
        self.index
    }

    /// The index of the interface.
    pub fn index(&self) -> (r: u32)
        ensures
            r == self.spec_index(),
    {
        self.index
    }
}

} // verus!
