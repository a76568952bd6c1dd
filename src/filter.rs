//! Frame filters in the layout of the kernel's `struct can_filter`.

use vstd::prelude::*;
use crate::frame::{CanFrame, CanFrameView, CAN_EFF_FLAG, CAN_EFF_MASK, CAN_RTR_FLAG};
use crate::id::{CanId, ExtendedId, StandardId};

verus! {

/// Bit 29 of a filter's ID word: the filter's decision is inverted.
pub const CAN_INV_FILTER: u32 = 0x2000_0000;

/// The two words of a filter: the ID to compare with and the mask of the
/// bits that take part in the comparison.
pub ghost struct CanFilterView {
    pub id: u32,
    pub mask: u32,
}

impl CanFilterView {
    pub open spec fn match_id_value(self) -> CanFilterView {
        CanFilterView { id: self.id, mask: self.mask | CAN_EFF_MASK }
    }

    pub open spec fn match_id_mask(self, mask: u32) -> CanFilterView {
        CanFilterView { id: self.id, mask: self.mask | (mask & CAN_EFF_MASK) }
    }

    pub open spec fn match_frame_format(self) -> CanFilterView {
        CanFilterView { id: self.id, mask: self.mask | CAN_EFF_FLAG }
    }

    pub open spec fn match_exact_id(self) -> CanFilterView {
        CanFilterView { id: self.id, mask: self.mask | (CAN_EFF_MASK | CAN_EFF_FLAG) }
    }

    pub open spec fn match_rtr_only(self) -> CanFilterView {
        CanFilterView { id: self.id | CAN_RTR_FLAG, mask: self.mask | CAN_RTR_FLAG }
    }

    pub open spec fn match_data_only(self) -> CanFilterView {
        CanFilterView { id: self.id & !CAN_RTR_FLAG, mask: self.mask | CAN_RTR_FLAG }
    }

    pub open spec fn inverted(self, inverted: bool) -> CanFilterView {
        CanFilterView {
            id: if inverted {
                self.id | CAN_INV_FILTER
            } else {
                self.id & !CAN_INV_FILTER
            },
            mask: self.mask,
        }
    }

    pub open spec fn is_inverted(self) -> bool {
        self.id & CAN_INV_FILTER != 0
    }

    /// Whether a frame whose kernel `can_id` word is `word` passes the filter.
    pub open spec fn accepts(self, word: u32) -> bool {
        ((word & self.mask) == ((self.id & !CAN_INV_FILTER) & self.mask)) != self.is_inverted()
    }
}

/// A CAN filter: a frame passes where the bits of its `can_id` word under the
/// mask equal those of the filter's ID, the other way round where inverted.
///
/// A new filter has an empty mask and lets every frame pass; each
/// `match_*` method adds restrictions.
#[derive(Debug, Clone, Copy, PartialEq, Eq, Structural)]
pub struct CanFilter {
    id: u32,
    mask: u32,
}

impl View for CanFilter {
    type V = CanFilterView;

    closed spec fn view(&self) -> CanFilterView {
        CanFilterView { id: self.id, mask: self.mask }
    }
}

/// Adding the ID bits and then the frame format bit to a filter's mask gives
/// the filter that matches the exact ID.
pub proof fn lemma_exact_id_is_value_then_format(f: CanFilterView)
    ensures
        f.match_id_value().match_frame_format() == f.match_exact_id(),
{
    let m = f.mask;
    assert((m | 0x1FFF_FFFFu32) | 0x8000_0000u32 == m | (0x1FFF_FFFFu32 | 0x8000_0000u32)) by (bit_vector);
}

/// A filter made for an ID and restricted to its exact ID lets through
/// exactly the frames with that ID in the same format, remote requests or not.
pub proof fn lemma_exact_id_filter(id: CanId, frame: CanFrameView)
    requires
        id.value() <= 0x1FFF_FFFF,
        frame.id.value() <= 0x1FFF_FFFF,
    ensures
        (CanFilterView {
            id: id.value() | (if id is Extended { CAN_EFF_FLAG } else { 0u32 }),
            mask: 0,
        }).match_exact_id().accepts(frame.can_id_word()) <==> (frame.id.value() == id.value() && (frame.id is Extended) == (id is Extended)),
{
    let v = id.value();
    let w = frame.id.value();
    let e: u32 = if id is Extended { 0x8000_0000u32 } else { 0u32 };
    let fe: u32 = if frame.id is Extended { 0x8000_0000u32 } else { 0u32 };
    let fr: u32 = if frame.rtr { 0x4000_0000u32 } else { 0u32 };
    assert(((((w | (fe | fr)) & (0u32 | (0x1FFF_FFFFu32 | 0x8000_0000u32)))
        == (((v | e) & !0x2000_0000u32) & (0u32 | (0x1FFF_FFFFu32 | 0x8000_0000u32)))) != ((v | e) & 0x2000_0000u32 != 0))
        <==> (w == v && fe == e)) by (bit_vector)
        requires
            v <= 0x1FFF_FFFF,
            w <= 0x1FFF_FFFF,
            e == 0 || e == 0x8000_0000,
            fe == 0 || fe == 0x8000_0000,
            fr == 0 || fr == 0x4000_0000,
    ;
}

impl CanFilter {
    /// A filter on the given ID that lets every frame pass.
    pub fn new(id: CanId) -> (r: Self)
        ensures
            r@.mask == 0,
            r@.id == id.value() | (if id is Extended { CAN_EFF_FLAG } else { 0u32 }),
    {
        match id {
            CanId::Standard(s) => {
                let v = s.as_u16() as u32;
                assert(v | 0u32 == v) by (bit_vector);
                Self::new_standard(s)
            },
            CanId::Extended(e) => Self::new_extended(e),
        }
    }

    /// A filter on a standard ID that lets every frame pass.
    pub fn new_standard(id: StandardId) -> (r: Self)
        ensures
            r@ == (CanFilterView { id: id@ as u32, mask: 0 }),
    {
        CanFilter { id: id.as_u16() as u32, mask: 0 }
    }

    /// A filter on an extended ID that lets every frame pass.
    pub fn new_extended(id: ExtendedId) -> (r: Self)
        ensures
            r@ == (CanFilterView { id: id@ | CAN_EFF_FLAG, mask: 0 }),
    {
        CanFilter { id: id.as_u32() | CAN_EFF_FLAG, mask: 0 }
    }

    /// The filter with all bits of the ID added to the mask.
    pub fn match_id_value(self) -> (r: Self)
        ensures
            r@ == self@.match_id_value(),
    {
        CanFilter { id: self.id, mask: self.mask | CAN_EFF_MASK }
    }

    /// The filter with the ID bits of `mask` added to the mask.
    pub fn match_id_mask(self, mask: u32) -> (r: Self)
        ensures
            r@ == self@.match_id_mask(mask),
    {
        CanFilter { id: self.id, mask: self.mask | (mask & CAN_EFF_MASK) }
    }

    /// The filter that also requires the frame format (standard or extended)
    /// of its ID.
    pub fn match_frame_format(self) -> (r: Self)
        ensures
            r@ == self@.match_frame_format(),
    {
        CanFilter { id: self.id, mask: self.mask | CAN_EFF_FLAG }
    }

    /// The filter that requires the exact ID and frame format.
    pub fn match_exact_id(self) -> (r: Self)
        ensures
            r@ == self@.match_exact_id(),
    {
        CanFilter { id: self.id, mask: self.mask | (CAN_EFF_MASK | CAN_EFF_FLAG) }
    }

    /// The filter that lets only remote requests pass.
    pub fn match_rtr_only(self) -> (r: Self)
        ensures
            r@ == self@.match_rtr_only(),
    {
        CanFilter { id: self.id | CAN_RTR_FLAG, mask: self.mask | CAN_RTR_FLAG }
    }

    /// The filter that lets only data frames pass.
    pub fn match_data_only(self) -> (r: Self)
        ensures
            r@ == self@.match_data_only(),
    {
        CanFilter { id: self.id & !CAN_RTR_FLAG, mask: self.mask | CAN_RTR_FLAG }
    }

    /// The filter with its decision inverted, or not.
    pub fn inverted(self, inverted: bool) -> (r: Self)
        ensures
            r@ == self@.inverted(inverted),
    {
        if inverted {
            CanFilter { id: self.id | CAN_INV_FILTER, mask: self.mask }
        } else {
            CanFilter { id: self.id & !CAN_INV_FILTER, mask: self.mask }
        }
    }

    /// Whether the filter's decision is inverted.
    pub fn is_inverted(self) -> (r: bool)
        ensures
            r == self@.is_inverted(),
    {
        self.id & CAN_INV_FILTER != 0
    }

    /// The ID that the filter compares with.
    pub fn id(self) -> (r: u32)
        ensures
            r == self@.id & CAN_EFF_MASK,
    {
        self.id & CAN_EFF_MASK
    }

    /// The bits of the ID that take part in the comparison.
    pub fn id_mask(self) -> (r: u32)
        ensures
            r == self@.mask & CAN_EFF_MASK,
    {
        self.mask & CAN_EFF_MASK
    }

    /// Whether remote requests can pass.
    pub fn matches_rtr_frames(self) -> (r: bool)
        ensures
            r == (self@.mask & CAN_RTR_FLAG == 0 || self@.id & CAN_RTR_FLAG != 0),
    {
        self.mask & CAN_RTR_FLAG == 0 || self.id & CAN_RTR_FLAG != 0
    }

    /// Whether data frames can pass.
    pub fn matches_data_frames(self) -> (r: bool)
        ensures
            r == (self@.mask & CAN_RTR_FLAG == 0 || self@.id & CAN_RTR_FLAG == 0),
    {
        self.mask & CAN_RTR_FLAG == 0 || self.id & CAN_RTR_FLAG == 0
    }

    /// Whether frames with a standard ID can pass.
    pub fn matches_standard_frames(self) -> (r: bool)
        ensures
            r == (self@.mask & CAN_EFF_FLAG == 0 || self@.id & CAN_EFF_FLAG == 0),
    {
        self.mask & CAN_EFF_FLAG == 0 || self.id & CAN_EFF_FLAG == 0
    }

    /// Whether frames with an extended ID can pass.
    pub fn matches_extended_frames(self) -> (r: bool)
        ensures
            r == (self@.mask & CAN_EFF_FLAG == 0 || self@.id & CAN_EFF_FLAG != 0),
    {
        self.mask & CAN_EFF_FLAG == 0 || self.id & CAN_EFF_FLAG != 0
    }

    /// The kernel's `can_id` word of the filter.
    pub fn kernel_id(self) -> (r: u32)
        ensures
            r == self@.id,
    {
        self.id
    }

    /// The kernel's `can_mask` word of the filter.
    pub fn kernel_mask(self) -> (r: u32)
        ensures
            r == self@.mask,
    {
        self.mask
    }

    /// Whether a frame passes the filter.
    pub fn test(&self, frame: &CanFrame) -> (r: bool)
        ensures
            r == self@.accepts(frame@.can_id_word()),
    {
        let id = self.id & !CAN_INV_FILTER;
        let frame_matches = frame.can_id_word() & self.mask == id & self.mask;
        frame_matches != self.is_inverted()
    }
}

} // verus!
