//! CAN payloads and frames, and their layout in the kernel's `struct can_frame`.

use vstd::prelude::*;
use crate::error::{InvalidDataLengthCode, InvalidId, TryIntoCanDataError, TryNewCanFrameError, TryNewCanFrameErrorKind};
use crate::id::{CanId, ExtendedId, StandardId};

verus! {

/// Bit 31 of the kernel's `can_id` word: the frame has an extended ID.
pub const CAN_EFF_FLAG: u32 = 0x8000_0000;

/// Bit 30 of the kernel's `can_id` word: the frame is a remote transmission request.
pub const CAN_RTR_FLAG: u32 = 0x4000_0000;

/// Bit 29 of the kernel's `can_id` word: the frame reports an error.
pub const CAN_ERR_FLAG: u32 = 0x2000_0000;

/// The bits of the kernel's `can_id` word that hold a standard ID.
pub const CAN_SFF_MASK: u32 = 0x0000_07FF;

/// The bits of the kernel's `can_id` word that hold an extended ID.
pub const CAN_EFF_MASK: u32 = 0x1FFF_FFFF;

/// The data payload of a CAN frame: up to 8 bytes.
#[derive(Debug, Clone, Copy)]
pub struct CanData {
    data: [u8; 8],
    len: u8,
}

impl View for CanData {
    type V = Seq<u8>;

    closed spec fn view(&self) -> Seq<u8> {
        self.data@.subrange(0, self.len as int)
    }
}

impl CanData {
    #[verifier::type_invariant]
    spec fn inv(self) -> bool {
        &&& self.len <= 8
        &&& forall|i: int| self.len <= i < 8 ==> self.data@[i] == 0
    }

    /// Build a payload from at most 8 bytes, zero filling the rest.
    fn from_prefix(src: &[u8]) -> (r: Self)
        requires
            src@.len() <= 8,
        ensures
            r@ == src@,
    {
        let mut data = [0u8; 8];
        let mut i: usize = 0;
        while i < src.len()
            invariant
                i <= src@.len() <= 8,
                data@.len() == 8,
                forall|j: int| 0 <= j < i ==> data@[j] == src@[j],
                forall|j: int| i <= j < 8 ==> data@[j] == 0,
            decreases src@.len() - i,
        {
            data[i] = src[i];
            i = i + 1;
        }
        let r = CanData { data, len: src.len() as u8 };
        assert(r@ =~= src@);
        r
    }

    /// Construct a payload from an array of at most 8 bytes.
    pub fn new<const N: usize>(data: [u8; N]) -> (r: Self)
        requires
            N <= 8,
        ensures
            r@ == data@,
    {
        Self::from_prefix(data.as_slice())
    }

    /// Construct a payload from a slice, or report that it holds more than 8 bytes.
    pub fn try_new(data: &[u8]) -> (r: Result<Self, TryIntoCanDataError>)
        ensures
            match r {
                Ok(d) => data@.len() <= 8 && d@ == data@,
                Err(e) => data@.len() > 8 && e == (TryIntoCanDataError { len: data@.len() as usize }),
            },
    {
        if data.len() > 8 {
            Err(TryIntoCanDataError { len: data.len() })
        } else {
            Ok(Self::from_prefix(data))
        }
    }

    /// An empty payload.
    pub fn empty() -> (r: Self)
        ensures
            r@ == Seq::<u8>::empty(),
    {
        let r = CanData { data: [0u8; 8], len: 0 };
        assert(r@ =~= Seq::<u8>::empty());
        r
    }

    /// A payload of `len` zero bytes.
    fn zeroes(len: u8) -> (r: Self)
        requires
            len <= 8,
        ensures
            r@ == Seq::new(len as nat, |i: int| 0u8),
    {
        let r = CanData { data: [0u8; 8], len };
        assert(r@ =~= Seq::new(len as nat, |i: int| 0u8));
        r
    }

    /// The number of bytes in the payload.
    pub fn len(&self) -> (r: usize)
        ensures
            r == self@.len(),
            r <= 8,
    {
        proof {
            use_type_invariant(self);
        }
        self.len as usize
    }

    /// Whether the payload holds no bytes.
    pub fn is_empty(&self) -> (r: bool)
        ensures
            r == (self@.len() == 0),
    {
        self.len() == 0
    }

    /// The byte at position `i`.
    pub fn get(&self, i: usize) -> (r: u8)
        requires
            i < self@.len(),
        ensures
            r == self@[i as int],
    {
        proof {
            use_type_invariant(self);
        }
        self.data[i]
    }

    /// Get the data as a slice of bytes.
    pub fn as_slice(&self) -> (r: &[u8])
        ensures
            r@ == self@,
    {
        proof {
            use_type_invariant(self);
        }
        vstd::slice::slice_subrange(self.data.as_slice(), 0, self.len as usize)
    }

    /// The eight data bytes as they stand in the kernel's frame: the payload,
    /// then zeroes.
    pub fn to_array(&self) -> (r: [u8; 8])
        ensures
            r@.subrange(0, self@.len() as int) == self@,
            forall|i: int| self@.len() <= i < 8 ==> r@[i] == 0,
    {
        proof {
            use_type_invariant(self);
        }
        self.data
    }

    /// Whether two payloads hold the same bytes.
    pub fn same_bytes(&self, other: &CanData) -> (r: bool)
        ensures
            r == (self@ == other@),
    {
        let a = self.as_slice();
        let b = other.as_slice();
        if a.len() != b.len() {
            return false;
        }
        let mut i: usize = 0;
        while i < a.len()
            invariant
                a@ == self@,
                b@ == other@,
                a@.len() == b@.len(),
                i <= a@.len(),
                forall|j: int| 0 <= j < i ==> a@[j] == b@[j],
            decreases a@.len() - i,
        {
            if a[i] != b[i] {
                return false;
            }
            i = i + 1;
        }
        assert(a@ =~= b@);
        true
    }
}

impl PartialEq for CanData {
    fn eq(&self, other: &CanData) -> (r: bool) {
        self.same_bytes(other)
    }
}

impl vstd::std_specs::cmp::PartialEqSpecImpl for CanData {
    open spec fn obeys_eq_spec() -> bool {
        true
    }

    open spec fn eq_spec(&self, other: &CanData) -> bool {
        self@ == other@
    }
}

impl Eq for CanData {
}

/// What a frame holds: its ID, whether it is a remote request, its payload
/// and its data length code.
pub ghost struct CanFrameView {
    pub id: CanId,
    pub rtr: bool,
    pub data: Seq<u8>,
    pub dlc: u8,
}

/// The payload length that a data length code gives: the code itself up to
/// 8, and 8 for the codes 9 to 15.
pub open spec fn dlc_len(dlc: u8) -> nat {
    if dlc <= 8 {
        dlc as nat
    } else {
        8
    }
}

/// A CAN frame as transmitted over a CAN socket.
#[derive(Debug, Clone, Copy)]
pub struct CanFrame {
    id: CanId,
    rtr: bool,
    data: CanData,
    dlc: u8,
}

impl View for CanFrame {
    type V = CanFrameView;

    closed spec fn view(&self) -> CanFrameView {
        CanFrameView { id: self.id, rtr: self.rtr, data: self.data@, dlc: self.dlc }
    }
}

impl CanFrameView {
    /// The kernel's `can_id` word of the frame.
    pub open spec fn can_id_word(self) -> u32 {
        let flags: u32 = (if self.id is Extended {
            CAN_EFF_FLAG
        } else {
            0u32
        }) | (if self.rtr {
            CAN_RTR_FLAG
        } else {
            0u32
        });
        self.id.value() | flags
    }
}

impl CanFrame {
    #[verifier::type_invariant]
    spec fn inv(self) -> bool {
        &&& self.dlc <= 15
        &&& self.data@.len() == dlc_len(self.dlc)
        &&& self.rtr ==> forall|i: int| 0 <= i < self.data@.len() ==> self.data@[i] == 0
    }

    /// Create a new data frame with the given CAN ID and data payload.
    ///
    /// The data length code is the length of the payload.
    pub fn new(id: CanId, data: CanData) -> (r: Self)
        ensures
            r@.id == id,
            !r@.rtr,
            r@.data == data@,
            r@.dlc == data@.len(),
    {
        let len = data.len() as u8;
        CanFrame { id, rtr: false, data, dlc: len }
    }

    /// Create a new data frame from a raw ID and a slice of bytes.
    ///
    /// The ID is standard where it fits in 11 bits. An ID above 29 bits or
    /// more than 8 bytes of data is an error; the ID is checked first.
    pub fn try_new(id: u32, data: &[u8]) -> (r: Result<Self, TryNewCanFrameError>)
        ensures
            match r {
                Ok(f) => id <= 0x1FFF_FFFF && data@.len() <= 8
                    && f@.id.value() == id && (f@.id is Standard <==> id <= 0x7FF)
                    && !f@.rtr && f@.data == data@ && f@.dlc == data@.len(),
                Err(e) => if id > 0x1FFF_FFFF {
                    e == (TryNewCanFrameError { kind: TryNewCanFrameErrorKind::InvalidId(InvalidId { id: Some(id), extended: false }) })
                } else {
                    data@.len() > 8 && e == (TryNewCanFrameError {
                        kind: TryNewCanFrameErrorKind::InvalidData(TryIntoCanDataError { len: data@.len() as usize }),
                    })
                },
            },
    {
        let id = match CanId::new(id) {
            Ok(id) => id,
            Err(e) => return Err(TryNewCanFrameError { kind: TryNewCanFrameErrorKind::InvalidId(e) }),
        };
        match CanData::try_new(data) {
            Ok(d) => Ok(Self::new(id, d)),
            Err(e) => Err(TryNewCanFrameError { kind: TryNewCanFrameErrorKind::InvalidData(e) }),
        }
    }

    /// Create a new remote transmission request (RTR) frame with a data length code of 0.
    pub fn new_rtr(id: CanId) -> (r: Self)
        ensures
            r@.id == id,
            r@.rtr,
            r@.data == Seq::<u8>::empty(),
            r@.dlc == 0,
    {
        CanFrame { id, rtr: true, data: CanData::empty(), dlc: 0 }
    }

    /// Get the CAN ID of the frame.
    pub fn id(&self) -> (r: CanId)
        ensures
            r == self@.id,
    {
        self.id
    }

    /// Check if this frame is a remote transmission request (an RTR frame).
    pub fn is_rtr(&self) -> (r: bool)
        ensures
            r == self@.rtr,
    {
        self.rtr
    }

    /// Get the data of the frame: `None` for RTR frames, `Some(data)` for data frames.
    pub fn data(&self) -> (r: Option<CanData>)
        ensures
            match r {
                Some(d) => !self@.rtr && d@ == self@.data,
                None => self@.rtr,
            },
    {
        if self.rtr {
            None
        } else {
            Some(self.data)
        }
    }

    /// Set the data length code of the frame.
    ///
    /// Bytes that a larger code makes available are zero. The codes 9 to 15
    /// give 8 data bytes and are kept as the frame's code. A code above 15 is
    /// refused and leaves the frame as it was.
    pub fn set_data_length_code(&mut self, dlc: u8) -> (r: Result<(), InvalidDataLengthCode>)
        ensures
            match r {
                Ok(()) => dlc <= 15 && final(self)@ == (CanFrameView {
                    id: old(self)@.id,
                    rtr: old(self)@.rtr,
                    data: Seq::new(dlc_len(dlc), |i: int| if i < old(self)@.data.len() { old(self)@.data[i] } else { 0u8 }),
                    dlc,
                }),
                Err(e) => dlc > 15 && e == (InvalidDataLengthCode { value: dlc }) && *final(self) == *old(self),
            },
    {
        if dlc > 15 {
            return Err(InvalidDataLengthCode { value: dlc });
        }
        proof {
            use_type_invariant(&*self);
        }
        let new_len: usize = if dlc > 8 { 8 } else { dlc as usize };
        let old_data = self.data.as_slice();
        let mut bytes = [0u8; 8];
        let mut i: usize = 0;
        while i < new_len && i < old_data.len()
            invariant
                i <= new_len <= 8,
                i <= old_data@.len(),
                old_data@ == self.data@,
                bytes@.len() == 8,
                forall|j: int| 0 <= j < i ==> bytes@[j] == old_data@[j],
                forall|j: int| i <= j < 8 ==> bytes@[j] == 0,
            decreases new_len - i,
        {
            bytes[i] = old_data[i];
            i = i + 1;
        }
        let ghost want = Seq::new(dlc_len(dlc), |j: int| if j < self.data@.len() { self.data@[j] } else { 0u8 });
        let data = CanData::from_prefix(vstd::slice::slice_subrange(bytes.as_slice(), 0, new_len));
        assert(data@ =~= want);
        *self = CanFrame { id: self.id, rtr: self.rtr, data, dlc };
        Ok(())
    }

    /// A copy of the frame with a modified data length code.
    pub fn with_data_length_code(self, dlc: u8) -> (r: Result<Self, InvalidDataLengthCode>)
        ensures
            match r {
                Ok(f) => dlc <= 15 && f@ == (CanFrameView {
                    id: self@.id,
                    rtr: self@.rtr,
                    data: Seq::new(dlc_len(dlc), |i: int| if i < self@.data.len() { self@.data[i] } else { 0u8 }),
                    dlc,
                }),
                Err(e) => dlc > 15 && e == (InvalidDataLengthCode { value: dlc }),
            },
    {
        let mut f = self;
        match f.set_data_length_code(dlc) {
            Ok(()) => Ok(f),
            Err(e) => Err(e),
        }
    }

    /// Get the data length code of the frame (it may be higher than the
    /// number of data bytes in the frame).
    pub fn data_length_code(&self) -> (r: u8)
        ensures
            r == self@.dlc,
            r <= 15,
            self@.data.len() == dlc_len(r),
    {
        proof {
            use_type_invariant(self);
        }
        self.dlc
    }

    /// The kernel's `can_id` word: the ID, with bit 31 set for an extended
    /// ID and bit 30 for a remote request.
    pub fn can_id_word(&self) -> (r: u32)
        ensures
            r == self@.can_id_word(),
    {
        let flags: u32 = (if self.id.as_extended().is_some() {
            CAN_EFF_FLAG
        } else {
            0u32
        }) | (if self.rtr {
            CAN_RTR_FLAG
        } else {
            0u32
        });
        self.id.as_u32() | flags
    }

    /// The kernel's `can_dlc` byte: the number of data bytes.
    pub fn kernel_len(&self) -> (r: u8)
        ensures
            r as nat == dlc_len(self@.dlc),
    {
        proof {
            use_type_invariant(self);
        }
        if self.dlc > 8 {
            8
        } else {
            self.dlc
        }
    }

    /// The kernel's `len8_dlc` byte: the data length code where it is 9 to
    /// 15, and 0 otherwise.
    pub fn kernel_len8_dlc(&self) -> (r: u8)
        ensures
            r == (if self@.dlc > 8 { self@.dlc } else { 0u8 }),
    {
        if self.dlc > 8 {
            self.dlc
        } else {
            0
        }
    }

    /// The kernel's eight data bytes: the payload, then zeroes.
    pub fn kernel_data(&self) -> (r: [u8; 8])
        ensures
            r@.subrange(0, self@.data.len() as int) == self@.data,
            forall|i: int| self@.data.len() <= i < 8 ==> r@[i] == 0,
    {
        self.data.to_array()
    }

    /// Read a frame from the fields of the kernel's `struct can_frame`.
    ///
    /// Bit 31 of `can_id` selects an extended ID, bit 30 a remote request.
    /// At most 8 data bytes are taken; `len8_dlc` is kept as the data length
    /// code where `can_dlc` is 8 and it lies in 9 to 15.
    pub fn from_kernel(can_id: u32, can_dlc: u8, len8_dlc: u8, data: [u8; 8]) -> (r: Self)
        ensures
            r@.id.value() == (if can_id & CAN_EFF_FLAG != 0 {
                can_id & CAN_EFF_MASK
            } else {
                can_id & CAN_SFF_MASK
            }),
            (r@.id is Extended) == (can_id & CAN_EFF_FLAG != 0),
            r@.rtr == (can_id & CAN_RTR_FLAG != 0),
            r@.dlc == (if can_dlc >= 8 && 9 <= len8_dlc <= 15 {
                len8_dlc
            } else if can_dlc >= 8 {
                8u8
            } else {
                can_dlc
            }),
            r@.rtr ==> r@.data == Seq::new(dlc_len(r@.dlc), |i: int| 0u8),
            !r@.rtr ==> r@.data == data@.subrange(0, dlc_len(r@.dlc) as int),
    {
        let id = if can_id & CAN_EFF_FLAG != 0 {
            let v = can_id & CAN_EFF_MASK;
            assert(v <= 0x1FFF_FFFF) by (bit_vector)
                requires
                    v == can_id & 0x1FFF_FFFF,
            ;
            match ExtendedId::new(v) {
                Ok(e) => CanId::Extended(e),
                Err(_) => CanId::Extended(ExtendedId::from_u8(0)),
            }
        } else {
            let v = can_id & CAN_SFF_MASK;
            assert(v <= 0x7FF) by (bit_vector)
                requires
                    v == can_id & 0x7FF,
            ;
            match StandardId::try_from_u32(v) {
                Ok(s) => CanId::Standard(s),
                Err(_) => CanId::Standard(StandardId::from_u8(0)),
            }
        };
        let rtr = can_id & CAN_RTR_FLAG != 0;
        let dlc: u8 = if can_dlc >= 8 && 9 <= len8_dlc && len8_dlc <= 15 {
            len8_dlc
        } else if can_dlc >= 8 {
            8
        } else {
            can_dlc
        };
        let len: usize = if dlc > 8 { 8 } else { dlc as usize };
        let payload = if rtr {
            CanData::zeroes(len as u8)
        } else {
            CanData::from_prefix(vstd::slice::slice_subrange(data.as_slice(), 0, len))
        };
        CanFrame { id, rtr, data: payload, dlc }
    }
}

} // verus!
