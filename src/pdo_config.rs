//! Reading and writing PDO configurations over SDO: where each parameter
//! lives, how the COB-ID word packs them, and the order of the writes that
//! reconfigure a PDO without leaving it enabled half-way.

use vstd::prelude::*;
use crate::id::CanId;
use crate::object::ObjectIndex;
use crate::pdo::{
    spec_mapping_u32, InvalidPdoNumber, PdoConfigError, PdoMapping, RpdoCommunicationParameters,
    RpdoConfiguration, RpdoTransmissionType, TpdoCommunicationParameters, TpdoConfiguration,
    TpdoTransmissionType,
};

verus! {

/// Bit 31 of a COB-ID word: the PDO is disabled.
pub const COB_ID_DISABLED: u32 = 0x8000_0000;

/// Bit 30 of a transmit PDO's COB-ID word: remote requests are not allowed.
pub const COB_ID_NO_RTR: u32 = 0x4000_0000;

/// Bit 29 of a COB-ID word: the ID is extended.
pub const COB_ID_EXTENDED: u32 = 0x2000_0000;

/// The object of a PDO parameter set: `base + pdo` for PDO numbers up to 511.
pub open spec fn spec_pdo_object(base: u16, pdo: u16) -> Result<u16, InvalidPdoNumber> {
    if pdo < 512 {
        Ok((base + pdo) as u16)
    } else {
        Err(InvalidPdoNumber { value: pdo })
    }
}

fn pdo_object(base: u16, pdo: u16) -> (r: Result<u16, InvalidPdoNumber>)
    requires
        base <= 0x1A00,
    ensures
        r == spec_pdo_object(base, pdo),
{
    if pdo < 512 {
        Ok(base + pdo)
    } else {
        Err(InvalidPdoNumber { value: pdo })
    }
}

/// The communication parameter object of receive PDO `pdo`: 0x1400 + pdo.
pub fn rpdo_communication_params_object(pdo: u16) -> (r: Result<u16, InvalidPdoNumber>)
    ensures
        r == spec_pdo_object(0x1400, pdo),
{
    pdo_object(0x1400, pdo)
}

/// The mapping object of receive PDO `pdo`: 0x1600 + pdo.
pub fn rpdo_mapping_object(pdo: u16) -> (r: Result<u16, InvalidPdoNumber>)
    ensures
        r == spec_pdo_object(0x1600, pdo),
{
    pdo_object(0x1600, pdo)
}

/// The communication parameter object of transmit PDO `pdo`: 0x1800 + pdo.
pub fn tpdo_communication_params_object(pdo: u16) -> (r: Result<u16, InvalidPdoNumber>)
    ensures
        r == spec_pdo_object(0x1800, pdo),
{
    pdo_object(0x1800, pdo)
}

/// The mapping object of transmit PDO `pdo`: 0x1A00 + pdo.
pub fn tpdo_mapping_object(pdo: u16) -> (r: Result<u16, InvalidPdoNumber>)
    ensures
        r == spec_pdo_object(0x1A00, pdo),
{
    pdo_object(0x1A00, pdo)
}

/// Whether a parameter object whose subindex 0 reads `valid_subindices`
/// holds subindex `subindex`. Absent parameters read as 0.
pub fn has_subindex(valid_subindices: u32, subindex: u8) -> (r: bool)
    ensures
        r == (valid_subindices >= subindex),
{
    valid_subindices >= subindex as u32
}

/// The ID that a COB-ID word names: bits 28 to 0, extended where bit 29 is
/// set or the value does not fit in 11 bits.
pub open spec fn cob_id_extended(word: u32) -> bool {
    word & COB_ID_EXTENDED != 0 || word & 0x1FFF_FFFF > 0x7FF
}

/// The ID that a COB-ID word names.
pub fn cob_id_from_word(word: u32) -> (r: CanId)
    ensures
        r.value() == word & 0x1FFF_FFFF,
        (r is Extended) == cob_id_extended(word),
{
    let v = word & 0x1FFF_FFFF;
    assert(v <= 0x1FFF_FFFF) by (bit_vector)
        requires
            v == word & 0x1FFF_FFFF,
    ;
    if word & COB_ID_EXTENDED != 0 {
        match CanId::new_extended(v) {
            Ok(id) => id,
            Err(_) => CanId::from_u16(0),
        }
    } else {
        match CanId::new(v) {
            Ok(id) => id,
            Err(_) => CanId::from_u16(0),
        }
    }
}

/// The COB-ID word of an ID with the PDO enabled: the value, with bit 29
/// set for an extended ID.
pub open spec fn spec_cob_id_word(id: CanId) -> u32 {
    if id is Extended {
        id.value() | COB_ID_EXTENDED
    } else {
        id.value()
    }
}

/// The COB-ID word of an ID with the PDO enabled.
pub fn cob_id_word(id: CanId) -> (r: u32)
    ensures
        r == spec_cob_id_word(id),
        r & COB_ID_DISABLED == 0,
        r & COB_ID_NO_RTR == 0,
{
    let v = id.as_u32();
    let r = match id {
        CanId::Standard(_) => v,
        CanId::Extended(_) => v | COB_ID_EXTENDED,
    };
    assert(r & 0x8000_0000 == 0 && r & 0x4000_0000 == 0) by (bit_vector)
        requires
            v <= 0x1FFF_FFFF,
            r == v || r == v | 0x2000_0000,
    ;
    r
}

/// Read the communication parameters of a receive PDO from the values of
/// its subindices 1 (COB-ID), 2 (transmission type), 3 (inhibit time) and
/// 5 (deadline timer); the last two are 0 where the PDO lacks them.
pub fn rpdo_communication_from_values(cob_id: u32, mode: u8, inhibit_time_100us: u16, deadline_timer_ms: u16) -> (r: RpdoCommunicationParameters)
    ensures
        r.enabled == (cob_id & COB_ID_DISABLED == 0),
        r.cob_id.value() == cob_id & 0x1FFF_FFFF,
        (r.cob_id is Extended) == cob_id_extended(cob_id),
        r.mode@ == mode,
        r.inhibit_time_100us == inhibit_time_100us,
        r.deadline_timer_ms == deadline_timer_ms,
{
    RpdoCommunicationParameters {
        enabled: cob_id & COB_ID_DISABLED == 0,
        mode: RpdoTransmissionType::from_u8(mode),
        cob_id: cob_id_from_word(cob_id),
        inhibit_time_100us,
        deadline_timer_ms,
    }
}

/// Read the communication parameters of a transmit PDO from the values of
/// its subindices 1 (COB-ID), 2 (transmission type), 3 (inhibit time), 5
/// (event timer) and 6 (start SYNC); the last three are 0 where the PDO lacks them.
pub fn tpdo_communication_from_values(
    cob_id: u32,
    mode: u8,
    inhibit_time_100us: u16,
    event_timer_ms: u16,
    start_sync: u8,
) -> (r: TpdoCommunicationParameters)
    ensures
        r.enabled == (cob_id & COB_ID_DISABLED == 0),
        r.rtr_allowed == (cob_id & COB_ID_NO_RTR == 0),
        r.cob_id.value() == cob_id & 0x1FFF_FFFF,
        (r.cob_id is Extended) == cob_id_extended(cob_id),
        r.mode@ == mode,
        r.inhibit_time_100us == inhibit_time_100us,
        r.event_timer_ms == event_timer_ms,
        r.start_sync == start_sync,
{
    TpdoCommunicationParameters {
        enabled: cob_id & COB_ID_DISABLED == 0,
        rtr_allowed: cob_id & COB_ID_NO_RTR == 0,
        cob_id: cob_id_from_word(cob_id),
        mode: TpdoTransmissionType::from_u8(mode),
        inhibit_time_100us,
        event_timer_ms,
        start_sync,
    }
}

/// The entries of a mapping read from subindices 1 to k of its object.
pub fn mapping_from_values(raw: &[u32]) -> (r: Vec<PdoMapping>)
    ensures
        r@.len() == raw@.len(),
        forall|i: int| 0 <= i < raw@.len() ==> r@[i] == crate::pdo::spec_mapping_from_u32(#[trigger] raw@[i]),
{
    let mut r: Vec<PdoMapping> = Vec::new();
    let mut i: usize = 0;
    while i < raw.len()
        invariant
            i <= raw@.len(),
            r@.len() == i,
            forall|j: int| 0 <= j < i ==> r@[j] == crate::pdo::spec_mapping_from_u32(#[trigger] raw@[j]),
        decreases raw@.len() - i,
    {
        r.push(PdoMapping::from_u32(raw[i]));
        i = i + 1;
    }
    r
}

/// One SDO write of a configuration: the low `size` bytes of `value`, little
/// endian, to `object`.
#[derive(Debug, Clone, Copy, PartialEq, Eq, Structural)]
pub struct SdoWrite {
    pub object: ObjectIndex,
    pub value: u32,
    pub size: u8,
}

/// The write of `value` in `size` bytes to `index:subindex`.
pub open spec fn write_of(index: u16, subindex: u8, value: u32, size: u8) -> SdoWrite {
    SdoWrite { object: ObjectIndex { index, subindex }, value, size }
}

impl SdoWrite {
    /// The bytes that the write sends: the low `size` bytes of the value,
    /// least significant first.
    pub fn bytes(&self) -> (r: Vec<u8>)
        requires
            self.size <= 4,
        ensures
            r@.len() == self.size,
            forall|i: int| 0 <= i < self.size ==> #[trigger] r@[i] == crate::sdo::le32(self.value)[i],
    {
        let b: [u8; 4] = [
            (self.value % 256) as u8,
            ((self.value / 256) % 256) as u8,
            ((self.value / 65536) % 256) as u8,
            (self.value / 16777216) as u8,
        ];
        let mut r: Vec<u8> = Vec::new();
        let mut i: usize = 0;
        while i < self.size as usize
            invariant
                i <= self.size <= 4,
                r@.len() == i,
                b@ == crate::sdo::le32(self.value),
                forall|j: int| 0 <= j < i ==> #[trigger] r@[j] == b@[j],
            decreases self.size - i,
        {
            r.push(b[i]);
            i = i + 1;
        }
        proof {
            assert(b@ =~= crate::sdo::le32(self.value));
        }
        r
    }
}

/// The writes that set a mapping: the count to 0, each entry in order, then the count.
pub open spec fn spec_mapping_writes(index: u16, m: Seq<PdoMapping>) -> Seq<SdoWrite> {
    seq![write_of(index, 0, 0, 1)]
        + Seq::new(m.len(), |i: int| write_of(index, (i + 1) as u8, spec_mapping_u32(m[i]), 4))
        + seq![write_of(index, 0, m.len() as u32, 1)]
}

/// The writes of a receive PDO's communication parameters, with the PDO
/// kept disabled; the optional ones only where the PDO holds them.
pub open spec fn spec_rpdo_communication_writes(index: u16, p: RpdoCommunicationParameters, valid: u32) -> Seq<SdoWrite> {
    seq![write_of(index, 1, spec_cob_id_word(p.cob_id) | COB_ID_DISABLED, 4), write_of(index, 2, p.mode@ as u32, 1)]
        + (if valid >= 3 { seq![write_of(index, 3, p.inhibit_time_100us as u32, 2)] } else { Seq::empty() })
        + (if valid >= 5 { seq![write_of(index, 5, p.deadline_timer_ms as u32, 2)] } else { Seq::empty() })
}

/// The COB-ID word of a transmit PDO with the PDO enabled: bit 30 set where
/// remote requests are not allowed.
pub open spec fn spec_tpdo_cob_id_word(p: TpdoCommunicationParameters) -> u32 {
    if p.rtr_allowed {
        spec_cob_id_word(p.cob_id)
    } else {
        spec_cob_id_word(p.cob_id) | COB_ID_NO_RTR
    }
}

/// The writes of a transmit PDO's communication parameters, with the PDO
/// kept disabled; the optional ones only where the PDO holds them.
pub open spec fn spec_tpdo_communication_writes(index: u16, p: TpdoCommunicationParameters, valid: u32) -> Seq<SdoWrite> {
    seq![write_of(index, 1, spec_tpdo_cob_id_word(p) | COB_ID_DISABLED, 4), write_of(index, 2, p.mode@ as u32, 1)]
        + (if valid >= 3 { seq![write_of(index, 3, p.inhibit_time_100us as u32, 2)] } else { Seq::empty() })
        + (if valid >= 5 { seq![write_of(index, 5, p.event_timer_ms as u32, 2)] } else { Seq::empty() })
        + (if valid >= 6 { seq![write_of(index, 6, p.start_sync as u32, 1)] } else { Seq::empty() })
}

/// The writes that reconfigure a receive PDO, given the value of subindex 0
/// of its communication object and its current COB-ID word: disable it,
/// write the communication parameters and the mapping, and enable it again
/// where the configuration asks for that.
pub open spec fn spec_configure_rpdo(pdo: u16, config: RpdoConfiguration, valid: u32, current_cob_id: u32) -> Result<Seq<SdoWrite>, PdoConfigError> {
    let p = config.communication;
    if pdo >= 512 {
        Err(PdoConfigError::InvalidPdoNumber(InvalidPdoNumber { value: pdo }))
    } else if valid < 3 && p.inhibit_time_100us > 0 {
        Err(PdoConfigError::InhibitTimeNotSupported)
    } else if valid < 5 && p.deadline_timer_ms > 0 {
        Err(PdoConfigError::DeadlineTimerNotSupported)
    } else {
        let ci = (0x1400 + pdo) as u16;
        let mi = (0x1600 + pdo) as u16;
        Ok(seq![write_of(ci, 1, current_cob_id | COB_ID_DISABLED, 4)]
            + spec_rpdo_communication_writes(ci, p, valid)
            + spec_mapping_writes(mi, config.mapping@)
            + (if p.enabled { seq![write_of(ci, 1, spec_cob_id_word(p.cob_id), 4)] } else { Seq::empty() }))
    }
}

/// The writes that reconfigure a transmit PDO, as [`spec_configure_rpdo`] does.
pub open spec fn spec_configure_tpdo(pdo: u16, config: TpdoConfiguration, valid: u32, current_cob_id: u32) -> Result<Seq<SdoWrite>, PdoConfigError> {
    let p = config.communication;
    if pdo >= 512 {
        Err(PdoConfigError::InvalidPdoNumber(InvalidPdoNumber { value: pdo }))
    } else if valid < 3 && p.inhibit_time_100us > 0 {
        Err(PdoConfigError::InhibitTimeNotSupported)
    } else if valid < 5 && p.event_timer_ms > 0 {
        Err(PdoConfigError::EventTimerNotSupported)
    } else if valid < 6 && p.start_sync > 0 {
        Err(PdoConfigError::StartSyncNotSupported)
    } else {
        let ci = (0x1800 + pdo) as u16;
        let mi = (0x1A00 + pdo) as u16;
        Ok(seq![write_of(ci, 1, current_cob_id | COB_ID_DISABLED, 4)]
            + spec_tpdo_communication_writes(ci, p, valid)
            + spec_mapping_writes(mi, config.mapping@)
            + (if p.enabled { seq![write_of(ci, 1, spec_tpdo_cob_id_word(p), 4)] } else { Seq::empty() }))
    }
}

fn push_write(w: &mut Vec<SdoWrite>, index: u16, subindex: u8, value: u32, size: u8)
    ensures
        final(w)@ == old(w)@.push(write_of(index, subindex, value, size)),
{
    w.push(SdoWrite { object: ObjectIndex { index, subindex }, value, size });
}

/// Append the writes that set a mapping.
fn push_mapping_writes(w: &mut Vec<SdoWrite>, index: u16, mapping: &Vec<PdoMapping>)
    requires
        mapping@.len() <= 255,
    ensures
        final(w)@ == old(w)@ + spec_mapping_writes(index, mapping@),
{
    push_write(w, index, 0, 0, 1);
    let ghost start = w@;
    let mut i: usize = 0;
    while i < mapping.len()
        invariant
            i <= mapping@.len() <= 255,
            w@ == start + Seq::new(i as nat, |k: int| write_of(index, (k + 1) as u8, spec_mapping_u32(mapping@[k]), 4)),
        decreases mapping@.len() - i,
    {
        push_write(w, index, (i + 1) as u8, mapping[i].to_u32(), 4);
        i = i + 1;
        assert(w@ =~= start + Seq::new(i as nat, |k: int| write_of(index, (k + 1) as u8, spec_mapping_u32(mapping@[k]), 4)));
    }
    push_write(w, index, 0, mapping.len() as u32, 1);
    assert(w@ =~= old(w)@ + spec_mapping_writes(index, mapping@));
}

/// The writes that reconfigure receive PDO `pdo`, given the value of
/// subindex 0 of its communication object (`valid_subindices`) and its
/// current COB-ID word.
///
/// The first write disables the PDO; only the last one, where the
/// configuration is enabled, enables it again. A parameter that the PDO
/// lacks but the configuration sets is an error, and then nothing is written.
pub fn configure_rpdo_writes(pdo: u16, config: &RpdoConfiguration, valid_subindices: u32, current_cob_id: u32) -> (r: Result<Vec<SdoWrite>, PdoConfigError>)
    requires
        config.mapping@.len() <= 255,
    ensures
        match spec_configure_rpdo(pdo, *config, valid_subindices, current_cob_id) {
            Ok(w) => r is Ok && r->Ok_0@ == w,
            Err(e) => r is Err && r->Err_0 == e,
        },
{
    let ci = match rpdo_communication_params_object(pdo) {
        Ok(i) => i,
        Err(e) => return Err(PdoConfigError::InvalidPdoNumber(e)),
    };
    let mi = 0x1600 + pdo;
    let p = config.communication;
    if valid_subindices < 3 && p.inhibit_time_100us > 0 {
        return Err(PdoConfigError::InhibitTimeNotSupported);
    }
    if valid_subindices < 5 && p.deadline_timer_ms > 0 {
        return Err(PdoConfigError::DeadlineTimerNotSupported);
    }
    let word = cob_id_word(p.cob_id);
    let mut w: Vec<SdoWrite> = Vec::new();
    push_write(&mut w, ci, 1, current_cob_id | COB_ID_DISABLED, 4);
    let ghost a = w@;
    push_write(&mut w, ci, 1, word | COB_ID_DISABLED, 4);
    push_write(&mut w, ci, 2, p.mode.to_u8() as u32, 1);
    if valid_subindices >= 3 {
        push_write(&mut w, ci, 3, p.inhibit_time_100us as u32, 2);
    }
    if valid_subindices >= 5 {
        push_write(&mut w, ci, 5, p.deadline_timer_ms as u32, 2);
    }
    assert(w@ =~= a + spec_rpdo_communication_writes(ci, p, valid_subindices));
    let ghost b = w@;
    push_mapping_writes(&mut w, mi, &config.mapping);
    let ghost c = w@;
    if p.enabled {
        push_write(&mut w, ci, 1, word, 4);
    }
    assert(w@ =~= seq![write_of(ci, 1, current_cob_id | COB_ID_DISABLED, 4)]
        + spec_rpdo_communication_writes(ci, p, valid_subindices)
        + spec_mapping_writes(mi, config.mapping@)
        + (if p.enabled { seq![write_of(ci, 1, spec_cob_id_word(p.cob_id), 4)] } else { Seq::empty() }));
    Ok(w)
}

/// The writes that reconfigure transmit PDO `pdo`, as
/// [`configure_rpdo_writes`] does for a receive PDO.
pub fn configure_tpdo_writes(pdo: u16, config: &TpdoConfiguration, valid_subindices: u32, current_cob_id: u32) -> (r: Result<Vec<SdoWrite>, PdoConfigError>)
    requires
        config.mapping@.len() <= 255,
    ensures
        match spec_configure_tpdo(pdo, *config, valid_subindices, current_cob_id) {
            Ok(w) => r is Ok && r->Ok_0@ == w,
            Err(e) => r is Err && r->Err_0 == e,
        },
{
    let ci = match tpdo_communication_params_object(pdo) {
        Ok(i) => i,
        Err(e) => return Err(PdoConfigError::InvalidPdoNumber(e)),
    };
    let mi = 0x1A00 + pdo;
    let p = config.communication;
    if valid_subindices < 3 && p.inhibit_time_100us > 0 {
        return Err(PdoConfigError::InhibitTimeNotSupported);
    }
    if valid_subindices < 5 && p.event_timer_ms > 0 {
        return Err(PdoConfigError::EventTimerNotSupported);
    }
    if valid_subindices < 6 && p.start_sync > 0 {
        return Err(PdoConfigError::StartSyncNotSupported);
    }
    let base = cob_id_word(p.cob_id);
    let word = if p.rtr_allowed { base } else { base | COB_ID_NO_RTR };
    let mut w: Vec<SdoWrite> = Vec::new();
    push_write(&mut w, ci, 1, current_cob_id | COB_ID_DISABLED, 4);
    let ghost a = w@;
    push_write(&mut w, ci, 1, word | COB_ID_DISABLED, 4);
    push_write(&mut w, ci, 2, p.mode.to_u8() as u32, 1);
    if valid_subindices >= 3 {
        push_write(&mut w, ci, 3, p.inhibit_time_100us as u32, 2);
    }
    if valid_subindices >= 5 {
        push_write(&mut w, ci, 5, p.event_timer_ms as u32, 2);
    }
    if valid_subindices >= 6 {
        push_write(&mut w, ci, 6, p.start_sync as u32, 1);
    }
    assert(w@ =~= a + spec_tpdo_communication_writes(ci, p, valid_subindices));
    push_mapping_writes(&mut w, mi, &config.mapping);
    if p.enabled {
        push_write(&mut w, ci, 1, word, 4);
    }
    assert(w@ =~= seq![write_of(ci, 1, current_cob_id | COB_ID_DISABLED, 4)]
        + spec_tpdo_communication_writes(ci, p, valid_subindices)
        + spec_mapping_writes(mi, config.mapping@)
        + (if p.enabled { seq![write_of(ci, 1, spec_tpdo_cob_id_word(p), 4)] } else { Seq::empty() }));
    Ok(w)
}

/// The COB-ID word that enables (bit 31 clear) or disables (bit 31 set) a PDO.
pub fn with_enabled(cob_id: u32, enabled: bool) -> (r: u32)
    ensures
        r == (if enabled { cob_id & !COB_ID_DISABLED } else { cob_id | COB_ID_DISABLED }),
{
    if enabled {
        cob_id & !COB_ID_DISABLED
    } else {
        cob_id | COB_ID_DISABLED
    }
}

/// Bit 31 stays set in any word that bit 31 is or-ed into.
proof fn lemma_disabled_bit(x: u32)
    ensures
        (x | COB_ID_DISABLED) & COB_ID_DISABLED != 0,
{
    assert((x | 0x8000_0000u32) & 0x8000_0000u32 != 0) by (bit_vector);
}

/// A receive PDO that is reconfigured is disabled by the first write and
/// stays disabled until the last: no other write to its COB-ID clears bit 31.
pub proof fn lemma_rpdo_disabled_until_last(pdo: u16, config: RpdoConfiguration, valid: u32, current_cob_id: u32)
    requires
        spec_configure_rpdo(pdo, config, valid, current_cob_id) is Ok,
    ensures
        ({
            let w = spec_configure_rpdo(pdo, config, valid, current_cob_id)->Ok_0;
            let cob = ObjectIndex { index: (0x1400 + pdo) as u16, subindex: 1 };
            &&& w.len() >= 1
            &&& w[0].object == cob
            &&& w[0].value & COB_ID_DISABLED != 0
            &&& forall|k: int| 0 <= k < w.len() - 1 && #[trigger] w[k].object == cob ==> w[k].value & COB_ID_DISABLED != 0
        }),
{
    let p = config.communication;
    let ci = (0x1400 + pdo) as u16;
    let mi = (0x1600 + pdo) as u16;
    let cob = ObjectIndex { index: ci, subindex: 1 };
    let head = seq![write_of(ci, 1, current_cob_id | COB_ID_DISABLED, 4)];
    let comm = spec_rpdo_communication_writes(ci, p, valid);
    let map = spec_mapping_writes(mi, config.mapping@);
    let tail: Seq<SdoWrite> = if p.enabled { seq![write_of(ci, 1, spec_cob_id_word(p.cob_id), 4)] } else { Seq::empty() };
    let w = head + comm + map + tail;
    assert(w == spec_configure_rpdo(pdo, config, valid, current_cob_id)->Ok_0);
    lemma_disabled_bit(current_cob_id);
    lemma_disabled_bit(spec_cob_id_word(p.cob_id));
    assert forall|k: int| 0 <= k < w.len() - 1 && #[trigger] w[k].object == cob implies w[k].value & COB_ID_DISABLED != 0 by {
        if k == 0 {
        } else if k < 1 + comm.len() {
            assert(w[k] == comm[k - 1]);
        } else if k < 1 + comm.len() + map.len() {
            assert(w[k] == map[k - 1 - comm.len()]);
            assert(mi != ci);
        }
    }
}

/// A transmit PDO that is reconfigured is disabled by the first write and
/// stays disabled until the last: no other write to its COB-ID clears bit 31.
pub proof fn lemma_tpdo_disabled_until_last(pdo: u16, config: TpdoConfiguration, valid: u32, current_cob_id: u32)
    requires
        spec_configure_tpdo(pdo, config, valid, current_cob_id) is Ok,
    ensures
        ({
            let w = spec_configure_tpdo(pdo, config, valid, current_cob_id)->Ok_0;
            let cob = ObjectIndex { index: (0x1800 + pdo) as u16, subindex: 1 };
            &&& w.len() >= 1
            &&& w[0].object == cob
            &&& w[0].value & COB_ID_DISABLED != 0
            &&& forall|k: int| 0 <= k < w.len() - 1 && #[trigger] w[k].object == cob ==> w[k].value & COB_ID_DISABLED != 0
        }),
{
    let p = config.communication;
    let ci = (0x1800 + pdo) as u16;
    let mi = (0x1A00 + pdo) as u16;
    let cob = ObjectIndex { index: ci, subindex: 1 };
    let head = seq![write_of(ci, 1, current_cob_id | COB_ID_DISABLED, 4)];
    let comm = spec_tpdo_communication_writes(ci, p, valid);
    let map = spec_mapping_writes(mi, config.mapping@);
    let tail: Seq<SdoWrite> = if p.enabled { seq![write_of(ci, 1, spec_tpdo_cob_id_word(p), 4)] } else { Seq::empty() };
    let w = head + comm + map + tail;
    assert(w == spec_configure_tpdo(pdo, config, valid, current_cob_id)->Ok_0);
    lemma_disabled_bit(current_cob_id);
    lemma_disabled_bit(spec_tpdo_cob_id_word(p));
    assert forall|k: int| 0 <= k < w.len() - 1 && #[trigger] w[k].object == cob implies w[k].value & COB_ID_DISABLED != 0 by {
        if k == 0 {
        } else if k < 1 + comm.len() {
            assert(w[k] == comm[k - 1]);
        } else if k < 1 + comm.len() + map.len() {
            assert(w[k] == map[k - 1 - comm.len()]);
            assert(mi != ci);
        }
    }
}

} // verus!
