//! Register catalog and codec for the 9-bit control registers.
//!
//! Every control register of the device is 9 bits wide and sits behind a
//! 7-bit address.  A register write travels over the control bus as a 2-byte
//! wire frame: the first byte carries the address in its upper seven bits and
//! bit 8 of the value in its low bit, the second byte carries the low eight
//! bits of the value.

use vstd::prelude::*;

verus! {

/// Symbolic names for the control registers, one per 7-bit address.
#[derive(Debug, Copy, Clone, PartialEq)]
pub enum Register {
    LeftInputVol,
    RightInputVol,
    Lout1Vol,
    Rout1Vol,
    Clocking,
    Ctr1,
    Ctr2,
    AudioIface,
    Clocking2,
    AudioIface2,
    LdacVol,
    RdacVol,
    Reset,
    Ctr3D,
    Alc1,
    Alc2,
    Alc3,
    NoiseGate,
    LadcVol,
    RadcVol,
    Addctr1,
    Addctr2,
    PwrMgmt1,
    PwrMgmt2,
    Addctr3,
    AntiPop1,
    AntiPop2,
    LadcSignalPath,
    RadcSignalPath,
    LoutMix1,
    RoutMix1,
    MonoOutMix1,
    MonoOutMix2,
    Lout2Vol,
    Rout2Vol,
    MonoOutVol,
    InputBoostMixer1,
    InputBoostMixer2,
    Bypass1,
    Bypass2,
    PwrMgmt3,
    Addctr4,
    ClassdCtr1,
    ClassdCtr3,
    PllN,
    PllK1,
    PllK2,
    PllK3,
}

impl Register {
    /// The 7-bit bus address of this register.
    pub open spec fn spec_addr(self) -> u8 {
        match self {
            Register::LeftInputVol => 0x00,
            Register::RightInputVol => 0x01,
            Register::Lout1Vol => 0x02,
            Register::Rout1Vol => 0x03,
            Register::Clocking => 0x04,
            Register::Ctr1 => 0x05,
            Register::Ctr2 => 0x06,
            Register::AudioIface => 0x07,
            Register::Clocking2 => 0x08,
            Register::AudioIface2 => 0x09,
            Register::LdacVol => 0x0A,
            Register::RdacVol => 0x0B,
            Register::Reset => 0x0F,
            Register::Ctr3D => 0x10,
            Register::Alc1 => 0x11,
            Register::Alc2 => 0x12,
            Register::Alc3 => 0x13,
            Register::NoiseGate => 0x14,
            Register::LadcVol => 0x15,
            Register::RadcVol => 0x16,
            Register::Addctr1 => 0x17,
            Register::Addctr2 => 0x18,
            Register::PwrMgmt1 => 0x19,
            Register::PwrMgmt2 => 0x1A,
            Register::Addctr3 => 0x1B,
            Register::AntiPop1 => 0x1C,
            Register::AntiPop2 => 0x1D,
            Register::LadcSignalPath => 0x20,
            Register::RadcSignalPath => 0x21,
            Register::LoutMix1 => 0x22,
            Register::RoutMix1 => 0x25,
            Register::MonoOutMix1 => 0x26,
            Register::MonoOutMix2 => 0x27,
            Register::Lout2Vol => 0x28,
            Register::Rout2Vol => 0x29,
            Register::MonoOutVol => 0x2A,
            Register::InputBoostMixer1 => 0x2B,
            Register::InputBoostMixer2 => 0x2C,
            Register::Bypass1 => 0x2D,
            Register::Bypass2 => 0x2E,
            Register::PwrMgmt3 => 0x2F,
            Register::Addctr4 => 0x30,
            Register::ClassdCtr1 => 0x31,
            Register::ClassdCtr3 => 0x33,
            Register::PllN => 0x34,
            Register::PllK1 => 0x35,
            Register::PllK2 => 0x36,
            Register::PllK3 => 0x37,
        }
    }

    /// The 7-bit bus address of this register.
    pub fn addr(&self) -> (a: u8)
        ensures
            a == self.spec_addr(),
            a < 128,
    {
        match self {
            Register::LeftInputVol => 0x00,
            Register::RightInputVol => 0x01,
            Register::Lout1Vol => 0x02,
            Register::Rout1Vol => 0x03,
            Register::Clocking => 0x04,
            Register::Ctr1 => 0x05,
            Register::Ctr2 => 0x06,
            Register::AudioIface => 0x07,
            Register::Clocking2 => 0x08,
            Register::AudioIface2 => 0x09,
            Register::LdacVol => 0x0A,
            Register::RdacVol => 0x0B,
            Register::Reset => 0x0F,
            Register::Ctr3D => 0x10,
            Register::Alc1 => 0x11,
            Register::Alc2 => 0x12,
            Register::Alc3 => 0x13,
            Register::NoiseGate => 0x14,
            Register::LadcVol => 0x15,
            Register::RadcVol => 0x16,
            Register::Addctr1 => 0x17,
            Register::Addctr2 => 0x18,
            Register::PwrMgmt1 => 0x19,
            Register::PwrMgmt2 => 0x1A,
            Register::Addctr3 => 0x1B,
            Register::AntiPop1 => 0x1C,
            Register::AntiPop2 => 0x1D,
            Register::LadcSignalPath => 0x20,
            Register::RadcSignalPath => 0x21,
            Register::LoutMix1 => 0x22,
            Register::RoutMix1 => 0x25,
            Register::MonoOutMix1 => 0x26,
            Register::MonoOutMix2 => 0x27,
            Register::Lout2Vol => 0x28,
            Register::Rout2Vol => 0x29,
            Register::MonoOutVol => 0x2A,
            Register::InputBoostMixer1 => 0x2B,
            Register::InputBoostMixer2 => 0x2C,
            Register::Bypass1 => 0x2D,
            Register::Bypass2 => 0x2E,
            Register::PwrMgmt3 => 0x2F,
            Register::Addctr4 => 0x30,
            Register::ClassdCtr1 => 0x31,
            Register::ClassdCtr3 => 0x33,
            Register::PllN => 0x34,
            Register::PllK1 => 0x35,
            Register::PllK2 => 0x36,
            Register::PllK3 => 0x37,
        }
    }
}

/// The wire frame a register write becomes, for any address and any staging
/// value: the address keeps its low seven bits, the value its low nine.
/// Byte 0 is `(address << 1) | bit8-of-value`, byte 1 the low eight value
/// bits.
pub open spec fn spec_frame(address: u8, value: u16) -> (u8, u8) {
    (((address % 128) * 2 + (value / 256) % 2) as u8, (value % 256) as u8)
}

/// Encode an in-range (address, 9-bit value) pair as its 2-byte wire frame.
pub fn pack(address: u8, value: u16) -> (frame: (u8, u8))
    requires
        address < 128,
        value < 512,
    ensures
        frame == spec_frame(address, value),
        frame.0 == address * 2 + value / 256,
        frame.1 == value % 256,
{
    (address * 2 + (value / 256) as u8, (value % 256) as u8)
}

/// Encode any (address, staging value) pair as its wire frame, silently
/// keeping only the low seven address bits and the low nine value bits.
pub fn frame_bytes(address: u8, value: u16) -> (frame: (u8, u8))
    ensures
        frame == spec_frame(address, value),
{
    ((address % 128) * 2 + ((value / 256) % 2) as u8, (value % 256) as u8)
}

/// The (address, 9-bit value) pair a wire frame decodes to.
pub open spec fn spec_unpack(frame: (u8, u8)) -> (u8, u16) {
    ((frame.0 / 2) as u8, ((frame.0 % 2) as u16 * 256 + frame.1) as u16)
}

/// Decode a 2-byte wire frame back into the (address, 9-bit value) pair it
/// carries.
pub fn unpack(frame: (u8, u8)) -> (r: (u8, u16))
    ensures
        r == spec_unpack(frame),
        r.0 < 128,
        r.1 < 512,
{
    (frame.0 / 2, (frame.0 % 2) as u16 * 256 + frame.1 as u16)
}

/// Packing an in-range pair and unpacking the frame gives the pair back.
pub proof fn lemma_pack_unpack_round_trip(address: u8, value: u16)
    requires
        address < 128,
        value < 512,
    ensures
        spec_unpack(spec_frame(address, value)) == (address, value),
{
}

/// A mask of `width` low bits, the bits a field of that width occupies
/// before it is shifted to its offset.
pub open spec fn spec_field_mask(width: u16) -> u16
    recommends
        width <= 9,
{
    !(0xFFFFu16 << width)
}

/// The bits of `value` at `offset` wide `width`, shifted down to the low
/// end.
pub open spec fn spec_get_field(value: u16, offset: u16, width: u16) -> u16
    recommends
        offset + width <= 9,
{
    (value >> offset) & spec_field_mask(width)
}

/// `value` with the bits at `offset` wide `width` replaced by the low
/// `width` bits of `field`; bits of `field` above the declared width are
/// silently truncated.
pub open spec fn spec_set_field(value: u16, offset: u16, width: u16, field: u16) -> u16
    recommends
        offset + width <= 9,
{
    (value & !(spec_field_mask(width) << offset)) | ((field & spec_field_mask(width)) << offset)
}

/// Read the named sub-field at `offset` wide `width` out of a staging value.
pub fn get_field(value: u16, offset: u16, width: u16) -> (f: u16)
    requires
        offset + width <= 9,
    ensures
        f == spec_get_field(value, offset, width),
{
    (value >> offset) & !(0xFFFFu16 << width)
}

/// Write the named sub-field at `offset` wide `width` into a staging value,
/// leaving every other bit alone.  Bits of `field` above the declared width
/// are silently truncated.
pub fn set_field(value: u16, offset: u16, width: u16, field: u16) -> (v: u16)
    requires
        offset + width <= 9,
    ensures
        v == spec_set_field(value, offset, width, field),
{
    let mask = !(0xFFFFu16 << width);
    (value & !(mask << offset)) | ((field & mask) << offset)
}

/// Setting a field and reading the same field back gives the set value
/// truncated to the field's declared width.
pub proof fn lemma_set_then_get_field(value: u16, offset: u16, width: u16, field: u16)
    requires
        offset + width <= 9,
    ensures
        spec_get_field(spec_set_field(value, offset, width, field), offset, width) == field
            & spec_field_mask(width),
{
    assert(spec_get_field(spec_set_field(value, offset, width, field), offset, width) == field
        & spec_field_mask(width)) by (bit_vector)
        requires
            offset + width <= 9,
    ;
}

/// Setting a field leaves every bit of a non-overlapping field unchanged.
pub proof fn lemma_set_field_preserves_others(
    value: u16,
    offset: u16,
    width: u16,
    field: u16,
    other_offset: u16,
    other_width: u16,
)
    requires
        offset + width <= 9,
        other_offset + other_width <= 9,
        other_offset + other_width <= offset || offset + width <= other_offset,
    ensures
        spec_get_field(spec_set_field(value, offset, width, field), other_offset, other_width)
            == spec_get_field(value, other_offset, other_width),
{
    assert(spec_get_field(spec_set_field(value, offset, width, field), other_offset, other_width)
        == spec_get_field(value, other_offset, other_width)) by (bit_vector)
        requires
            offset + width <= 9,
            other_offset + other_width <= 9,
            other_offset + other_width <= offset || offset + width <= other_offset,
    ;
}

} // verus!

