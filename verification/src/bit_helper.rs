//! Reading and writing the bit fields of a register.

use vstd::prelude::*;
use crate::common::Error;

verus! {

/// The register that has exactly the bits `lsb..=msb` set.
pub open spec fn field_mask(msb: u32, lsb: u32) -> u32 {
    (0xffff_ffffu32 >> ((31 - msb) as u32)) & (0xffff_ffffu32 << lsb)
}

/// The largest value that a field of the bits `lsb..=msb` holds.
pub open spec fn field_max(msb: u32, lsb: u32) -> u32 {
    0xffff_ffffu32 >> ((31 - msb + lsb) as u32)
}

/// The value that the bits `lsb..=msb` of `reg` hold.
pub open spec fn field_of(reg: u32, msb: u32, lsb: u32) -> u32 {
    (reg & field_mask(msb, lsb)) >> lsb
}

/// `reg` with `value` in its bits `lsb..=msb`.
pub open spec fn with_field(reg: u32, msb: u32, lsb: u32, value: u32) -> u32 {
    (reg & !field_mask(msb, lsb)) | (value << lsb)
}

/// The bits `lsb..=msb` are a field of a 32-bit register.
pub open spec fn is_field(msb: u32, lsb: u32) -> bool {
    lsb <= msb < 32
}

/// The fields `msb..=lsb` and `m..=l` share no bit.
pub open spec fn fields_apart(msb: u32, lsb: u32, m: u32, l: u32) -> bool {
    msb < l || m < lsb
}

/// `reg` with bit `pos` set or cleared as `value` says.
pub open spec fn with_bit(reg: u32, pos: u32, value: bool) -> u32 {
    if value {
        reg | (1u32 << pos)
    } else {
        reg & !(1u32 << pos)
    }
}

/// Whether bit `pos` of `reg` is set.
pub open spec fn bit_of(reg: u32, pos: u32) -> bool {
    reg & (1u32 << pos) != 0
}

/// Reads the bits `lsb_index..=msb_index` of `reg`. Bits that are no field
/// of a 32-bit register are refused.
pub fn read_bits_in_range(reg: u32, msb_index: u32, lsb_index: u32) -> (r: Result<u32, Error>)
    ensures
        r == if is_field(msb_index, lsb_index) {
            Ok::<u32, Error>(field_of(reg, msb_index, lsb_index))
        } else {
            Err::<u32, Error>(Error::InvalidParameters)
        },
{
    if msb_index >= 32 || lsb_index > msb_index {
        return Err(Error::InvalidParameters);
    }
    let mask: u32 = (0xffff_ffffu32 >> (31 - msb_index)) & (0xffff_ffffu32 << lsb_index);
    Ok((reg & mask) >> lsb_index)
}

/// Writes `value` into the bits `lsb_index..=msb_index` of `reg` and returns
/// the register. Bits that are no field of a 32-bit register are refused,
/// and so is a value that the field cannot hold.
pub fn write_bits_in_range(reg: u32, msb_index: u32, lsb_index: u32, value: u32) -> (r: Result<
    u32,
    Error,
>)
    ensures
        r == if is_field(msb_index, lsb_index) && value <= field_max(msb_index, lsb_index) {
            Ok::<u32, Error>(with_field(reg, msb_index, lsb_index, value))
        } else {
            Err::<u32, Error>(Error::InvalidParameters)
        },
{
    if msb_index >= 32 || lsb_index > msb_index {
        return Err(Error::InvalidParameters);
    }
    let max: u32 = 0xffff_ffffu32 >> (31 - msb_index + lsb_index);
    if value > max {
        return Err(Error::InvalidParameters);
    }
    let mask: u32 = (0xffff_ffffu32 >> (31 - msb_index)) & (0xffff_ffffu32 << lsb_index);
    Ok((reg & !mask) | (value << lsb_index))
}

/// Reads bit `pos` of `reg`. A position outside the register is refused.
pub fn read_bit(reg: u32, pos: u32) -> (r: Result<bool, Error>)
    ensures
        r == if pos < 32 {
            Ok::<bool, Error>(bit_of(reg, pos))
        } else {
            Err::<bool, Error>(Error::InvalidParameters)
        },
{
    if pos >= 32 {
        return Err(Error::InvalidParameters);
    }
    Ok(reg & (1u32 << pos) != 0)
}

/// Sets or clears bit `pos` of `reg` and returns the register. A position
/// outside the register is refused.
pub fn write_bit(reg: u32, pos: u32, value: bool) -> (r: Result<u32, Error>)
    ensures
        r == if pos < 32 {
            Ok::<u32, Error>(with_bit(reg, pos, value))
        } else {
            Err::<u32, Error>(Error::InvalidParameters)
        },
{
    if pos >= 32 {
        return Err(Error::InvalidParameters);
    }
    if value {
        Ok(reg | (1u32 << pos))
    } else {
        Ok(reg & !(1u32 << pos))
    }
}

/// A field reads what was last written to it.
pub proof fn lemma_read_after_write(reg: u32, msb: u32, lsb: u32, value: u32)
    requires
        is_field(msb, lsb),
        value <= field_max(msb, lsb),
    ensures
        field_of(with_field(reg, msb, lsb, value), msb, lsb) == value,
{
    assert(field_of(with_field(reg, msb, lsb, value), msb, lsb) == value) by (bit_vector)
        requires
            lsb <= msb < 32,
            value <= field_max(msb, lsb),
    ;
}

/// A write to a field leaves every bit outside the field as it was.
pub proof fn lemma_write_keeps_outside(reg: u32, msb: u32, lsb: u32, value: u32)
    requires
        is_field(msb, lsb),
        value <= field_max(msb, lsb),
    ensures
        with_field(reg, msb, lsb, value) & !field_mask(msb, lsb) == reg & !field_mask(msb, lsb),
{
    assert(with_field(reg, msb, lsb, value) & !field_mask(msb, lsb) == reg & !field_mask(msb, lsb))
        by (bit_vector)
        requires
            lsb <= msb < 32,
            value <= field_max(msb, lsb),
    ;
}

/// A write to one field leaves a field apart from it as it was.
pub proof fn lemma_write_keeps_other_field(reg: u32, msb: u32, lsb: u32, value: u32, m: u32, l: u32)
    requires
        is_field(msb, lsb),
        is_field(m, l),
        value <= field_max(msb, lsb),
        fields_apart(msb, lsb, m, l),
    ensures
        field_of(with_field(reg, msb, lsb, value), m, l) == field_of(reg, m, l),
{
    assert(field_of(with_field(reg, msb, lsb, value), m, l) == field_of(reg, m, l)) by (bit_vector)
        requires
            lsb <= msb < 32,
            l <= m < 32,
            value <= field_max(msb, lsb),
            msb < l || m < lsb,
    ;
}

/// A bit reads what was last written to it, and a write to a bit leaves the
/// other bits as they were.
pub proof fn lemma_bit_after_write(reg: u32, pos: u32, value: bool, other: u32)
    requires
        pos < 32,
        other < 32,
    ensures
        bit_of(with_bit(reg, pos, value), pos) == value,
        other != pos ==> bit_of(with_bit(reg, pos, value), other) == bit_of(reg, other),
{
    assert(bit_of(with_bit(reg, pos, value), pos) == value) by (bit_vector)
        requires
            pos < 32,
    ;
    assert(other != pos ==> bit_of(with_bit(reg, pos, value), other) == bit_of(reg, other))
        by (bit_vector)
        requires
            pos < 32,
            other < 32,
    ;
}

} // verus!
