//! Checksums, bit tests and the range checks that guard configuration values.
use crate::error::DataError;
use vstd::prelude::*;

verus! {

/// One shift of the CRC-8 register (polynomial 0x31, no reflection).
pub open spec fn crc_shift(crc: u8) -> u8 {
    if crc & 0x80 != 0 {
        ((crc << 1u8) ^ 0x31u8) as u8
    } else {
        (crc << 1u8) as u8
    }
}

/// `n` shifts of the CRC-8 register.
pub open spec fn crc_shifts(crc: u8, n: nat) -> u8
    decreases n,
{
    if n == 0 {
        crc
    } else {
        crc_shifts(crc_shift(crc), (n - 1) as nat)
    }
}

/// CRC-8/NRSC-5 of `data`: initial value 0xFF, polynomial 0x31, no reflection,
/// no final XOR.
pub open spec fn crc8(data: Seq<u8>) -> u8
    decreases data.len(),
{
    if data.len() == 0 {
        0xFF
    } else {
        crc_shifts(crc8(data.drop_last()) ^ data.last(), 8)
    }
}

/// Computes the CRC-8/NRSC-5 checksum of `data`.
pub fn compute_crc8(data: &[u8]) -> (r: u8)
    ensures
        r == crc8(data@),
{
    let mut crc: u8 = 0xFF;
    let mut i: usize = 0;
    while i < data.len()
        invariant
            i <= data@.len(),
            crc == crc8(data@.subrange(0, i as int)),
        decreases data@.len() - i,
    {
        proof {
            assert(data@.subrange(0, i + 1).drop_last() =~= data@.subrange(0, i as int));
        }
        crc = crc ^ data[i];
        let mut k: u8 = 0;
        while k < 8
            invariant
                k <= 8,
                crc_shifts(crc, (8 - k) as nat) == crc8(data@.subrange(0, i + 1)),
            decreases 8 - k,
        {
            if (crc & 0x80) != 0 {
                crc = (crc << 1u8) ^ 0x31;
            } else {
                crc = crc << 1u8;
            }
            k = k + 1;
        }
        i = i + 1;
    }
    proof {
        assert(data@.subrange(0, data@.len() as int) =~= data@);
    }
    crc
}

/// Whether `crc` is the checksum of `data`.
pub fn crc8_matches(data: &[u8], crc: u8) -> (r: bool)
    ensures
        r == (crc8(data@) == crc),
{
    compute_crc8(data) == crc
}

/// The checksum of the two bytes of one word, high byte first.
pub fn word_checksum(hi: u8, lo: u8) -> (r: u8)
    ensures
        r == crc8(seq![hi, lo]),
{
    let pair: [u8; 2] = [hi, lo];
    proof {
        assert(pair@ =~= seq![hi, lo]);
    }
    compute_crc8(pair.as_slice())
}

/// Whether bit `bit` (0 is the least significant) of `value` is one.
pub open spec fn bit_set(value: u32, bit: u32) -> bool {
    value & (1u32 << bit) != 0
}

/// Tests bit `bit` of `value`.
pub fn is_set(value: u32, bit: u32) -> (r: bool)
    requires
        bit < 32,
    ensures
        r == bit_set(value, bit),
{
    value & (1u32 << bit) != 0
}

/// The result of checking that `value` lies in `min..=max`.
pub open spec fn range_check(
    value: int,
    min: i32,
    max: i32,
    parameter: &'static str,
    unit: &'static str,
) -> Result<(), DataError> {
    if min <= value <= max {
        Ok(())
    } else {
        Err(DataError::ValueOutOfRange { parameter, min, max, unit })
    }
}

/// Whether `e` reports bounds that `value` lies outside of.
pub open spec fn cites_violation(e: DataError, value: int) -> bool {
    match e {
        DataError::ValueOutOfRange { min, max, .. } => !(min <= value <= max),
        _ => false,
    }
}

/// Checks that `value` lies in `min..=max`; otherwise reports the bounds, with
/// the parameter's name and unit.
pub fn check_range(
    value: i32,
    min: i32,
    max: i32,
    parameter: &'static str,
    unit: &'static str,
) -> (r: Result<(), DataError>)
    ensures
        r == range_check(value as int, min, max, parameter, unit),
{
    if min <= value && value <= max {
        Ok(())
    } else {
        Err(DataError::ValueOutOfRange { parameter, min, max, unit })
    }
}

/// The result of scaling the signed `value` by `scalar`: the product where it
/// fits in an `i16`, else the bounds within which `value` may lie.
pub open spec fn scaling_check(
    value: i16,
    scalar: i16,
    parameter: &'static str,
    unit: &'static str,
) -> Result<i16, DataError> {
    if i16::MIN <= value * scalar <= i16::MAX {
        Ok((value * scalar) as i16)
    } else {
        Err(
            DataError::ValueOutOfRange {
                parameter,
                min: -(i16::MAX / scalar) as i32,
                max: (i16::MAX / scalar) as i32,
                unit,
            },
        )
    }
}

/// Scales the signed `value` by `scalar`, failing where the product leaves the
/// range of `i16`.
pub fn check_scaling(value: i16, scalar: i16, parameter: &'static str, unit: &'static str) -> (r:
    Result<i16, DataError>)
    requires
        scalar > 0,
    ensures
        r == scaling_check(value, scalar, parameter, unit),
{
    match value.checked_mul(scalar) {
        Some(v) => Ok(v),
        None => {
            let max: i16 = i16::MAX / scalar;
            Err(DataError::ValueOutOfRange { parameter, min: -(max as i32), max: max as i32, unit })
        },
    }
}

/// The result of scaling the unsigned `value` by `scalar`: the product where it
/// fits in a `u16`, else the bounds within which `value` may lie.
pub open spec fn unsigned_scaling_check(
    value: u16,
    scalar: u16,
    parameter: &'static str,
    unit: &'static str,
) -> Result<u16, DataError> {
    if value * scalar <= u16::MAX {
        Ok((value * scalar) as u16)
    } else {
        Err(
            DataError::ValueOutOfRange {
                parameter,
                min: 0,
                max: (u16::MAX / scalar) as i32,
                unit,
            },
        )
    }
}

/// Scales the unsigned `value` by `scalar`, failing where the product leaves
/// the range of `u16`.
pub fn check_scaling_unsigned(
    value: u16,
    scalar: u16,
    parameter: &'static str,
    unit: &'static str,
) -> (r: Result<u16, DataError>)
    requires
        scalar > 0,
    ensures
        r == unsigned_scaling_check(value, scalar, parameter, unit),
{
    match value.checked_mul(scalar) {
        Some(v) => Ok(v),
        None => {
            let max: u16 = u16::MAX / scalar;
            Err(DataError::ValueOutOfRange { parameter, min: 0, max: max as i32, unit })
        },
    }
}

} // verus!
