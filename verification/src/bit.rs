use vstd::prelude::*;

verus! {

// Bit manipulation helpers.
//
// `bit_range` style masks are inclusive on both ends and accept their two
// bounds in either order; the spec functions below normalise the order first.

/// Mask of the bits `lsb..=msb` (bounds taken in either order) of a 32-bit word.
pub open spec fn spec_mask_u32(a: u8, b: u8) -> u32 {
    let hi = if a >= b { a } else { b };
    let lo = if a >= b { b } else { a };
    (!0u32 >> ((31 - hi) as u32)) & (!0u32 << (lo as u32))
}

/// Mask of the bits `lsb..=msb` (bounds taken in either order) of a 64-bit word.
pub open spec fn spec_mask_u64(a: u8, b: u8) -> u64 {
    let hi = if a >= b { a } else { b };
    let lo = if a >= b { b } else { a };
    (!0u64 >> ((63 - hi) as u64)) & (!0u64 << (lo as u64))
}

/// The field `lsb..=msb` of `val`, shifted down to bit 0.
pub open spec fn spec_field_u32(val: u32, a: u8, b: u8) -> u32 {
    let hi = if a >= b { a } else { b };
    let lo = if a >= b { b } else { a };
    (val >> (lo as u32)) & (!0u32 >> ((31 - (hi - lo)) as u32))
}

/// The field `lsb..=msb` of `val`, shifted down to bit 0.
pub open spec fn spec_field_u64(val: u64, a: u8, b: u8) -> u64 {
    let hi = if a >= b { a } else { b };
    let lo = if a >= b { b } else { a };
    (val >> (lo as u64)) & (!0u64 >> ((63 - (hi - lo)) as u64))
}

pub fn bit<const POS: u8>() -> (r: u32)
    requires
        POS < 32,
    ensures
        r == 1u32 << (POS as u32),
{
    let p: u8 = POS;
    let r = bit_range::<POS, POS>();
    proof {
        assert((!0u32 >> ((31 - p) as u32)) & (!0u32 << (p as u32)) == 1u32 << (p
            as u32)) by (bit_vector)
            requires p < 32;
    }
    r
}

pub fn bit_range<const MSB: u8, const LSB: u8>() -> (r: u32)
    requires
        MSB < 32,
        LSB < 32,
    ensures
        r == spec_mask_u32(MSB, LSB),
{
    let m: u8 = if MSB >= LSB { MSB } else { LSB };
    let l: u8 = if MSB >= LSB { LSB } else { MSB };
    proof {
        assert(1u32 << (m as u32) >= 1 && 1u32 << (l as u32) >= 1) by (bit_vector)
            requires l < 32 && m < 32;
    }
    let hi_ones: u32 = (1u32 << m) - 1;
    let lo_ones: u32 = (1u32 << l) - 1;
    let r: u32 = ((1u32 << m) | hi_ones) & !lo_ones;
    proof {
        assert(((1u32 << (m as u32)) | hi_ones) & !lo_ones == (!0u32 >> ((31 - m) as u32))
            & (!0u32 << (l as u32))) by (bit_vector)
            requires
                l <= m < 32,
                hi_ones == (1u32 << (m as u32)) - 1,
                lo_ones == (1u32 << (l as u32)) - 1,
        ;
    }
    r
}

pub fn bit_u64<const POS: u8>() -> (r: u64)
    requires
        POS < 64,
    ensures
        r == 1u64 << (POS as u64),
{
    let p: u8 = POS;
    let r = bit_range_u64::<POS, POS>();
    proof {
        assert((!0u64 >> ((63 - p) as u64)) & (!0u64 << (p as u64)) == 1u64 << (p
            as u64)) by (bit_vector)
            requires p < 64;
    }
    r
}

pub fn bit_range_u64<const MSB: u8, const LSB: u8>() -> (r: u64)
    requires
        MSB < 64,
        LSB < 64,
    ensures
        r == spec_mask_u64(MSB, LSB),
{
    let m: u8 = if MSB >= LSB { MSB } else { LSB };
    let l: u8 = if MSB >= LSB { LSB } else { MSB };
    proof {
        assert(1u64 << (m as u64) >= 1 && 1u64 << (l as u64) >= 1) by (bit_vector)
            requires l < 64 && m < 64;
    }
    let hi_ones: u64 = (1u64 << m) - 1;
    let lo_ones: u64 = (1u64 << l) - 1;
    let r: u64 = ((1u64 << m) | hi_ones) & !lo_ones;
    proof {
        assert(((1u64 << (m as u64)) | hi_ones) & !lo_ones == (!0u64 >> ((63 - m) as u64))
            & (!0u64 << (l as u64))) by (bit_vector)
            requires
                l <= m < 64,
                hi_ones == (1u64 << (m as u64)) - 1,
                lo_ones == (1u64 << (l as u64)) - 1,
        ;
    }
    r
}

pub fn bit_of<const POS: u8>(val: u32) -> (r: u32)
    requires
        POS < 32,
    ensures
        r == (val >> (POS as u32)) & 1,
{
    let p: u8 = POS;
    let r: u32 = (val & bit::<POS>()) >> p;
    proof {
        assert((val & (1u32 << (p as u32))) >> (p as u32) == (val >> (p as u32))
            & 1) by (bit_vector)
            requires p < 32;
    }
    r
}

pub fn bit_of_range<const MSB: u8, const LSB: u8>(val: u32) -> (r: u32)
    requires
        MSB < 32,
        LSB < 32,
    ensures
        r == spec_field_u32(val, MSB, LSB),
{
    let m: u8 = if MSB >= LSB { MSB } else { LSB };
    let l: u8 = if MSB >= LSB { LSB } else { MSB };
    let mask: u32 = bit_range::<MSB, LSB>();
    let r: u32 = (val & mask) >> l;
    proof {
        assert((val & ((!0u32 >> ((31 - m) as u32)) & (!0u32 << (l as u32)))) >> (l as u32) == (val
            >> (l as u32)) & (!0u32 >> ((31 - (m - l)) as u32))) by (bit_vector)
            requires l <= m < 32;
    }
    r
}

pub fn bit_of_u64<const POS: u8>(val: u64) -> (r: u64)
    requires
        POS < 64,
    ensures
        r == (val >> (POS as u64)) & 1,
{
    let p: u8 = POS;
    let r: u64 = (val & bit_u64::<POS>()) >> p;
    proof {
        assert((val & (1u64 << (p as u64))) >> (p as u64) == (val >> (p as u64))
            & 1) by (bit_vector)
            requires p < 64;
    }
    r
}

pub fn bit_of_range_u64<const MSB: u8, const LSB: u8>(val: u64) -> (r: u64)
    requires
        MSB < 64,
        LSB < 64,
    ensures
        r == spec_field_u64(val, MSB, LSB),
{
    let m: u8 = if MSB >= LSB { MSB } else { LSB };
    let l: u8 = if MSB >= LSB { LSB } else { MSB };
    let mask: u64 = bit_range_u64::<MSB, LSB>();
    let r: u64 = (val & mask) >> l;
    proof {
        assert((val & ((!0u64 >> ((63 - m) as u64)) & (!0u64 << (l as u64)))) >> (l as u64) == (val
            >> (l as u64)) & (!0u64 >> ((63 - (m - l)) as u64))) by (bit_vector)
            requires l <= m < 64;
    }
    r
}

} // verus!
