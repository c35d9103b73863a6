use vstd::prelude::*;

verus! {

/// The value of the low 32 bits of `n`.
pub open spec fn low_u32(n: nat) -> nat {
    n % 0x1_0000_0000
}

/// The unsigned number with the bits of the signed number `v`.
pub open spec fn unsigned_of(v: int) -> int {
    if v >= 0 {
        v
    } else {
        v + 0x1_0000_0000
    }
}

/// The signed number with the bits of the unsigned number `v`.
pub open spec fn signed_of(v: int) -> int {
    if v < 0x8000_0000 {
        v
    } else {
        v - 0x1_0000_0000
    }
}

/// Keeps the low 32 bits of a count that the native library reports as a size.
pub fn size_to_u32(n: usize) -> (low: u32)
    ensures
        low == low_u32(n as nat),
{
    let wide: u64 = n as u64;
    (wide % 0x1_0000_0000) as u32
}

/// Reads the bits of a C `int` as an unsigned number.
pub fn int_to_u32(v: i32) -> (u: u32)
    ensures
        u == unsigned_of(v as int),
{
    if v >= 0 {
        v as u32
    } else {
        let above_min: i32 = v - i32::MIN;
        above_min as u32 + 0x8000_0000
    }
}

/// Hands an unsigned number to the native library as the C `int` with the same bits.
pub fn u32_to_int(v: u32) -> (i: i32)
    ensures
        i == signed_of(v as int),
{
    if v < 0x8000_0000 {
        v as i32
    } else {
        let high: u32 = v - 0x8000_0000;
        high as i32 + i32::MIN
    }
}

/// Turning a number into the other signedness and back gives the number.
pub proof fn lemma_sign_round_trip(v: int)
    ensures
        i32::MIN <= v <= i32::MAX ==> signed_of(unsigned_of(v)) == v,
        0 <= v <= u32::MAX ==> unsigned_of(signed_of(v)) == v,
{
}

} // verus!
