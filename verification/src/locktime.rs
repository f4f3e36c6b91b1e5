//! Decoding of a BIP-68-style relative lock time from a 32-bit value: two
//! flag bits select whether the value is usable at all and whether its low
//! 16 bits count blocks or 512-second intervals.
use vstd::prelude::*;

verus! {

/// Relative lock time disable flag mask (bit 31).
pub const LOCK_TIME_DISABLE_FLAG_MASK: u32 = 0x8000_0000;

/// Relative lock time type flag mask (bit 22).
pub const LOCK_TYPE_MASK: u32 = 0x0040_0000;

/// A decoded relative lock time: either a number of blocks or a number of
/// 512-second intervals. Exactly one of the two payloads is meaningful, the
/// tag is chosen once at construction and never changes.
#[derive(Debug, Clone, Copy, PartialEq, Eq)]
pub enum LockTime {
    /// A block-height count.
    Height(u16),
    /// A time span in 512-second intervals.
    Time(u16),
}

/// What `from_num` returns: nothing if the number is outside the unsigned
/// 32-bit range or its disable flag (bit 31) is set; otherwise the low 16
/// bits, as a time span if the type flag (bit 22) is set, else as a height.
pub open spec fn spec_from_num(num: i64) -> Option<LockTime> {
    if num < 0 || num > 0xFFFF_FFFF {
        None
    } else if num >= 0x8000_0000 {
        None
    } else if (num / 0x0040_0000) % 2 == 1 {
        Some(LockTime::Time((num % 0x1_0000) as u16))
    } else {
        Some(LockTime::Height((num % 0x1_0000) as u16))
    }
}

/// Try to interpret the given number as a relative lock time.
pub fn from_num(num: i64) -> (r: Option<LockTime>)
    ensures
        r == spec_from_num(num),
{
    if num < 0 || num > 0xFFFF_FFFF {
        return None;
    }
    let val = num as u32;
    assert((val & 0x8000_0000u32 != 0) <==> val >= 0x8000_0000) by (bit_vector);
    if val & LOCK_TIME_DISABLE_FLAG_MASK != 0 {
        return None;
    }
    let low16 = val as u16;
    assert((val & 0x0040_0000u32 != 0) <==> (val / 0x0040_0000) % 2 == 1) by (bit_vector);
    assert(low16 == val % 0x1_0000) by (bit_vector)
        requires
            low16 == val as u16,
    ;
    if val & LOCK_TYPE_MASK > 0 {
        Some(LockTime::Time(low16))
    } else {
        Some(LockTime::Height(low16))
    }
}

} // verus!
