use vstd::prelude::*;

verus! {

/// One percent, in the unit in which percentages are held.
pub const PERCENT: u32 = 1000;

/// One hundred percent, in the unit in which percentages are held.
pub const FULL_SCALE: u32 = 100_000;

/// The share that `part` is of `whole`, in thousandths of a percent, rounded
/// down and capped at `u32::MAX`. A share of nothing is zero.
pub open spec fn share_of(part: int, whole: int) -> int {
    if whole <= 0 || part < 0 {
        0
    } else {
        let q = part * 100_000 / whole;
        if q > u32::MAX {
            u32::MAX as int
        } else {
            q
        }
    }
}

/// Computes [`share_of`] on values that may exceed 64 bits by a little.
pub(crate) fn wide_share(part: u128, whole: u128) -> (r: u32)
    requires
        part <= 2 * u64::MAX,
    ensures
        r == share_of(part as int, whole as int),
{
    if whole == 0 {
        return 0;
    }
    let scaled: u128 = part * 100_000;
    let q: u128 = scaled / whole;
    if q > 0xffff_ffff {
        u32::MAX
    } else {
        q as u32
    }
}

/// The share that `part` is of `whole`, in thousandths of a percent.
pub fn percent_of(part: u64, whole: u64) -> (r: u32)
    ensures
        r == share_of(part as int, whole as int),
{
    wide_share(part as u128, whole as u128)
}

} // verus!
