use crate::units::{share_of, wide_share};
use vstd::prelude::*;

verus! {

/// Memory usage. All values in bytes.
#[derive(Clone, Copy, Debug, PartialEq, Eq)]
pub struct MemorySnapshot {
    pub used: u64,
    pub total: u64,
    pub used_swap: u64,
    pub total_swap: u64,
}

impl MemorySnapshot {
    /// Memory and swap in use as a share of memory and swap together, in
    /// thousandths of a percent.
    pub open spec fn spec_total_percent(&self) -> int {
        share_of(self.used + self.used_swap, self.total + self.total_swap)
    }

    /// Memory and swap in use as a share of memory and swap together, in
    /// thousandths of a percent; zero where the machine reports no memory at
    /// all.
    pub fn total_percent(&self) -> (r: u32)
        ensures
            r == self.spec_total_percent(),
    {
        let in_use: u128 = self.used as u128 + self.used_swap as u128;
        let capacity: u128 = self.total as u128 + self.total_swap as u128;
        wide_share(in_use, capacity)
    }
}

} // verus!
