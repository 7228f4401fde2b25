//! What a root scan reports about itself.
use vstd::prelude::*;

verus! {

/// How many roots a scan kept and how many samples it evaluated.
#[derive(Debug, Clone, Copy, PartialEq, Eq, Structural)]
pub struct RootScanResult {
    pub roots: usize,
    pub scanned_samples: usize,
}

/// The samples a scan over `samples` intervals evaluates: both ends of every
/// interval, or, below two intervals, where nothing is scanned, the count as
/// given.
pub open spec fn scanned_sample_count(samples: nat) -> nat {
    if samples < 2 {
        samples
    } else {
        samples + 1
    }
}

/// The report of a scan that kept `roots` roots over `samples` intervals.
pub fn root_scan_result(roots: usize, samples: usize) -> (res: RootScanResult)
    requires
        samples < usize::MAX,
    ensures
        res.roots == roots,
        res.scanned_samples == scanned_sample_count(samples as nat),
{
    let scanned = if samples < 2 {
        samples
    } else {
        samples + 1
    };
    RootScanResult { roots, scanned_samples: scanned }
}

} // verus!
