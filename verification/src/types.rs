//! The process-table sort categories and their cycling order.

use vstd::prelude::*;

verus! {

/// What the process table is sorted by.
#[derive(Debug, Clone, Copy, PartialEq, Eq, Structural)]
pub enum SortCategory {
    CpuPerCore,
    CpuAverage,
    Memory,
    Network,
}

/// The category before `c` in the fixed cycle.
pub open spec fn spec_previous_category(c: SortCategory) -> SortCategory {
    match c {
        SortCategory::CpuPerCore => SortCategory::Network,
        SortCategory::CpuAverage => SortCategory::CpuPerCore,
        SortCategory::Memory => SortCategory::CpuAverage,
        SortCategory::Network => SortCategory::Memory,
    }
}

/// The category after `c` in the fixed cycle.
pub open spec fn spec_next_category(c: SortCategory) -> SortCategory {
    match c {
        SortCategory::CpuPerCore => SortCategory::CpuAverage,
        SortCategory::CpuAverage => SortCategory::Memory,
        SortCategory::Memory => SortCategory::Network,
        SortCategory::Network => SortCategory::CpuPerCore,
    }
}

impl SortCategory {
    /// The previous category in the fixed cycle.
    pub fn previous(&self) -> (r: SortCategory)
        ensures
            r == spec_previous_category(*self),
    {
        match self {
            SortCategory::CpuPerCore => SortCategory::Network,
            SortCategory::CpuAverage => SortCategory::CpuPerCore,
            SortCategory::Memory => SortCategory::CpuAverage,
            SortCategory::Network => SortCategory::Memory,
        }
    }

    /// The next category in the fixed cycle.
    pub fn next(&self) -> (r: SortCategory)
        ensures
            r == spec_next_category(*self),
            spec_previous_category(r) == *self,
    {
        match self {
            SortCategory::CpuPerCore => SortCategory::CpuAverage,
            SortCategory::CpuAverage => SortCategory::Memory,
            SortCategory::Memory => SortCategory::Network,
            SortCategory::Network => SortCategory::CpuPerCore,
        }
    }

    /// The category's display name.
    pub fn as_str(&self) -> (r: &'static str)
        ensures
            *self == SortCategory::CpuPerCore ==> r@ == "CPU (per Core %)"@,
            *self == SortCategory::CpuAverage ==> r@ == "CPU (average %)"@,
            *self == SortCategory::Memory ==> r@ == "Memory Usage"@,
            *self == SortCategory::Network ==> r@ == "Network Usage"@,
    {
        match self {
            SortCategory::CpuPerCore => "CPU (per Core %)",
            SortCategory::CpuAverage => "CPU (average %)",
            SortCategory::Memory => "Memory Usage",
            SortCategory::Network => "Network Usage",
        }
    }
}

} // verus!
