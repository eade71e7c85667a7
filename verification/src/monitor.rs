//! The monitor geometry handed to the presentation layer.

use vstd::prelude::*;

verus! {

/// A monitor's pixel size and position, as the window layer reports
/// them.
#[derive(Debug)]
pub struct MonitorInfo {
    pub size: (u32, u32),
    pub position: (i32, i32),
}

impl MonitorInfo {
    /// Packages one monitor's reported geometry.
    pub fn new(size: (u32, u32), position: (i32, i32)) -> (m: MonitorInfo)
        ensures
            m.size == size,
            m.position == position,
    {
        MonitorInfo { size, position }
    }
}

} // verus!
