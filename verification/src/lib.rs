pub mod bus;
pub mod device;
pub mod errors;
pub mod events;
pub mod message;
pub mod monitor;
pub mod peaks;
pub mod record;
pub mod recorder;
pub mod samples;
pub mod session;
pub mod streamer;
pub mod text;
pub mod utils;
pub mod watchdog;
pub mod wav;

use vstd::prelude::*;

verus! {

/// The canonical sample type: every captured format is converted to this
/// fixed-width signed representation before distribution.
pub type SampleType = i8;

} // verus!
