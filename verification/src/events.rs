//! The notification payloads the recorder reports to its presentation
//! layer: lifecycle events of a recording and surfaced error conditions.

use vstd::prelude::*;
use crate::SampleType;

verus! {

/// Lifecycle notifications of a recording, stamped in milliseconds since
/// the Unix epoch.
#[derive(Clone, Debug)]
pub enum RecordEvent {
    Start { timestamp: u128 },
    Progress { timestamp: u128, peak: SampleType },
    Stop { timestamp: u128 },
}

/// Messages surfaced to the presentation layer; today only error reports.
#[derive(Debug, Clone)]
pub enum Message {
    Error { code: u8, code_str: String, message: String, timestamp: u128 },
}

} // verus!
