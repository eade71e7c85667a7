//! Access to the wall clock, the one ambient input the recorder timestamps
//! its notifications with.

use vstd::prelude::*;

verus! {

/// Relies on std's `SystemTime::now` and `Duration::as_millis`: the
/// milliseconds elapsed since the Unix epoch, or zero if the clock sits
/// before the epoch. Nothing can be promised of the clock's reading itself.
#[verifier::external_body]
pub fn get_current_timestamp() -> u128 {
    std::time::SystemTime::now()
        .duration_since(std::time::UNIX_EPOCH)
        .unwrap_or_default()
        .as_millis()
}

/// The current timestamp narrowed to 64 bits, as the lifecycle notifications
/// carry it.
pub fn current_timestamp_ms() -> u64 {
    (get_current_timestamp() % 0x1_0000_0000_0000_0000u128) as u64
}

} // verus!
