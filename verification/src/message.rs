//! Error messages addressed to the presentation layer, and their delivery
//! into an attached message sink.

use vstd::prelude::*;
use crate::text::dec_rep;
use crate::text::u64_to_dec_string;
use crate::utils::current_timestamp_ms;

verus! {

/// A presentation-layer message; today only error reports, stamped in
/// milliseconds since the Unix epoch.
#[derive(Debug, Clone)]
pub enum MessageEvent {
    Error { code: u8, code_str: String, message: String, timestamp: u64 },
}

impl MessageEvent {
    /// Builds an error message: the numeric code, the code rendered in
    /// decimal, the free-form text, and the clock's current reading.
    pub fn error(code: u8, message: &str) -> (m: MessageEvent)
        ensures
            m matches MessageEvent::Error { code: c, code_str, message: msg, .. }
                && c == code
                && code_str@ == dec_rep(code as nat)
                && msg@ == message@,
    {
        MessageEvent::Error {
            code,
            code_str: u64_to_dec_string(code as u64),
            message: message.to_owned(),
            timestamp: current_timestamp_ms(),
        }
    }

    /// Delivers the message into the attached sink. Delivery appends the
    /// message unchanged; the sink stands for the transport the
    /// presentation layer drains.
    pub fn send(&self, sink: &mut Vec<MessageEvent>)
        ensures
            final(sink)@ == old(sink)@.push(*self),
    {
        let copy = match self {
            MessageEvent::Error { code, code_str, message, timestamp } => MessageEvent::Error {
                code: *code,
                code_str: code_str.clone(),
                message: message.clone(),
                timestamp: *timestamp,
            },
        };
        sink.push(copy);
    }
}

} // verus!
