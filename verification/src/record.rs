//! Recording lifecycle notifications and the delivery channel they travel
//! on. The channel is an explicit object handed to the callers; when none
//! is attached, notifications are dropped, never buffered.

use vstd::prelude::*;
use crate::SampleType;
use crate::utils::current_timestamp_ms;

verus! {

/// A lifecycle notification of a recording, stamped in milliseconds since
/// the Unix epoch.
#[derive(Debug, Clone)]
pub enum RecordEvent {
    Start { timestamp: u64 },
    Progress { timestamp: u64, peak: SampleType },
    Stop { timestamp: u64 },
}

/// The delivery channel for lifecycle notifications: everything sent while
/// the channel was attached, in order.
pub struct RecordChannel {
    pub sent: Vec<RecordEvent>,
}

impl RecordChannel {
    /// A fresh channel that has delivered nothing yet.
    pub fn new() -> (c: RecordChannel)
        ensures
            c.sent@ =~= Seq::<RecordEvent>::empty(),
    {
        RecordChannel { sent: Vec::new() }
    }
}

impl RecordEvent {
    /// A start notification stamped with the clock's current reading.
    pub fn start() -> (e: RecordEvent)
        ensures
            e is Start,
    {
        RecordEvent::Start { timestamp: current_timestamp_ms() }
    }

    /// A level-meter progress notification carrying the given peak.
    pub fn progress(peak: SampleType) -> (e: RecordEvent)
        ensures
            e matches RecordEvent::Progress { peak: p, .. } && p == peak,
    {
        RecordEvent::Progress { timestamp: current_timestamp_ms(), peak }
    }

    /// A stop notification stamped with the clock's current reading.
    pub fn stop() -> (e: RecordEvent)
        ensures
            e is Stop,
    {
        RecordEvent::Stop { timestamp: current_timestamp_ms() }
    }

    /// Delivers the notification on the channel if one is attached; with no
    /// channel attached the notification is dropped, never buffered.
    pub fn send(&self, channel: &mut Option<RecordChannel>)
        ensures
            (*old(channel)) is Some ==> ((*final(channel)) matches Some(c)
                && c.sent@ == (*old(channel))->Some_0.sent@.push(*self)),
            (*old(channel)) is None ==> (*final(channel)) is None,
    {
        match channel {
            Some(c) => {
                let copy = match self {
                    RecordEvent::Start { timestamp } => RecordEvent::Start {
                        timestamp: *timestamp,
                    },
                    RecordEvent::Progress { timestamp, peak } => RecordEvent::Progress {
                        timestamp: *timestamp,
                        peak: *peak,
                    },
                    RecordEvent::Stop { timestamp } => RecordEvent::Stop {
                        timestamp: *timestamp,
                    },
                };
                c.sent.push(copy);
            },
            None => {},
        }
    }
}

} // verus!
