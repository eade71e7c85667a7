//! One recording session: its identity, the capture stream it owns, and
//! the distribution bus its chunks go out on. The hardware stream itself
//! is driver state outside the library; the session tracks whether it is
//! armed, and stopping always tears it down before the bus closes, so
//! nothing is produced after a stop.

use vstd::prelude::*;
use crate::SampleType;
use crate::bus::AudioBus;
use crate::bus::subs_preserved;
use crate::errors::RecorderError;

verus! {

/// The per-subscriber window of the session bus: sized to hold several
/// seconds of audio, so one slow consumer never costs the others chunks.
pub const BUFFER_SIZE: usize = 48000 * 5;

/// The capture formats a device may deliver; everything but these four
/// is refused at start.
#[derive(Debug, Clone, Copy, PartialEq, Eq, Structural)]
pub enum SampleFormat {
    I8,
    I16,
    I32,
    F32,
    Other,
}

/// Whether the session can open a capture stream in this format.
pub open spec fn format_supported(f: SampleFormat) -> bool {
    !(f is Other)
}

/// An input device as the session sees it: the human-readable name, the
/// driver-native sample format, and the capture sample rate.
#[derive(Debug)]
pub struct InputDevice {
    pub name: String,
    pub format: SampleFormat,
    pub sample_rate: u32,
}

/// Relies on uuid's `Uuid::new_v4` and its hyphenated rendering: a fresh
/// random identifier, always 36 characters long. Nothing else can be
/// promised of a random value.
#[verifier::external_body]
fn fresh_session_id() -> (id: String)
    ensures
        id@.len() == 36,
{
    uuid::Uuid::new_v4().to_string()
}

/// One recording session: a fresh identity, the bus its chunks are
/// distributed on, and ownership of the capture stream.
pub struct RecordingSession {
    id: String,
    bus: AudioBus,
    stream_active: bool,
}

impl RecordingSession {
    /// The session's identity, as text.
    pub closed spec fn id_spec(self) -> Seq<char> {
        self.id@
    }

    /// The session's distribution bus.
    pub closed spec fn bus_view(self) -> AudioBus {
        self.bus
    }

    /// Whether the capture stream is armed and producing.
    pub closed spec fn stream_open(self) -> bool {
        self.stream_active
    }

    /// A session is well formed when its bus is, and when an armed
    /// stream implies a live producer side: chunks are never produced
    /// into a closed bus.
    pub open spec fn wf(self) -> bool {
        &&& self.bus_view().wf()
        &&& self.stream_open() ==> !self.bus_view().is_closed()
    }

    /// A fresh session: a new random identity, an empty bus with the
    /// standard window, no subscribers yet, and no stream armed.
    pub fn new() -> (s: RecordingSession)
        ensures
            s.wf(),
            s.id_spec().len() == 36,
            !s.stream_open(),
            s.bus_view().published() =~= Seq::<Seq<SampleType>>::empty(),
            s.bus_view().cap() == BUFFER_SIZE,
            s.bus_view().sub_count() == 0,
            !s.bus_view().is_closed(),
    {
        RecordingSession { id: fresh_session_id(), bus: AudioBus::new(BUFFER_SIZE), stream_active: false }
    }

    /// Opens a subscription on the session's bus; the subscription sees
    /// only chunks published after this point.
    pub fn subscribe(&mut self) -> (sub: usize)
        requires
            old(self).wf(),
        ensures
            final(self).wf(),
            final(self).id_spec() == old(self).id_spec(),
            final(self).stream_open() == old(self).stream_open(),
            sub == old(self).bus_view().sub_count(),
            final(self).bus_view().sub_count() == old(self).bus_view().sub_count() + 1,
            final(self).bus_view().published() == old(self).bus_view().published(),
            final(self).bus_view().cap() == old(self).bus_view().cap(),
            final(self).bus_view().is_closed() == old(self).bus_view().is_closed(),
            subs_preserved(old(self).bus_view(), final(self).bus_view()),
            final(self).bus_view().sub_cursor(sub as int) == final(self).bus_view().published().len(),
            final(self).bus_view().sub_start(sub as int) == final(self).bus_view().published().len(),
            final(self).bus_view().sub_received(sub as int) =~= Seq::<Seq<SampleType>>::empty(),
            final(self).bus_view().sub_lag(sub as int) == 0,
    {
        self.bus.subscribe()
    }

    /// The session's unique identity.
    pub fn id(&self) -> (id: &String)
        ensures
            id@ == self.id_spec(),
    {
        &self.id
    }

    /// Surrenders the session's bus: the remains a stop hands back so
    /// the consumers can finish draining.
    pub fn into_bus(self) -> (b: AudioBus)
        ensures
            b == self.bus_view(),
    {
        self.bus
    }

    /// Mutable access to the session's bus, for the consumers that drain
    /// it.
    pub fn bus_mut(&mut self) -> (b: &mut AudioBus)
        ensures
            *b == old(self).bus_view(),
            final(self).bus_view() == *final(b),
            final(self).id_spec() == old(self).id_spec(),
            final(self).stream_open() == old(self).stream_open(),
    {
        &mut self.bus
    }

    /// Arms the capture stream for a device. Only the four known formats
    /// can be opened; anything else is refused with no state changed, so
    /// a failed start leaves no partial session behind.
    pub fn start(&mut self, device: &InputDevice) -> (r: Result<(), RecorderError>)
        requires
            old(self).wf(),
            !old(self).bus_view().is_closed(),
        ensures
            final(self).wf(),
            final(self).id_spec() == old(self).id_spec(),
            final(self).bus_view() == old(self).bus_view(),
            format_supported(device.format) ==> r is Ok && final(self).stream_open(),
            !format_supported(device.format) ==> r == Err::<(), RecorderError>(
                RecorderError::DeviceConfigError,
            ) && final(self).stream_open() == old(self).stream_open(),
    {
        match device.format {
            SampleFormat::Other => Err(RecorderError::DeviceConfigError),
            _ => {
                self.stream_active = true;
                Ok(())
            },
        }
    }

    /// Whether the capture stream is currently armed.
    pub fn is_stream_open(&self) -> (r: bool)
        ensures
            r == self.stream_open(),
    {
        self.stream_active
    }

    /// The capture callback's path: publishes one converted chunk onto
    /// the bus. Publishing never blocks and never touches a subscriber.
    pub fn publish_chunk(&mut self, chunk: Vec<SampleType>)
        requires
            old(self).wf(),
            old(self).stream_open(),
        ensures
            final(self).wf(),
            final(self).id_spec() == old(self).id_spec(),
            final(self).stream_open(),
            final(self).bus_view().published() =~= old(self).bus_view().published().push(chunk@),
            final(self).bus_view().cap() == old(self).bus_view().cap(),
            final(self).bus_view().is_closed() == old(self).bus_view().is_closed(),
            final(self).bus_view().sub_count() == old(self).bus_view().sub_count(),
            subs_preserved(old(self).bus_view(), final(self).bus_view()),
    {
        self.bus.publish(chunk);
    }

    /// Stops the session: the capture stream is dropped first — nothing
    /// is produced afterwards — and then the bus closes, so every
    /// consumer drains what was published and sees the end. Idempotent.
    pub fn stop(&mut self)
        requires
            old(self).wf(),
        ensures
            final(self).wf(),
            final(self).id_spec() == old(self).id_spec(),
            !final(self).stream_open(),
            final(self).bus_view().is_closed(),
            final(self).bus_view().published() == old(self).bus_view().published(),
            final(self).bus_view().cap() == old(self).bus_view().cap(),
            final(self).bus_view().sub_count() == old(self).bus_view().sub_count(),
            subs_preserved(old(self).bus_view(), final(self).bus_view()),
    {
        self.stream_active = false;
        self.bus.close();
    }
}

} // verus!
