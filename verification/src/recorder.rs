//! The recording engine: the single session slot, the exclusive start,
//! and the idempotent stop that collects the transcript. The slot is an
//! explicit object — callers hand it around instead of reaching for a
//! global — and it owns the transcription streamer whose text a stop
//! returns.

use vstd::prelude::*;
use crate::SampleType;
use crate::bus::AudioBus;
use crate::bus::subs_preserved;
use crate::device::device_id_chars;
use crate::errors::RecorderError;
use crate::record::RecordChannel;
use crate::record::RecordEvent;
use crate::session::BUFFER_SIZE;
use crate::session::InputDevice;
use crate::session::RecordingSession;
use crate::session::format_supported;
use crate::streamer::WhisperStreamer;

verus! {

/// What a successful start hands back: the new session's identity, the
/// capture sample rate, and the bus subscriptions of the three
/// consumers.
#[derive(Debug)]
pub struct StartInfo {
    pub session_id: String,
    pub sample_rate: u32,
    pub wav_sub: usize,
    pub peaks_sub: usize,
    pub streamer_sub: usize,
}

/// Whether a device answers to this selector: the selector is the stable
/// hash identifier of the device's name.
pub open spec fn selector_matches(d: InputDevice, sel: Seq<char>) -> bool {
    device_id_chars(d.name@) == sel
}

/// The first device at or after `from` that answers to the selector.
pub open spec fn first_match(sel: Seq<char>, devices: Seq<InputDevice>, from: int) -> Option<int>
    decreases devices.len() - from,
{
    if from < 0 || from >= devices.len() {
        None
    } else if selector_matches(devices[from], sel) {
        Some(from)
    } else {
        first_match(sel, devices, from + 1)
    }
}

/// How a selector resolves: the empty selector takes the system default
/// device if one exists; otherwise the first device whose name hashes to
/// the selector.
pub open spec fn spec_resolve(
    sel: Seq<char>,
    devices: Seq<InputDevice>,
    default_index: Option<usize>,
) -> Option<int> {
    if sel.len() == 0 {
        match default_index {
            Some(i) => Some(i as int),
            None => None,
        }
    } else {
        first_match(sel, devices, 0)
    }
}

proof fn lemma_first_match_skip(sel: Seq<char>, devices: Seq<InputDevice>, i: int)
    requires
        0 <= i <= devices.len(),
        forall|j: int| 0 <= j < i ==> !selector_matches(#[trigger] devices[j], sel),
    ensures
        first_match(sel, devices, 0) == first_match(sel, devices, i),
    decreases i,
{
    if i > 0 {
        lemma_first_match_skip(sel, devices, i - 1);
    }
}

/// Resolves a device selector against the enumerated devices: the empty
/// selector means the system default (when one exists), any other
/// selector the first device whose name hashes to it.
pub fn resolve_device(
    device_id: &str,
    devices: &Vec<InputDevice>,
    default_index: Option<usize>,
) -> (r: Option<usize>)
    ensures
        ({
            match spec_resolve(device_id@, devices@, default_index) {
                Some(i) => r matches Some(ri) && ri == i,
                None => r is None,
            }
        }),
{
    if device_id.unicode_len() == 0 {
        return default_index;
    }
    let wanted = String::from_str(device_id);
    let mut i: usize = 0;
    while i < devices.len()
        invariant
            i <= devices.len(),
            wanted@ == device_id@,
            device_id@.len() > 0,
            forall|j: int|
                0 <= j < i ==> !selector_matches(#[trigger] devices@[j], device_id@),
        decreases devices.len() - i,
    {
        let candidate = crate::device::get_device_hash(devices[i].name.as_str());
        if candidate == wanted {
            proof {
                lemma_first_match_skip(device_id@, devices@, i as int);
            }
            return Some(i);
        }
        i = i + 1;
    }
    proof {
        lemma_first_match_skip(device_id@, devices@, devices@.len() as int);
    }
    None
}

/// The engine: at most one session, and the streamer whose transcript a
/// stop collects.
pub struct Recorder {
    session: Option<RecordingSession>,
    streamer: WhisperStreamer,
}

impl Recorder {
    /// The session slot.
    pub closed spec fn session_spec(self) -> Option<RecordingSession> {
        self.session
    }

    /// The transcription streamer.
    pub closed spec fn streamer_spec(self) -> WhisperStreamer {
        self.streamer
    }

    /// Whether a session currently occupies the slot.
    pub open spec fn is_recording(self) -> bool {
        self.session_spec() is Some
    }

    /// The engine is well formed when its session, if any, is.
    pub open spec fn wf(self) -> bool {
        self.session_spec() matches Some(s) ==> s.wf()
    }

    /// An idle engine: no session, a streamer that never connected.
    pub fn new() -> (r: Recorder)
        ensures
            r.wf(),
            !r.is_recording(),
            r.streamer_spec().state_spec() is Disconnected,
            r.streamer_spec().transcript_spec() =~= Seq::<char>::empty(),
    {
        Recorder { session: None, streamer: WhisperStreamer::new() }
    }

    /// Whether a session currently occupies the slot: the liveness the
    /// watchdog polls.
    pub fn is_active(&self) -> (r: bool)
        ensures
            r == self.is_recording(),
    {
        self.session.is_some()
    }

    /// Mutable access to the streamer, for the connection driver.
    pub fn streamer_mut(&mut self) -> (s: &mut WhisperStreamer)
        ensures
            *s == old(self).streamer_spec(),
            final(self).streamer_spec() == *final(s),
            final(self).session_spec() == old(self).session_spec(),
    {
        &mut self.streamer
    }

    /// Mutable access to the running session's bus, for the consumers;
    /// nothing when no session is active.
    pub fn bus_mut(&mut self) -> (r: Option<&mut AudioBus>)
        ensures
            old(self).session_spec() is None ==> r is None && final(self).session_spec() is None
                && final(self).streamer_spec() == old(self).streamer_spec(),
            old(self).session_spec() matches Some(s0) ==> (r matches Some(b) && *b
                == s0.bus_view() && final(self).streamer_spec() == old(self).streamer_spec() && (
            final(self).session_spec() matches Some(s1) && s1.id_spec() == s0.id_spec()
                && s1.stream_open() == s0.stream_open() && s1.bus_view() == *final(b))),
    {
        match &mut self.session {
            Some(s) => Some(s.bus_mut()),
            None => None,
        }
    }

    /// The capture callback's path into the engine: publishes one chunk
    /// onto the running session's bus. With no session, or with the
    /// stream already torn down, the chunk is dropped; the call never
    /// blocks and never fails.
    pub fn publish_chunk(&mut self, chunk: Vec<SampleType>)
        requires
            old(self).wf(),
        ensures
            final(self).wf(),
            final(self).streamer_spec() == old(self).streamer_spec(),
            ({
                if old(self).session_spec() matches Some(s0) && s0.stream_open() {
                    &&& final(self).session_spec() matches Some(s1)
                    &&& s1.id_spec() == old(self).session_spec()->Some_0.id_spec()
                    &&& s1.stream_open()
                    &&& s1.bus_view().published() == old(
                        self,
                    ).session_spec()->Some_0.bus_view().published().push(chunk@)
                    &&& s1.bus_view().cap() == old(self).session_spec()->Some_0.bus_view().cap()
                    &&& s1.bus_view().sub_count() == old(
                        self,
                    ).session_spec()->Some_0.bus_view().sub_count()
                    &&& subs_preserved(
                        old(self).session_spec()->Some_0.bus_view(),
                        s1.bus_view(),
                    )
                } else {
                    final(self).session_spec() == old(self).session_spec()
                }
            }),
    {
        match &mut self.session {
            Some(s) => {
                if s.is_stream_open() {
                    s.publish_chunk(chunk);
                }
            },
            None => {},
        }
    }

    /// Starts a recording session, or says exactly why it cannot.
    ///
    /// Exclusivity comes first: while a session occupies the slot, the
    /// answer is `AlreadyRecording` and nothing changes — in particular
    /// no second capture stream is ever armed. Otherwise the selector is
    /// resolved against the enumerated devices (`DeviceNotFound` when it
    /// resolves to nothing), the device's format is checked
    /// (`DeviceConfigError` when unsupported) — both refusals leave no
    /// partial state — and only then a fresh session is created, with
    /// one bus subscription each for the persistence, meter and streamer
    /// consumers, the capture stream armed, and a `Start` notification
    /// on the channel.
    pub fn start(
        &mut self,
        device_id: &str,
        devices: &Vec<InputDevice>,
        default_index: Option<usize>,
        channel: &mut Option<RecordChannel>,
    ) -> (r: Result<StartInfo, RecorderError>)
        requires
            old(self).wf(),
            default_index matches Some(i) ==> i < devices@.len(),
        ensures
            final(self).wf(),
            old(self).is_recording() ==> r == Err::<StartInfo, RecorderError>(
                RecorderError::AlreadyRecording,
            ) && *final(self) == *old(self) && *final(channel) == *old(channel),
            !old(self).is_recording() ==> ({
                match spec_resolve(device_id@, devices@, default_index) {
                    Option::None => r == Err::<StartInfo, RecorderError>(
                        RecorderError::DeviceNotFound,
                    ) && *final(self) == *old(self) && *final(channel) == *old(channel),
                    Option::Some(i) => {
                        if !format_supported(devices@[i].format) {
                            r == Err::<StartInfo, RecorderError>(RecorderError::DeviceConfigError)
                                && *final(self) == *old(self) && *final(channel) == *old(channel)
                        } else {
                            &&& r matches Ok(info) && ({
                                &&& info.sample_rate == devices@[i].sample_rate
                                &&& info.wav_sub == 0
                                &&& info.peaks_sub == 1
                                &&& info.streamer_sub == 2
                                &&& (final(self).session_spec() matches Some(s) && {
                                    &&& s.id_spec() == info.session_id@
                                    &&& s.id_spec().len() == 36
                                    &&& s.stream_open()
                                    &&& s.bus_view().published() =~= Seq::<
                                        Seq<SampleType>,
                                    >::empty()
                                    &&& s.bus_view().cap() == BUFFER_SIZE
                                    &&& !s.bus_view().is_closed()
                                    &&& s.bus_view().sub_count() == 3
                                    &&& s.bus_view().sub_state(0) == (
                                        0int,
                                        0int,
                                        Seq::<Seq<SampleType>>::empty(),
                                        0int,
                                    )
                                    &&& s.bus_view().sub_state(1) == (
                                        0int,
                                        0int,
                                        Seq::<Seq<SampleType>>::empty(),
                                        0int,
                                    )
                                    &&& s.bus_view().sub_state(2) == (
                                        0int,
                                        0int,
                                        Seq::<Seq<SampleType>>::empty(),
                                        0int,
                                    )
                                })
                            })
                            &&& final(self).streamer_spec() == old(self).streamer_spec()
                            &&& ((*old(channel)) is Some ==> ((*final(channel)) matches Some(c)
                                && c.sent@.len() == (*old(channel))->Some_0.sent@.len() + 1
                                && c.sent@.subrange(0, c.sent@.len() - 1) == (*old(
                                channel,
                            ))->Some_0.sent@ && c.sent@.last() is Start))
                            &&& ((*old(channel)) is None ==> (*final(channel)) is None)
                        }
                    },
                }
            }),
    {
        if self.session.is_some() {
            return Err(RecorderError::AlreadyRecording);
        }
        let idx = match resolve_device(device_id, devices, default_index) {
            Some(i) => i,
            None => {
                return Err(RecorderError::DeviceNotFound);
            },
        };
        proof {
            lemma_first_match_props(device_id@, devices@, 0);
        }
        let device = &devices[idx];
        if matches!(device.format, crate::session::SampleFormat::Other) {
            return Err(RecorderError::DeviceConfigError);
        }
        let mut session = RecordingSession::new();
        let wav_sub = session.subscribe();
        let peaks_sub = session.subscribe();
        let streamer_sub = session.subscribe();
        let _ = session.start(device);
        let session_id = session.id().clone();
        let sample_rate = device.sample_rate;
        self.session = Some(session);
        RecordEvent::start().send(channel);
        Ok(StartInfo { session_id, sample_rate, wav_sub, peaks_sub, streamer_sub })
    }

    /// Stops the recording and collects the transcript.
    ///
    /// Idempotent: with no session in the slot this is a no-op that
    /// still succeeds — the transcript is empty, nothing changes, and no
    /// second `Stop` notification goes out; so when a user stop and the
    /// watchdog race, exactly one caller gets the transcript and the
    /// `Stop` notification fires exactly once, while the other observes
    /// plain success. With a session, the capture stream is dropped
    /// first, the bus closes and is handed back for the consumers to
    /// finish draining, the streamer yields (and clears) its accumulated
    /// transcript, and one `Stop` notification goes out.
    pub fn stop(&mut self, channel: &mut Option<RecordChannel>) -> (r: (String, Option<AudioBus>))
        requires
            old(self).wf(),
        ensures
            final(self).wf(),
            !final(self).is_recording(),
            !old(self).is_recording() ==> r.0@ =~= Seq::<char>::empty() && r.1 is None
                && *final(self) == *old(self) && *final(channel) == *old(channel),
            old(self).is_recording() ==> ({
                let s0 = old(self).session_spec()->Some_0;
                &&& r.0@ == old(self).streamer_spec().transcript_spec()
                &&& final(self).streamer_spec().transcript_spec() =~= Seq::<char>::empty()
                &&& final(self).streamer_spec().state_spec() is Disconnected
                &&& final(self).streamer_spec().debug_spec() == old(
                    self,
                ).streamer_spec().debug_spec()
                &&& (r.1 matches Some(b) && {
                    &&& b.wf()
                    &&& b.is_closed()
                    &&& b.published() == s0.bus_view().published()
                    &&& b.cap() == s0.bus_view().cap()
                    &&& b.sub_count() == s0.bus_view().sub_count()
                    &&& subs_preserved(s0.bus_view(), b)
                })
                &&& ((*old(channel)) is Some ==> ((*final(channel)) matches Some(c)
                    && c.sent@.len() == (*old(channel))->Some_0.sent@.len() + 1
                    && c.sent@.subrange(0, c.sent@.len() - 1) == (*old(channel))->Some_0.sent@
                    && c.sent@.last() is Stop))
                &&& ((*old(channel)) is None ==> (*final(channel)) is None)
            }),
    {
        let mut slot: Option<RecordingSession> = None;
        core::mem::swap(&mut self.session, &mut slot);
        match slot {
            Some(mut session) => {
                session.stop();
                RecordEvent::stop().send(channel);
                let transcript = self.streamer.close();
                (transcript, Some(session.into_bus()))
            },
            None => {
                self.session = None;
                (String::new(), None)
            },
        }
    }
}

proof fn lemma_first_match_props(sel: Seq<char>, devices: Seq<InputDevice>, from: int)
    requires
        0 <= from,
    ensures
        first_match(sel, devices, from) matches Some(i) ==> from <= i < devices.len()
            && selector_matches(devices[i], sel),
    decreases devices.len() - from,
{
    if from < devices.len() && !selector_matches(devices[from], sel) {
        lemma_first_match_props(sel, devices, from + 1);
    }
}

} // verus!
