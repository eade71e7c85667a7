//! The file-persistence consumer: an audio file whose header parameters
//! are fixed at creation and whose body is the exact ordered
//! concatenation of the chunks received before it is finalized. Putting
//! the bytes on disk is an I/O concern outside the library; the writer
//! here is the file's content, and finalizing yields the immutable
//! finished recording together with its completion announcement.

use vstd::prelude::*;
use crate::SampleType;
use crate::bus::AudioBus;
use crate::bus::RecvOutcome;
use crate::bus::subs_preserved_except;
use crate::text::dec_rep;
use crate::text::u128_to_dec_string;

verus! {

/// The fixed bit depth of the audio file: one byte per canonical sample.
pub const BITS_PER_SAMPLE: u16 = 8;

/// The fixed channel count of the audio file.
pub const CHANNELS: u16 = 1;

/// The completion announcement of the persistence consumer.
#[derive(Debug, Clone)]
pub enum WavEvent {
    RecordingComplete { id: String, path: String },
    RecordingError { id: String, error: String },
    NoEvent,
}

/// The single-slot "last completion" notification: holds the most recent
/// announcement, so a late listener (the stop path) still observes it.
pub struct WavEventSlot {
    last: WavEvent,
}

impl WavEventSlot {
    /// The announcement currently held.
    pub closed spec fn last_event(self) -> WavEvent {
        self.last
    }

    /// A fresh slot holding no announcement yet.
    pub fn new() -> (slot: WavEventSlot)
        ensures
            slot.last_event() is NoEvent,
    {
        WavEventSlot { last: WavEvent::NoEvent }
    }

    /// Reads the announcement currently held, leaving it in place: a
    /// late listener still sees the last completion.
    pub fn observe(&self) -> (e: WavEvent)
        ensures
            e == self.last_event(),
    {
        match &self.last {
            WavEvent::RecordingComplete { id, path } => WavEvent::RecordingComplete {
                id: id.clone(),
                path: path.clone(),
            },
            WavEvent::RecordingError { id, error } => WavEvent::RecordingError {
                id: id.clone(),
                error: error.clone(),
            },
            WavEvent::NoEvent => WavEvent::NoEvent,
        }
    }
}

/// Publishes one announcement: the slot keeps only the most recent one.
pub fn send_wav_event(slot: &mut WavEventSlot, event: WavEvent)
    ensures
        final(slot).last_event() == event,
{
    slot.last = event;
}

/// The ordered flattening of a sequence of chunks into one sample body.
pub open spec fn concat_chunks(chunks: Seq<Seq<SampleType>>) -> Seq<SampleType>
    decreases chunks.len(),
{
    if chunks.len() == 0 {
        Seq::empty()
    } else {
        concat_chunks(chunks.drop_last()) + chunks.last()
    }
}

/// Appending one chunk extends the flattened body by exactly that chunk.
pub proof fn lemma_concat_chunks_push(chunks: Seq<Seq<SampleType>>, c: Seq<SampleType>)
    ensures
        concat_chunks(chunks.push(c)) == concat_chunks(chunks) + c,
{
    assert(chunks.push(c).drop_last() =~= chunks);
    assert(chunks.push(c).last() == c);
}

/// The relative path of a recording: under `records/`, named by creation
/// timestamp and session identity.
pub open spec fn wav_relative_path(created_ms: nat, id: Seq<char>) -> Seq<char> {
    "records/"@ + dec_rep(created_ms) + "_"@ + id + ".wav"@
}

/// An audio file being written: header parameters fixed at creation, and
/// a body that grows only by appending the received chunks in order.
pub struct AudioFileWriter {
    id: String,
    path: String,
    sample_rate: u32,
    body: Vec<SampleType>,
}

/// A finished recording: immutable once finalized.
pub struct FinishedRecording {
    pub id: String,
    pub path: String,
    pub sample_rate: u32,
    pub body: Vec<SampleType>,
}

impl AudioFileWriter {
    /// The recording's identity.
    pub closed spec fn id_spec(self) -> Seq<char> {
        self.id@
    }

    /// The file's relative path.
    pub closed spec fn path_spec(self) -> Seq<char> {
        self.path@
    }

    /// The sample rate fixed in the header.
    pub closed spec fn rate_spec(self) -> u32 {
        self.sample_rate
    }

    /// The ordered sample body written so far.
    pub closed spec fn body_spec(self) -> Seq<SampleType> {
        self.body@
    }

    /// Opens the file model for one recording: empty body, header
    /// parameters fixed, path derived from creation time and identity.
    pub fn create(id: String, sample_rate: u32, created_ms: u128) -> (w: AudioFileWriter)
        ensures
            w.id_spec() == id@,
            w.rate_spec() == sample_rate,
            w.body_spec() =~= Seq::<SampleType>::empty(),
            w.path_spec() == wav_relative_path(created_ms as nat, id@),
    {
        let mut path = String::from_str("records/");
        let stamp = u128_to_dec_string(created_ms);
        path.append(stamp.as_str());
        path.append("_");
        path.append(id.as_str());
        path.append(".wav");
        AudioFileWriter { id, path, sample_rate, body: Vec::new() }
    }

    /// Appends one chunk of samples to the body, in order, changing
    /// nothing else.
    pub fn write_samples(&mut self, samples: &Vec<SampleType>)
        ensures
            final(self).body_spec() == old(self).body_spec() + samples@,
            final(self).id_spec() == old(self).id_spec(),
            final(self).path_spec() == old(self).path_spec(),
            final(self).rate_spec() == old(self).rate_spec(),
    {
        let mut i: usize = 0;
        while i < samples.len()
            invariant
                i <= samples.len(),
                self.body@ =~= old(self).body@ + samples@.subrange(0, i as int),
                self.id == old(self).id,
                self.path == old(self).path,
                self.sample_rate == old(self).sample_rate,
            decreases samples.len() - i,
        {
            self.body.push(samples[i]);
            proof {
                assert(samples@.subrange(0, i + 1) =~= samples@.subrange(0, i as int).push(
                    samples@[i as int],
                ));
            }
            i = i + 1;
        }
        proof {
            assert(self.body@ =~= old(self).body@ + samples@);
        }
    }

    /// Closes the recording: the finished file carries exactly the body
    /// received so far, and the completion announcement lands in the
    /// slot.
    pub fn finalize(self, slot: &mut WavEventSlot) -> (f: FinishedRecording)
        ensures
            f.id@ == self.id_spec(),
            f.path@ == self.path_spec(),
            f.sample_rate == self.rate_spec(),
            f.body@ == self.body_spec(),
            final(slot).last_event() matches WavEvent::RecordingComplete { id, path } && id@
                == self.id_spec() && path@ == self.path_spec(),
    {
        let AudioFileWriter { id, path, sample_rate, body } = self;
        let event_id = id.clone();
        let event_path = path.clone();
        send_wav_event(slot, WavEvent::RecordingComplete { id: event_id, path: event_path });
        FinishedRecording { id, path, sample_rate, body }
    }
}

/// What a completion listener concludes from the announcement it
/// observed before its timeout, if any.
pub enum CompletionResult {
    /// The recording completed at this path.
    Completed { id: String, path: String },
    /// The persistence consumer reported a failure.
    Failed { id: String, error: String },
    /// Nothing was announced in time, or the slot was still empty.
    NoReport,
}

/// Interprets the announcement a listener observed: a completion yields
/// the recording's identity and path, an error report yields the failure,
/// and an empty observation (timeout, or no announcement yet) yields no
/// report.
pub fn listen_for_completion(observed: Option<WavEvent>) -> (r: CompletionResult)
    ensures
        observed matches Some(WavEvent::RecordingComplete { id, path }) ==> (
        r matches CompletionResult::Completed { id: rid, path: rpath } && rid@ == id@ && rpath@
            == path@),
        observed matches Some(WavEvent::RecordingError { id, error }) ==> (
        r matches CompletionResult::Failed { id: rid, error: re } && rid@ == id@ && re@ == error@),
        (observed matches Some(e) && e is NoEvent) || observed is None ==> r is NoReport,
{
    match observed {
        Some(WavEvent::RecordingComplete { id, path }) => CompletionResult::Completed { id, path },
        Some(WavEvent::RecordingError { id, error }) => CompletionResult::Failed { id, error },
        Some(WavEvent::NoEvent) => CompletionResult::NoReport,
        None => CompletionResult::NoReport,
    }
}

/// Order preservation for the persisted body: a fully drained subscriber
/// that never lagged was handed every chunk published since it
/// subscribed, in publish order, so the flattening of what it wrote is
/// exactly the flattening of the published sequence — sample for sample,
/// no gap, no reordering.
pub proof fn lemma_order_preserving_persistence(bus: AudioBus, i: int)
    requires
        bus.wf(),
        0 <= i < bus.sub_count(),
        bus.sub_lag(i) == 0,
        bus.sub_cursor(i) == bus.published().len(),
    ensures
        concat_chunks(bus.sub_received(i)) == concat_chunks(
            bus.published().subrange(bus.sub_start(i), bus.published().len() as int),
        ),
{
    crate::bus::lemma_order_preservation(bus, i);
}

/// Drains everything currently pending on one bus subscription into the
/// file body, in publish order. Returns `true` when the producer is gone
/// and the drain is complete (the caller then finalizes), `false` when
/// the subscription is merely empty for now (a live consumer would
/// suspend and come back).
///
/// With no lag — a backlog within the bus capacity — the body grows by
/// exactly the concatenation of the pending chunks; with lag, by the
/// concatenation of the surviving window, and the loss is counted on
/// this subscription alone.
pub fn run_wav_consumer(bus: &mut AudioBus, sub: usize, writer: &mut AudioFileWriter) -> (done:
    bool)
    requires
        old(bus).wf(),
        0 <= sub < old(bus).sub_count(),
    ensures
        final(bus).wf(),
        final(bus).published() == old(bus).published(),
        final(bus).cap() == old(bus).cap(),
        final(bus).is_closed() == old(bus).is_closed(),
        final(bus).sub_count() == old(bus).sub_count(),
        subs_preserved_except(*old(bus), *final(bus), sub as int),
        final(bus).sub_start(sub as int) == old(bus).sub_start(sub as int),
        final(bus).sub_cursor(sub as int) == final(bus).published().len(),
        done == final(bus).is_closed(),
        final(writer).id_spec() == old(writer).id_spec(),
        final(writer).path_spec() == old(writer).path_spec(),
        final(writer).rate_spec() == old(writer).rate_spec(),
        ({
            let len = old(bus).published().len() as int;
            let from = if len - old(bus).sub_cursor(sub as int) <= old(bus).cap() {
                old(bus).sub_cursor(sub as int)
            } else {
                len - old(bus).cap()
            };
            &&& final(bus).sub_lag(sub as int) == old(bus).sub_lag(sub as int) + (from - old(
                bus,
            ).sub_cursor(sub as int))
            &&& final(bus).sub_received(sub as int) == old(bus).sub_received(sub as int) + old(
                bus,
            ).published().subrange(from, len)
            &&& final(writer).body_spec() == old(writer).body_spec() + concat_chunks(
                old(bus).published().subrange(from, len),
            )
        }),
{
    let ghost len = old(bus).published().len() as int;
    let ghost cursor0 = old(bus).sub_cursor(sub as int);
    let ghost from = if len - cursor0 <= old(bus).cap() {
        cursor0
    } else {
        len - old(bus).cap()
    };
    proof {
        crate::bus::lemma_lag_accounting(*old(bus), sub as int);
        if len - cursor0 <= old(bus).cap() {
            assert(old(bus).published().subrange(from, from) =~= Seq::<Seq<SampleType>>::empty());
            assert(old(bus).sub_received(sub as int) + old(bus).published().subrange(from, from)
                =~= old(bus).sub_received(sub as int));
            assert(concat_chunks(old(bus).published().subrange(from, from))
                =~= Seq::<SampleType>::empty());
            assert(old(writer).body_spec() + concat_chunks(
                old(bus).published().subrange(from, from),
            ) =~= old(writer).body_spec());
        }
    }
    let mut done = false;
    loop
        invariant_except_break
            !done,
            bus.wf(),
            0 <= sub < bus.sub_count(),
            old(bus).cap() >= 1,
            0 <= cursor0 <= len,
            0 <= from <= len,
            cursor0 <= from,
            len == old(bus).published().len(),
            cursor0 == old(bus).sub_cursor(sub as int),
            len - from <= old(bus).cap(),
            len - cursor0 > old(bus).cap() ==> from == len - old(bus).cap(),
            len - cursor0 <= old(bus).cap() ==> from == cursor0,
            bus.published() == old(bus).published(),
            bus.cap() == old(bus).cap(),
            bus.is_closed() == old(bus).is_closed(),
            bus.sub_count() == old(bus).sub_count(),
            subs_preserved_except(*old(bus), *bus, sub as int),
            bus.sub_start(sub as int) == old(bus).sub_start(sub as int),
            writer.id_spec() == old(writer).id_spec(),
            writer.path_spec() == old(writer).path_spec(),
            writer.rate_spec() == old(writer).rate_spec(),
            (bus.sub_state(sub as int) == old(bus).sub_state(sub as int) && writer.body_spec()
                == old(writer).body_spec() && len - cursor0 > bus.cap()) || (
            from <= bus.sub_cursor(sub as int) <= len && bus.sub_lag(sub as int) == old(
                bus,
            ).sub_lag(sub as int) + (from - cursor0) && bus.sub_received(sub as int) == old(
                bus,
            ).sub_received(sub as int) + old(bus).published().subrange(
                from,
                bus.sub_cursor(sub as int),
            ) && writer.body_spec() == old(writer).body_spec() + concat_chunks(
                old(bus).published().subrange(from, bus.sub_cursor(sub as int)),
            )),
        ensures
            bus.sub_cursor(sub as int) == len,
            done == bus.is_closed(),
            bus.wf(),
            bus.published() == old(bus).published(),
            bus.cap() == old(bus).cap(),
            bus.is_closed() == old(bus).is_closed(),
            bus.sub_count() == old(bus).sub_count(),
            subs_preserved_except(*old(bus), *bus, sub as int),
            bus.sub_start(sub as int) == old(bus).sub_start(sub as int),
            writer.id_spec() == old(writer).id_spec(),
            writer.path_spec() == old(writer).path_spec(),
            writer.rate_spec() == old(writer).rate_spec(),
            bus.sub_lag(sub as int) == old(bus).sub_lag(sub as int) + (from - cursor0),
            bus.sub_received(sub as int) == old(bus).sub_received(sub as int) + old(
                bus,
            ).published().subrange(from, len),
            writer.body_spec() == old(writer).body_spec() + concat_chunks(
                old(bus).published().subrange(from, len),
            ),
        decreases len - bus.sub_cursor(sub as int),
    {
        let ghost cursor_pre = bus.sub_cursor(sub as int);
        match bus.receive(sub) {
            RecvOutcome::Chunk(c) => {
                writer.write_samples(&c);
                proof {
                    assert(from <= cursor_pre < len);
                    assert(old(bus).published().subrange(from, cursor_pre + 1) =~= old(
                        bus,
                    ).published().subrange(from, cursor_pre).push(
                        old(bus).published()[cursor_pre],
                    ));
                    lemma_concat_chunks_push(
                        old(bus).published().subrange(from, cursor_pre),
                        old(bus).published()[cursor_pre],
                    );
                    assert(old(bus).sub_received(sub as int) + old(bus).published().subrange(
                        from,
                        cursor_pre,
                    ).push(old(bus).published()[cursor_pre]) =~= old(bus).sub_received(sub as int)
                        + old(bus).published().subrange(from, cursor_pre + 1));
                }
            },
            RecvOutcome::Lagged(_) => {
                proof {
                    assert(len - cursor_pre > old(bus).cap());
                    assert(cursor_pre == cursor0);
                    assert(from == len - old(bus).cap());
                    assert(bus.sub_cursor(sub as int) == from);
                    assert(old(bus).published().subrange(from, from)
                        =~= Seq::<Seq<SampleType>>::empty());
                    assert(old(bus).sub_received(sub as int) + old(bus).published().subrange(
                        from,
                        from,
                    ) =~= old(bus).sub_received(sub as int));
                }
            },
            RecvOutcome::Pending => {
                break ;
            },
            RecvOutcome::Closed => {
                done = true;
                break ;
            },
        }
    }
    proof {
        assert(old(bus).published().subrange(from, len) == old(bus).published().subrange(
            from,
            bus.sub_cursor(sub as int),
        ));
    }
    done
}

} // verus!
