//! The transcription streamer: the state machine of the persistent
//! connection to the remote speech-to-text service, and the transcript it
//! accumulates line by line. The connection itself is a byte stream the
//! surrounding process opens, reads and writes; every decision — what may
//! be sent, what the transcript holds, how failures change the state —
//! is made here.
//!
//! Transcription is best-effort: none of these transitions is allowed to
//! stop audio capture or file persistence.

use vstd::prelude::*;
use crate::SampleType;
use crate::errors::ErrorCode;
use crate::errors::ErrorEmitter;
use crate::errors::spec_code_value;
use crate::events::Message;
use crate::samples::chunk_bytes;
use crate::samples::samples_to_bytes;
use crate::text::dec_rep;
use crate::text::u64_to_dec_string;

verus! {

/// The default port of the transcription service.
pub const DEFAULT_PORT: u16 = 43001;

/// The lifecycle of the streamer's connection. `Closing` is the phase
/// between a close request and the teardown of the reader; this engine
/// tears down synchronously inside `close`, so a caller observes it only
/// while a close is in progress.
#[derive(Debug, Clone, Copy, PartialEq, Eq, Structural)]
pub enum StreamerState {
    Disconnected,
    Connecting,
    Connected,
    Closing,
}

/// Why a chunk could not be handed to the wire.
#[derive(Debug, Clone, Copy, PartialEq, Eq, Structural)]
pub enum SendError {
    /// Debug validation rejected an empty chunk.
    EmptyChunk,
    /// The streamer is not connected; callers must treat this as
    /// non-fatal to the recording pipeline.
    NotConnected,
}

/// The streamer: connection state, the transcript accumulated from the
/// service's newline-terminated fragments, and the debug switch.
pub struct WhisperStreamer {
    state: StreamerState,
    transcript: String,
    debug: bool,
}

impl WhisperStreamer {
    /// The connection state.
    pub closed spec fn state_spec(self) -> StreamerState {
        self.state
    }

    /// The transcript accumulated on the current connection.
    pub closed spec fn transcript_spec(self) -> Seq<char> {
        self.transcript@
    }

    /// Whether debug validation of outgoing audio is on.
    pub closed spec fn debug_spec(self) -> bool {
        self.debug
    }

    /// A streamer that has never connected: no transcript, no debugging.
    pub fn new() -> (s: WhisperStreamer)
        ensures
            s.state_spec() is Disconnected,
            s.transcript_spec() =~= Seq::<char>::empty(),
            !s.debug_spec(),
    {
        WhisperStreamer { state: StreamerState::Disconnected, transcript: String::new(), debug: false }
    }

    /// Begins a connection attempt: the streamer moves to `Connecting`
    /// and forgets any earlier transcript; the caller opens the byte
    /// stream and reports back through `on_connect_result`. Recording
    /// continues whatever happens here.
    pub fn initialize(&mut self)
        ensures
            final(self).state_spec() is Connecting,
            final(self).transcript_spec() =~= Seq::<char>::empty(),
            final(self).debug_spec() == old(self).debug_spec(),
    {
        self.state = StreamerState::Connecting;
        self.transcript = String::new();
    }

    /// Records the outcome of the connection attempt. Success makes the
    /// streamer `Connected` with a cleared transcript; failure leaves it
    /// `Disconnected` and appends exactly one `ConnectionError` report to
    /// the log — and nothing stops.
    pub fn on_connect_result(&mut self, ok: bool, now_ms: u128, log: &mut Vec<Message>)
        requires
            old(self).state_spec() is Connecting,
        ensures
            final(self).debug_spec() == old(self).debug_spec(),
            final(self).transcript_spec() =~= Seq::<char>::empty(),
            ok ==> final(self).state_spec() is Connected && final(log)@ == old(log)@,
            !ok ==> final(self).state_spec() is Disconnected && final(log)@.len() == old(log)@.len()
                + 1 && final(log)@.subrange(0, old(log)@.len() as int) == old(log)@ && (
            final(log)@.last() matches Message::Error { code, timestamp, .. } && code
                == spec_code_value(ErrorCode::ConnectionError) && timestamp == now_ms),
    {
        self.transcript = String::new();
        if ok {
            self.state = StreamerState::Connected;
        } else {
            self.state = StreamerState::Disconnected;
            ErrorEmitter::emit_error(
                ErrorCode::ConnectionError,
                String::from_str("failed to connect to the transcription service"),
                now_ms,
                log,
            );
            proof {
                assert(log@.subrange(0, old(log)@.len() as int) =~= old(log)@);
            }
        }
    }

    /// Appends one newline-terminated fragment read from the service to
    /// the transcript. Fragments arriving while no connection is open are
    /// dropped.
    pub fn on_line(&mut self, line: &str)
        ensures
            final(self).state_spec() == old(self).state_spec(),
            final(self).debug_spec() == old(self).debug_spec(),
            old(self).state_spec() is Connected ==> final(self).transcript_spec() == old(
                self,
            ).transcript_spec() + line@ + "\n"@,
            !(old(self).state_spec() is Connected) ==> final(self).transcript_spec() == old(
                self,
            ).transcript_spec(),
    {
        if matches!(self.state, StreamerState::Connected) {
            self.transcript.append(line);
            self.transcript.append("\n");
        }
    }

    /// Turns debug validation of outgoing audio on or off.
    pub fn set_debug(&mut self, enable: bool)
        ensures
            final(self).debug_spec() == enable,
            final(self).state_spec() == old(self).state_spec(),
            final(self).transcript_spec() == old(self).transcript_spec(),
    {
        self.debug = enable;
    }

    /// Serializes one chunk for the wire: while connected, the raw sample
    /// bytes, verbatim and unframed, ready to be written to the stream.
    /// Fails with `NotConnected` in every other state, and with
    /// `EmptyChunk` when debug validation sees an empty chunk; both are
    /// non-fatal to the recording pipeline.
    pub fn send_audio(&self, samples: &Vec<SampleType>) -> (r: Result<Vec<u8>, SendError>)
        ensures
            self.debug_spec() && samples@.len() == 0 <==> r == Err::<Vec<u8>, SendError>(
                SendError::EmptyChunk,
            ),
            r == Err::<Vec<u8>, SendError>(SendError::NotConnected) <==> !(self.state_spec()
                is Connected) && !(self.debug_spec() && samples@.len() == 0),
            r matches Ok(bytes) ==> self.state_spec() is Connected && bytes@ == chunk_bytes(
                samples@,
            ),
            self.state_spec() is Connected && !(self.debug_spec() && samples@.len() == 0) ==> r
                is Ok,
    {
        if self.debug && samples.len() == 0 {
            Err(SendError::EmptyChunk)
        } else if matches!(self.state, StreamerState::Connected) {
            Ok(samples_to_bytes(samples))
        } else {
            Err(SendError::NotConnected)
        }
    }

    /// Records a failed write on the open stream: the connection is
    /// considered gone, exactly one `WriteError` report joins the log,
    /// and the transcript gathered so far is kept for `close`.
    pub fn on_write_error(&mut self, now_ms: u128, log: &mut Vec<Message>)
        ensures
            final(self).state_spec() is Disconnected,
            final(self).transcript_spec() == old(self).transcript_spec(),
            final(self).debug_spec() == old(self).debug_spec(),
            final(log)@.len() == old(log)@.len() + 1,
            final(log)@.subrange(0, old(log)@.len() as int) == old(log)@,
            final(log)@.last() matches Message::Error { code, timestamp, .. } && code
                == spec_code_value(ErrorCode::WriteError) && timestamp == now_ms,
    {
        self.state = StreamerState::Disconnected;
        ErrorEmitter::emit_error(
            ErrorCode::WriteError,
            String::from_str("failed to send audio data"),
            now_ms,
            log,
        );
        proof {
            assert(log@.subrange(0, old(log)@.len() as int) =~= old(log)@);
        }
    }

    /// Records a failed read from the service: the connection is
    /// considered gone and exactly one `ReadError` report joins the log;
    /// the transcript gathered so far is kept for `close`.
    pub fn on_read_error(&mut self, now_ms: u128, log: &mut Vec<Message>)
        ensures
            final(self).state_spec() is Disconnected,
            final(self).transcript_spec() == old(self).transcript_spec(),
            final(self).debug_spec() == old(self).debug_spec(),
            final(log)@.len() == old(log)@.len() + 1,
            final(log)@.subrange(0, old(log)@.len() as int) == old(log)@,
            final(log)@.last() matches Message::Error { code, timestamp, .. } && code
                == spec_code_value(ErrorCode::ReadError) && timestamp == now_ms,
    {
        self.state = StreamerState::Disconnected;
        ErrorEmitter::emit_error(
            ErrorCode::ReadError,
            String::from_str("error reading from the transcription service"),
            now_ms,
            log,
        );
        proof {
            assert(log@.subrange(0, old(log)@.len() as int) =~= old(log)@);
        }
    }

    /// Closes the connection and returns the accumulated transcript,
    /// clearing it in the same step: the text comes out exactly once.
    /// Safe to call in any state; a streamer that never connected yields
    /// the empty string.
    pub fn close(&mut self) -> (t: String)
        ensures
            t@ == old(self).transcript_spec(),
            final(self).transcript_spec() =~= Seq::<char>::empty(),
            final(self).state_spec() is Disconnected,
            final(self).debug_spec() == old(self).debug_spec(),
    {
        self.state = StreamerState::Closing;
        let taken = self.transcript.clone();
        self.transcript = String::new();
        self.state = StreamerState::Disconnected;
        taken
    }

    /// Whether the streamer currently holds an open connection.
    pub fn is_connected(&self) -> (r: bool)
        ensures
            r == (self.state_spec() is Connected),
    {
        matches!(self.state, StreamerState::Connected)
    }

    /// The `host:port` endpoint string of the transcription service.
    pub fn get_connection_string(host: &str, port: u16) -> (s: String)
        ensures
            s@ == host@ + ":"@ + dec_rep(port as nat),
    {
        let mut s = String::from_str(host);
        s.append(":");
        let digits = u64_to_dec_string(port as u64);
        s.append(digits.as_str());
        s
    }
}

/// The numeric value of one decimal digit character.
pub open spec fn digit_value(c: char) -> int {
    c as u32 - 48
}

/// Whether every character of a string is a decimal digit (code points
/// 48 through 57).
pub open spec fn all_digits(s: Seq<char>) -> bool {
    forall|i: int| 0 <= i < s.len() ==> 48 <= (#[trigger] s[i]) as u32 <= 57
}

/// The numeric value of a string of decimal digits.
pub open spec fn dec_value(s: Seq<char>) -> int
    decreases s.len(),
{
    if s.len() == 0 {
        0
    } else {
        dec_value(s.drop_last()) * 10 + digit_value(s.last())
    }
}

/// The port to use given the configured value, if any: a non-empty
/// all-digit value that fits a port number is taken as written; anything
/// else — nothing configured, stray characters, or a value past 65535 —
/// falls back to the default port.
pub fn effective_port(configured: Option<&str>) -> (p: u16)
    ensures
        ({
            match configured {
                Some(s) => {
                    if s@.len() > 0 && all_digits(s@) && dec_value(s@) <= u16::MAX {
                        p == dec_value(s@)
                    } else {
                        p == DEFAULT_PORT
                    }
                },
                None => p == DEFAULT_PORT,
            }
        }),
{
    match configured {
        Some(s) => {
            let n = s.unicode_len();
            if n == 0 {
                return DEFAULT_PORT;
            }
            let mut val: u32 = 0;
            let mut i: usize = 0;
            while i < n
                invariant
                    configured == Some(s),
                    i <= n,
                    n == s@.len(),
                    all_digits(s@.subrange(0, i as int)),
                    dec_value(s@.subrange(0, i as int)) <= 99999 ==> val == dec_value(
                        s@.subrange(0, i as int),
                    ),
                    dec_value(s@.subrange(0, i as int)) > 99999 ==> val == 100000,
                    val <= 100000,
                decreases n - i,
            {
                let c = s.get_char(i);
                let cu = c as u32;
                if cu < 48 || cu > 57 {
                    proof {
                        assert(s@[i as int] as u32 == cu);
                        assert(!all_digits(s@));
                    }
                    return DEFAULT_PORT;
                }
                let d: u32 = cu - 48;
                let next: u32 = if val * 10 + d > 99999 {
                    100000
                } else {
                    val * 10 + d
                };
                proof {
                    assert(s@.subrange(0, i + 1).drop_last() =~= s@.subrange(0, i as int));
                    assert(s@.subrange(0, i + 1).last() == s@[i as int]);
                }
                val = next;
                i = i + 1;
            }
            proof {
                assert(s@.subrange(0, n as int) =~= s@);
            }
            if val <= u16::MAX as u32 {
                val as u16
            } else {
                DEFAULT_PORT
            }
        },
        None => DEFAULT_PORT,
    }
}

} // verus!
