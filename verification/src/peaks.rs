//! The level-meter consumer: a rectified peak per chunk, and a throttle
//! that coalesces peaks so progress notifications never exceed one per
//! throttle interval.

use vstd::prelude::*;
use crate::SampleType;

verus! {

/// The default throttle interval between progress notifications, in
/// milliseconds.
pub const THROTTLE_MS: u64 = 10;

/// The magnitude of one signed sample.
pub open spec fn sample_magnitude(s: SampleType) -> int {
    if s >= 0 {
        s as int
    } else {
        -(s as int)
    }
}

/// The largest sample magnitude in a chunk, unclamped; zero for an empty
/// chunk.
pub open spec fn raw_peak(s: Seq<SampleType>) -> int
    decreases s.len(),
{
    if s.len() == 0 {
        0
    } else if raw_peak(s.drop_last()) >= sample_magnitude(s.last()) {
        raw_peak(s.drop_last())
    } else {
        sample_magnitude(s.last())
    }
}

/// The signed peak of a chunk: the largest magnitude of any sample,
/// clamped to the canonical sample range (the magnitude of the most
/// negative sample exceeds it by one).
pub open spec fn peak_of(s: Seq<SampleType>) -> int {
    if raw_peak(s) <= SampleType::MAX as int {
        raw_peak(s)
    } else {
        SampleType::MAX as int
    }
}

/// The rectified peak of one chunk: the maximum over the positive
/// excursions and the negated negative excursions, clamped to the
/// canonical sample range. Zero for an empty chunk.
pub fn chunk_peak(samples: &Vec<SampleType>) -> (p: SampleType)
    ensures
        p == peak_of(samples@),
        0 <= p,
{
    let mut p: SampleType = 0;
    let mut i: usize = 0;
    while i < samples.len()
        invariant
            i <= samples.len(),
            0 <= p,
            p as int == peak_of(samples@.subrange(0, i as int)),
        decreases samples.len() - i,
    {
        let s = samples[i];
        let mag: SampleType = if s >= 0 {
            s
        } else if s == SampleType::MIN {
            SampleType::MAX
        } else {
            -s
        };
        if mag > p {
            p = mag;
        }
        proof {
            assert(samples@.subrange(0, i + 1).drop_last() =~= samples@.subrange(0, i as int));
            assert(samples@.subrange(0, i + 1).last() == samples@[i as int]);
        }
        i = i + 1;
    }
    proof {
        assert(samples@.subrange(0, samples@.len() as int) =~= samples@);
    }
    p
}

/// Whether a meter whose last notification went out at `last` emits again
/// at time `now`, with `interval` milliseconds of throttle.
pub open spec fn meter_emits(last: u64, interval: u64, now: u64) -> bool {
    last + interval <= now
}

/// The level meter: computes a peak for every chunk, but lets a
/// notification out at most once per throttle interval; peaks arriving
/// within one window are coalesced, and only the latest is reported.
pub struct Meter {
    interval_ms: u64,
    last_emit_ms: u64,
}

impl Meter {
    /// The throttle interval, in milliseconds.
    pub closed spec fn interval(self) -> u64 {
        self.interval_ms
    }

    /// When the meter last let a notification out (or the meter's start
    /// time, before the first one).
    pub closed spec fn last_emit(self) -> u64 {
        self.last_emit_ms
    }

    /// A fresh meter: the first notification goes out no earlier than one
    /// interval after `now_ms`.
    pub fn new(interval_ms: u64, now_ms: u64) -> (m: Meter)
        ensures
            m.interval() == interval_ms,
            m.last_emit() == now_ms,
    {
        Meter { interval_ms, last_emit_ms: now_ms }
    }

    /// Handles one chunk at time `now_ms`: computes its peak, and hands it
    /// out only if a full throttle interval has passed since the last
    /// notification; otherwise the chunk's peak is coalesced away.
    pub fn on_chunk(&mut self, samples: &Vec<SampleType>, now_ms: u64) -> (r: Option<SampleType>)
        ensures
            final(self).interval() == old(self).interval(),
            r is Some <==> meter_emits(old(self).last_emit(), old(self).interval(), now_ms),
            r matches Some(p) ==> p == peak_of(samples@) && final(self).last_emit() == now_ms,
            r is None ==> final(self).last_emit() == old(self).last_emit(),
    {
        if now_ms >= self.last_emit_ms && now_ms - self.last_emit_ms >= self.interval_ms {
            self.last_emit_ms = now_ms;
            Some(chunk_peak(samples))
        } else {
            None
        }
    }
}

/// The times at which a meter in state `last` lets notifications out,
/// given chunks arriving at `times`: one step of the recursion is exactly
/// one `Meter::on_chunk` call.
pub open spec fn emission_times(last: u64, interval: u64, times: Seq<u64>) -> Seq<u64>
    decreases times.len(),
{
    if times.len() == 0 {
        Seq::empty()
    } else if meter_emits(last, interval, times.first()) {
        seq![times.first()] + emission_times(times.first(), interval, times.drop_first())
    } else {
        emission_times(last, interval, times.drop_first())
    }
}

/// Consecutive emissions are at least one interval apart, and the first
/// comes at least one interval after `lower`.
pub open spec fn spaced(e: Seq<u64>, lower: int, interval: u64) -> bool
    decreases e.len(),
{
    if e.len() == 0 {
        true
    } else {
        e.first() >= lower + interval && spaced(e.drop_first(), e.first() as int, interval)
    }
}

/// Emissions are throttled one by one: every notification comes at least
/// one full interval after the previous one, and the first at least one
/// interval after the meter's starting point.
pub proof fn lemma_emissions_spaced(last: u64, interval: u64, times: Seq<u64>)
    ensures
        spaced(emission_times(last, interval, times), last as int, interval),
    decreases times.len(),
{
    if times.len() == 0 {
    } else {
        let t0 = times.first();
        let tail = times.drop_first();
        if meter_emits(last, interval, t0) {
            let rest = emission_times(t0, interval, tail);
            lemma_emissions_spaced(t0, interval, tail);
            let e = emission_times(last, interval, times);
            assert(e == seq![t0] + rest);
            assert(e.first() == t0);
            assert(e.drop_first() =~= rest);
        } else {
            lemma_emissions_spaced(last, interval, tail);
        }
    }
}

/// Every emission happens at the arrival time of some chunk: emissions
/// stay inside any window the arrivals stay inside.
proof fn lemma_emissions_within(last: u64, interval: u64, times: Seq<u64>, lo: int, hi: int)
    requires
        forall|k: int| 0 <= k < times.len() ==> lo <= #[trigger] times[k] < hi,
    ensures
        forall|k: int|
            0 <= k < emission_times(last, interval, times).len() ==> lo
                <= #[trigger] emission_times(last, interval, times)[k] < hi,
    decreases times.len(),
{
    if times.len() == 0 {
    } else {
        let t0 = times.first();
        let tail = times.drop_first();
        assert(forall|k: int| 0 <= k < tail.len() ==> lo <= #[trigger] tail[k] < hi);
        let e = emission_times(last, interval, times);
        if meter_emits(last, interval, t0) {
            let rest = emission_times(t0, interval, tail);
            lemma_emissions_within(t0, interval, tail, lo, hi);
            assert(e == seq![t0] + rest);
            assert forall|k: int| 0 <= k < e.len() implies lo <= #[trigger] e[k] < hi by {
                if k > 0 {
                    assert(e[k] == rest[k - 1]);
                }
            }
        } else {
            lemma_emissions_within(last, interval, tail, lo, hi);
            assert(e == emission_times(last, interval, tail));
        }
    }
}

/// In a spaced sequence, the entry at position `k` lies at least `k`
/// intervals past the first entry.
proof fn lemma_spaced_growth(e: Seq<u64>, lower: int, interval: u64, k: int)
    requires
        spaced(e, lower, interval),
        0 <= k < e.len(),
    ensures
        e[k] >= e[0] + k * interval,
    decreases k,
{
    if k == 0 {
        assert(k * interval == 0) by (nonlinear_arith)
            requires
                k == 0,
        ;
    } else {
        let rest = e.drop_first();
        assert(spaced(rest, e.first() as int, interval));
        lemma_spaced_growth(rest, e.first() as int, interval, k - 1);
        assert(rest[k - 1] == e[k]);
        assert(rest[0] == e[1]);
        assert(rest.len() >= 1);
        assert(rest.first() >= e.first() + interval);
        assert(e[k] >= e[1] + (k - 1) * interval);
        assert(e[1] + (k - 1) * interval >= e[0] + interval + (k - 1) * interval);
        assert(interval + (k - 1) * interval == k * interval) by (nonlinear_arith);
        assert(e[k] >= e[0] + k * interval);
    }
}

/// The throttled meter law: however fast chunks arrive, inside any window
/// of `window` milliseconds the meter lets out at most
/// `(window - 1) / interval + 1` notifications.
pub proof fn lemma_meter_throttle(last: u64, interval: u64, times: Seq<u64>, lo: int, window: int)
    requires
        interval >= 1,
        window >= 1,
        forall|k: int| 0 <= k < times.len() ==> lo <= #[trigger] times[k] < lo + window,
    ensures
        emission_times(last, interval, times).len() <= (window - 1) / (interval as int) + 1,
{
    let e = emission_times(last, interval, times);
    if e.len() >= 1 {
        lemma_emissions_spaced(last, interval, times);
        lemma_emissions_within(last, interval, times, lo, lo + window);
        let n = e.len() as int;
        lemma_spaced_growth(e, last as int, interval, n - 1);
        assert(e[n - 1] >= e[0] + (n - 1) * interval);
        assert(lo <= e[0]);
        assert(e[n - 1] < lo + window);
        assert((n - 1) * interval < window);
        assert(n - 1 <= (window - 1) / (interval as int)) by (nonlinear_arith)
            requires
                interval >= 1,
                window >= 1,
                (n - 1) * interval < window,
                n >= 1,
        ;
    }
}

/// With the default 10 ms interval, no second of wall-clock time sees
/// more than 100 progress notifications: 1000 divided by the interval.
pub proof fn lemma_meter_per_second(last: u64, times: Seq<u64>, lo: int)
    requires
        forall|k: int| 0 <= k < times.len() ==> lo <= #[trigger] times[k] < lo + 1000,
    ensures
        emission_times(last, THROTTLE_MS, times).len() <= 1000int / (THROTTLE_MS as int),
{
    lemma_meter_throttle(last, THROTTLE_MS, times, lo, 1000);
}

} // verus!
