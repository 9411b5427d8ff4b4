//! The streaming buffer of a recording and its adaptive window: live audio
//! piles up, and now and then a window of it is handed out for a partial
//! transcription, sized so that transcribing stays fast.

use crate::buffers::{copy_range, extend_copy};
use vstd::prelude::*;

verus! {

/// The least time between two partial transcriptions, in milliseconds.
pub const PARTIAL_INTERVAL_MS: u64 = 500;

/// The least audio worth a partial transcription: one second.
pub const MIN_PARTIAL_SAMPLES: usize = 16000;

/// The smallest window that the adaptive limit shrinks to: five seconds.
pub const MIN_STREAMING_SAMPLES: usize = 80000;

/// The time a partial transcription may take before the window is tightened,
/// in milliseconds.
pub const TARGET_TRANSCRIPTION_MS: u64 = 800;

/// `a` is no looser a limit than `b`: no limit at all is the loosest.
pub open spec fn limit_le(a: Option<usize>, b: Option<usize>) -> bool {
    match (a, b) {
        (_, None) => true,
        (None, Some(_)) => false,
        (Some(x), Some(y)) => x <= y,
    }
}

/// The larger of two numbers.
pub open spec fn max_int(a: int, b: int) -> int {
    if a >= b {
        a
    } else {
        b
    }
}

/// The limit after a partial transcription of `samples` samples that took
/// `elapsed_ms`. Within the target time nothing changes. Beyond it, the first
/// time sets the limit to the number of samples; each further time takes a
/// tenth off; in both cases not below the smallest window.
pub open spec fn adapted_limit(limit: Option<usize>, samples: usize, elapsed_ms: u64) -> Option<
    usize,
> {
    if elapsed_ms <= TARGET_TRANSCRIPTION_MS {
        limit
    } else {
        match limit {
            None => Some(max_int(samples as int, MIN_STREAMING_SAMPLES as int) as usize),
            Some(current) => {
                let reduced = max_int((current * 9) / 10, MIN_STREAMING_SAMPLES as int);
                if reduced < current {
                    Some(reduced as usize)
                } else {
                    Some(current)
                }
            },
        }
    }
}

/// The adaptive limit only ever tightens: whatever was measured, the limit
/// after it is no looser than the limit before. A limit that is set does not
/// fall below the smallest window unless it was below it already.
pub proof fn law_adaptive_limit_non_increasing(limit: Option<usize>, samples: usize, elapsed_ms: u64)
    ensures
        limit_le(adapted_limit(limit, samples, elapsed_ms), limit),
        limit is None ==> (adapted_limit(limit, samples, elapsed_ms) matches Some(l) ==> l
            >= MIN_STREAMING_SAMPLES),
        limit matches Some(c) ==> (adapted_limit(limit, samples, elapsed_ms) matches Some(l) && (l
            == c || l >= MIN_STREAMING_SAMPLES)),
{
}

/// A chain of measurements never loosens the limit.
pub open spec fn limit_after(limit: Option<usize>, measurements: Seq<(usize, u64)>) -> Option<
    usize,
>
    decreases measurements.len(),
{
    if measurements.len() == 0 {
        limit
    } else {
        adapted_limit(
            limit_after(limit, measurements.drop_last()),
            measurements.last().0,
            measurements.last().1,
        )
    }
}

/// Within one session the limit is monotonically non-increasing: after any
/// number of measurements, and any further ones, it is no looser than it was
/// in between.
pub proof fn law_limit_monotone_over_session(
    limit: Option<usize>,
    earlier: Seq<(usize, u64)>,
    later: Seq<(usize, u64)>,
)
    ensures
        limit_le(limit_after(limit, earlier + later), limit_after(limit, earlier)),
    decreases later.len(),
{
    if later.len() == 0 {
        assert(earlier + later =~= earlier);
        let l = limit_after(limit, earlier);
        assert(limit_le(l, l));
    } else {
        let all = earlier + later;
        assert(all.drop_last() =~= earlier + later.drop_last());
        assert(all.last() == later.last());
        law_limit_monotone_over_session(limit, earlier, later.drop_last());
        law_adaptive_limit_non_increasing(
            limit_after(limit, all.drop_last()),
            later.last().0,
            later.last().1,
        );
    }
}

/// The streaming state of the current recording. `T` is the sample type.
pub struct StreamingState<T> {
    /// The audio of the session so far.
    pub buffer: Vec<T>,
    /// When a partial transcription was last considered, in milliseconds of
    /// a clock that does not go back.
    pub last_partial_update: u64,
    /// Whether a partial transcription is running.
    pub in_progress: bool,
    /// The most samples handed out for a partial transcription; `None` for
    /// no limit.
    pub adaptive_max_samples: Option<usize>,
}

/// The window that is transcribed: the whole buffer, or its last `max`
/// samples where a limit is set and the buffer is longer.
pub open spec fn window_of<T>(buffer: Seq<T>, limit: Option<usize>) -> Seq<T> {
    match limit {
        Some(max) if buffer.len() > max => buffer.subrange(buffer.len() - max, buffer.len() as int),
        _ => buffer,
    }
}

impl<T: Copy> StreamingState<T> {
    /// A state with nothing recorded, as of `now`.
    pub fn new(now: u64) -> (r: Self)
        ensures
            r.buffer@.len() == 0,
            r.last_partial_update == now,
            !r.in_progress,
            r.adaptive_max_samples is None,
    {
        StreamingState {
            buffer: Vec::new(),
            last_partial_update: now,
            in_progress: false,
            adaptive_max_samples: None,
        }
    }

    /// Starts a new session at `now`: the buffer is emptied and the limit is
    /// lifted.
    pub fn start_streaming(&mut self, now: u64)
        ensures
            final(self).buffer@.len() == 0,
            final(self).last_partial_update == now,
            final(self).adaptive_max_samples is None,
            final(self).in_progress == old(self).in_progress,
    {
        self.buffer.clear();
        self.last_partial_update = now;
        self.adaptive_max_samples = None;
    }

    /// Whether a chunk that arrives at `now` is the occasion for a partial
    /// transcription: more than the interval has passed since the last
    /// occasion, at least a second of audio is there, and none is running.
    pub open spec fn partial_due(&self, chunk_len: nat, now: u64) -> bool {
        &&& now > self.last_partial_update && now - self.last_partial_update
            > PARTIAL_INTERVAL_MS
        &&& self.buffer@.len() + chunk_len >= MIN_PARTIAL_SAMPLES
        &&& !self.in_progress
    }

    /// Takes in a chunk of live audio at `now`. The chunk is appended in
    /// every case. Where a partial transcription is due, the window to
    /// transcribe is handed out and one counts as running until
    /// `finish_partial` is called; an occasion that comes while one is
    /// running is dropped, not queued. The limit is not touched.
    pub fn handle_streaming_chunk(&mut self, chunk: &Vec<T>, now: u64) -> (r: Option<Vec<T>>)
        ensures
            final(self).buffer@ == old(self).buffer@ + chunk@,
            final(self).adaptive_max_samples == old(self).adaptive_max_samples,
            final(self).last_partial_update == if now > old(self).last_partial_update && now
                - old(self).last_partial_update > PARTIAL_INTERVAL_MS {
                now
            } else {
                old(self).last_partial_update
            },
            match r {
                Some(window) => old(self).partial_due(chunk@.len(), now)
                    && final(self).in_progress
                    && window@ == window_of(
                    final(self).buffer@,
                    old(self).adaptive_max_samples,
                ),
                None => !old(self).partial_due(chunk@.len(), now) && final(self).in_progress
                    == old(self).in_progress,
            },
    {
        extend_copy(&mut self.buffer, chunk);
        let elapsed: u64 = if now > self.last_partial_update {
            now - self.last_partial_update
        } else {
            0
        };
        if elapsed <= PARTIAL_INTERVAL_MS {
            return None;
        }
        self.last_partial_update = now;
        let len = self.buffer.len();
        if len < MIN_PARTIAL_SAMPLES {
            return None;
        }
        if self.in_progress {
            return None;
        }
        self.in_progress = true;
        let start: usize = match self.adaptive_max_samples {
            Some(max) => if len > max {
                len - max
            } else {
                0
            },
            None => 0,
        };
        let window = copy_range(&self.buffer, start, len);
        assert(self.buffer@.subrange(0, len as int) =~= self.buffer@);
        Some(window)
    }

    /// Ends the running partial transcription. `measured` is, where the
    /// transcription gave a text, the number of samples it was given and the
    /// milliseconds it took; the limit adapts to it. A failed transcription
    /// changes nothing but that none is running any more.
    pub fn finish_partial(&mut self, measured: Option<(usize, u64)>)
        ensures
            !final(self).in_progress,
            final(self).buffer@ == old(self).buffer@,
            final(self).last_partial_update == old(self).last_partial_update,
            final(self).adaptive_max_samples == match measured {
                Some((samples, elapsed_ms)) => adapted_limit(
                    old(self).adaptive_max_samples,
                    samples,
                    elapsed_ms,
                ),
                None => old(self).adaptive_max_samples,
            },
            limit_le(final(self).adaptive_max_samples, old(self).adaptive_max_samples),
    {
        match measured {
            Some((samples, elapsed_ms)) => {
                if elapsed_ms > TARGET_TRANSCRIPTION_MS {
                    match self.adaptive_max_samples {
                        None => {
                            let new_limit = if samples >= MIN_STREAMING_SAMPLES {
                                samples
                            } else {
                                MIN_STREAMING_SAMPLES
                            };
                            self.adaptive_max_samples = Some(new_limit);
                        },
                        Some(current) => {
                            let reduced: usize = (current / 10) * 9 + ((current % 10) * 9) / 10;
                            assert(reduced == (current * 9) / 10) by (nonlinear_arith)
                                requires
                                    reduced == (current / 10) * 9 + ((current % 10) * 9) / 10,
                                    current >= 0,
                            ;
                            let new_limit = if reduced >= MIN_STREAMING_SAMPLES {
                                reduced
                            } else {
                                MIN_STREAMING_SAMPLES
                            };
                            if new_limit < current {
                                self.adaptive_max_samples = Some(new_limit);
                            }
                        },
                    }
                }
            },
            None => {},
        }
        self.in_progress = false;
    }
}

} // verus!
