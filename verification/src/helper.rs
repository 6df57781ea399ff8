use vstd::prelude::*;

use crate::text::{format_padded, spec_padded};

verus! {

/// How long a recorded transfer sample stays relevant, in milliseconds.
pub open spec fn sample_window_ms() -> int {
    10000
}

/// Transfer progress for one long-running download or upload. Time is handed
/// in by the caller as milliseconds on a monotonic clock; every computation
/// on it is then exact.
pub struct ProgressStats {
    pub total_length: Option<usize>,
    pub progressed_size: usize,
    pub finished: bool,
    pub start_time_ms: u64,
    pub time_series: Vec<(u64, usize)>,
}

/// Total bytes over a sample sequence.
pub open spec fn sum_deltas(s: Seq<(u64, usize)>) -> int
    decreases s.len(),
{
    if s.len() == 0 {
        0
    } else {
        sum_deltas(s.drop_last()) + s.last().1
    }
}

/// Samples sorted by time, none earlier than `start`.
pub open spec fn samples_ordered(s: Seq<(u64, usize)>, start: u64) -> bool {
    &&& forall|i: int, j: int| 0 <= i <= j < s.len() ==> s[i].0 <= s[j].0
    &&& forall|i: int| 0 <= i < s.len() ==> start <= #[trigger] s[i].0
}

/// Drops leading samples that lie more than the sample window before `now`.
pub open spec fn evict_older(s: Seq<(u64, usize)>, now: u64) -> Seq<(u64, usize)>
    decreases s.len(),
{
    if s.len() == 0 {
        s
    } else if now - s[0].0 > sample_window_ms() {
        evict_older(s.drop_first(), now)
    } else {
        s
    }
}

proof fn lemma_sum_drop_first(s: Seq<(u64, usize)>)
    requires
        s.len() > 0,
    ensures
        sum_deltas(s) == s[0].1 + sum_deltas(s.drop_first()),
    decreases s.len(),
{
    if s.len() == 1 {
        assert(s.drop_first() =~= Seq::empty());
        assert(s.drop_last() =~= Seq::empty());
    } else {
        lemma_sum_drop_first(s.drop_last());
        assert(s.drop_last().drop_first() =~= s.drop_first().drop_last());
        assert(s.drop_first().last() == s.last());
    }
}

/// After eviction the survivors are a suffix of the original samples, every
/// dropped sample was stale, and — for sorted samples — every survivor lies
/// within the sample window of `now`.
pub proof fn lemma_evict_older_spec(s: Seq<(u64, usize)>, now: u64)
    requires
        forall|i: int, j: int| 0 <= i <= j < s.len() ==> s[i].0 <= s[j].0,
    ensures
        exists|k: int|
            0 <= k <= s.len() && evict_older(s, now) == s.skip(k) && (forall|j: int|
                0 <= j < k ==> now - #[trigger] s[j].0 > sample_window_ms()),
        forall|i: int|
            0 <= i < evict_older(s, now).len() ==> now - #[trigger] evict_older(s, now)[i].0
                <= sample_window_ms(),
    decreases s.len(),
{
    if s.len() == 0 {
        assert(evict_older(s, now) == s.skip(0));
    } else if now - s[0].0 > sample_window_ms() {
        assert(s.drop_first() =~= s.skip(1));
        lemma_evict_older_spec(s.skip(1), now);
        let k0 = choose|k0: int|
            0 <= k0 <= s.skip(1).len() && evict_older(s.skip(1), now) == s.skip(1).skip(k0) && (
            forall|j: int| 0 <= j < k0 ==> now - #[trigger] s.skip(1)[j].0 > sample_window_ms());
        assert(s.skip(1).skip(k0) =~= s.skip(k0 + 1));
        assert forall|j: int| 0 <= j < k0 + 1 implies now - #[trigger] s[j].0
            > sample_window_ms() by {
            if j >= 1 {
                assert(s.skip(1)[j - 1] == s[j]);
            }
        }
        assert(0 <= k0 + 1 <= s.len() && evict_older(s, now) == s.skip(k0 + 1) && (forall|j: int|
            0 <= j < k0 + 1 ==> now - #[trigger] s[j].0 > sample_window_ms()));
    } else {
        assert(evict_older(s, now) == s.skip(0)) by {
            assert(s.skip(0) =~= s);
        }
        assert forall|i: int| 0 <= i < evict_older(s, now).len() implies now
            - #[trigger] evict_older(s, now)[i].0 <= sample_window_ms() by {
            assert(s[0].0 <= s[i].0);
        }
    }
}


/// Bytes of the samples taken within `win_ms` before `now`.
pub open spec fn window_bytes(s: Seq<(u64, usize)>, now: u64, win_ms: int) -> int
    decreases s.len(),
{
    if s.len() == 0 {
        0
    } else {
        window_bytes(s.drop_last(), now, win_ms) + if now - s.last().0 <= win_ms {
            s.last().1 as int
        } else {
            0int
        }
    }
}

/// Index of the oldest sample within `win_ms` before `now`, scanning from `i`.
pub open spec fn first_fresh_from(s: Seq<(u64, usize)>, now: u64, win_ms: int, i: int) -> Option<
    int,
>
    decreases s.len() - i,
{
    if i < 0 || i >= s.len() {
        None
    } else if now - s[i].0 <= win_ms {
        Some(i)
    } else {
        first_fresh_from(s, now, win_ms, i + 1)
    }
}

/// The transfer rate over the trailing `seconds` seconds before `now`: the
/// bytes of the fresh samples, divided by the span they actually cover
/// (never less than one second).
pub open spec fn spec_window_speed(s: Seq<(u64, usize)>, seconds: u64, now: u64) -> int {
    let win = 1000 * (seconds as int);
    let bytes = window_bytes(s, now, win);
    match first_fresh_from(s, now, win, 0) {
        Some(i) => {
            let span_secs = if now >= s[i].0 {
                (now - s[i].0) / 1000
            } else {
                0int
            };
            bytes / (if span_secs == 0 {
                1int
            } else {
                span_secs
            })
        },
        None => bytes / (seconds as int),
    }
}

proof fn lemma_window_le_sum(s: Seq<(u64, usize)>, now: u64, win_ms: int)
    ensures
        0 <= window_bytes(s, now, win_ms) <= sum_deltas(s),
    decreases s.len(),
{
    if s.len() > 0 {
        lemma_window_le_sum(s.drop_last(), now, win_ms);
    }
}

proof fn lemma_take_succ(s: Seq<(u64, usize)>, now: u64, win_ms: int, i: int)
    requires
        0 <= i < s.len(),
    ensures
        window_bytes(s.take(i + 1), now, win_ms) == window_bytes(s.take(i), now, win_ms) + (
        if now - s[i].0 <= win_ms {
            s[i].1 as int
        } else {
            0int
        }),
        sum_deltas(s.take(i + 1)) == sum_deltas(s.take(i)) + s[i].1,
{
    assert(s.take(i + 1).drop_last() =~= s.take(i));
    assert(s.take(i + 1).last() == s[i]);
}

proof fn lemma_sum_take_le(s: Seq<(u64, usize)>, i: int)
    requires
        0 <= i <= s.len(),
    ensures
        sum_deltas(s.take(i)) <= sum_deltas(s),
    decreases s.len() - i,
{
    if i == s.len() {
        assert(s.take(i) =~= s);
    } else {
        lemma_take_succ(s, 0u64, 0, i);
        lemma_sum_take_le(s, i + 1);
    }
}


/// A span of milliseconds as zero-padded hours, minutes and seconds.
pub open spec fn spec_formatted_duration(ms: int) -> Seq<char> {
    let total_secs = ms / 1000;
    let hours = total_secs / 3600;
    let minutes = (total_secs % 3600) / 60;
    let secs = total_secs % 60;
    spec_padded(hours, 2) + seq![':'] + spec_padded(minutes, 2) + seq![':'] + spec_padded(secs, 2)
}

impl ProgressStats {
    /// The samples are coherent with the totals.
    pub open spec fn wf(&self) -> bool {
        &&& samples_ordered(self.time_series@, self.start_time_ms)
        &&& sum_deltas(self.time_series@) <= self.progressed_size
    }

    /// The time a sample recorded at `now_ms` is stamped with: `now_ms`,
    /// pushed forward when the clock reads earlier than the start of the
    /// run or than an already recorded sample.
    pub open spec fn spec_record_time(&self, now_ms: u64) -> u64 {
        let base = if now_ms < self.start_time_ms {
            self.start_time_ms
        } else {
            now_ms
        };
        if self.time_series@.len() > 0 && base < self.time_series@.last().0 {
            self.time_series@.last().0
        } else {
            base
        }
    }

    pub fn new(now_ms: u64) -> (r: ProgressStats)
        ensures
            r.wf(),
            r.total_length is None,
            r.progressed_size == 0,
            !r.finished,
            r.start_time_ms == now_ms,
            r.time_series@.len() == 0,
    {
        ProgressStats {
            total_length: None,
            progressed_size: 0,
            finished: false,
            start_time_ms: now_ms,
            time_series: Vec::new(),
        }
    }

    /// Stamps a new sample of `delta` bytes and drops samples that have
    /// fallen out of the window.
    fn record_sample(&mut self, delta: usize, now_ms: u64)
        requires
            samples_ordered(old(self).time_series@, old(self).start_time_ms),
        ensures
            samples_ordered(final(self).time_series@, final(self).start_time_ms),
            final(self).total_length == old(self).total_length,
            final(self).progressed_size == old(self).progressed_size,
            final(self).finished == old(self).finished,
            final(self).start_time_ms == old(self).start_time_ms,
            final(self).time_series@ == evict_older(
                old(self).time_series@.push((old(self).spec_record_time(now_ms), delta)),
                old(self).spec_record_time(now_ms),
            ),
            sum_deltas(final(self).time_series@) <= sum_deltas(old(self).time_series@) + delta,
    {
        let mut eff: u64 = now_ms;
        if eff < self.start_time_ms {
            eff = self.start_time_ms;
        }
        let n = self.time_series.len();
        if n > 0 {
            let last_t = self.time_series[n - 1].0;
            if eff < last_t {
                eff = last_t;
            }
        }
        proof {
            assert(eff == old(self).spec_record_time(now_ms));
        }
        self.time_series.push((eff, delta));
        let ghost pushed = self.time_series@;
        proof {
            assert(pushed.drop_last() =~= old(self).time_series@);
            assert(sum_deltas(pushed) == sum_deltas(old(self).time_series@) + delta);
            assert forall|i: int, j: int| 0 <= i <= j < pushed.len() implies pushed[i].0
                <= pushed[j].0 by {
                if j == pushed.len() - 1 && i < j {
                    assert(old(self).time_series@[i].0 <= old(self).time_series@.last().0);
                }
            }
            assert forall|i: int| 0 <= i < pushed.len() implies #[trigger] pushed[i].0 <= eff by {
                if i < pushed.len() - 1 {
                    assert(old(self).time_series@[i].0 <= old(self).time_series@.last().0);
                }
            }
        }
        while self.time_series.len() > 0 && eff - self.time_series[0].0 > 10000
            invariant
                self.total_length == old(self).total_length,
                self.progressed_size == old(self).progressed_size,
                self.finished == old(self).finished,
                self.start_time_ms == old(self).start_time_ms,
                samples_ordered(self.time_series@, self.start_time_ms),
                forall|i: int|
                    0 <= i < self.time_series@.len() ==> #[trigger] self.time_series@[i].0 <= eff,
                evict_older(pushed, eff) == evict_older(self.time_series@, eff),
                sum_deltas(self.time_series@) <= sum_deltas(pushed),
            decreases self.time_series@.len(),
        {
            proof {
                lemma_sum_drop_first(self.time_series@);
                assert(self.time_series@.remove(0) =~= self.time_series@.drop_first());
            }
            self.time_series.remove(0);
        }
        proof {
            assert(evict_older(self.time_series@, eff) == self.time_series@);
        }
    }

    pub fn add_progressed_size(&mut self, size: usize, now_ms: u64)
        requires
            old(self).wf(),
            old(self).progressed_size + size <= usize::MAX,
        ensures
            final(self).wf(),
            final(self).progressed_size == old(self).progressed_size + size,
            final(self).total_length == old(self).total_length,
            final(self).finished == old(self).finished,
            final(self).start_time_ms == old(self).start_time_ms,
            final(self).time_series@ == evict_older(
                old(self).time_series@.push((old(self).spec_record_time(now_ms), size)),
                old(self).spec_record_time(now_ms),
            ),
    {
        self.record_sample(size, now_ms);
        self.progressed_size = self.progressed_size + size;
    }

    pub fn set_progressed_size(&mut self, size: usize, now_ms: u64)
        requires
            old(self).wf(),
            size >= old(self).progressed_size,
        ensures
            final(self).wf(),
            final(self).progressed_size == size,
            final(self).total_length == old(self).total_length,
            final(self).finished == old(self).finished,
            final(self).start_time_ms == old(self).start_time_ms,
            final(self).time_series@ == evict_older(
                old(self).time_series@.push(
                    (
                        old(self).spec_record_time(now_ms),
                        (size - old(self).progressed_size) as usize,
                    ),
                ),
                old(self).spec_record_time(now_ms),
            ),
    {
        let delta = size - self.progressed_size;
        self.record_sample(delta, now_ms);
        self.progressed_size = size;
    }


    /// Elapsed run time in milliseconds at `now_ms` (zero when the clock
    /// reads earlier than the start).
    pub open spec fn spec_runtime_ms(&self, now_ms: u64) -> int {
        if now_ms >= self.start_time_ms {
            now_ms - self.start_time_ms
        } else {
            0
        }
    }

    /// Bytes per second over the whole run, with the elapsed time clamped
    /// below at one second.
    pub open spec fn spec_average_speed(&self, now_ms: u64) -> int {
        let rt = self.spec_runtime_ms(now_ms);
        let d = if rt < 1000 {
            1000int
        } else {
            rt
        };
        (self.progressed_size * 1000) / d
    }

    /// Projected length of the whole transfer in milliseconds, extrapolated
    /// from the progress so far; meaningless until anything has progressed.
    pub open spec fn spec_total_duration(&self, now_ms: u64) -> Option<int> {
        match self.total_length {
            Some(t) => if self.progressed_size > 0 {
                let v = (self.spec_runtime_ms(now_ms) * t) / (self.progressed_size as int);
                Some(
                    if v > u64::MAX {
                        u64::MAX as int
                    } else {
                        v
                    },
                )
            } else {
                None
            },
            None => None,
        }
    }

    /// Projected remaining transfer time in milliseconds.
    pub open spec fn spec_ete(&self, now_ms: u64) -> Option<int> {
        match self.spec_total_duration(now_ms) {
            Some(td) => Some(
                if td > self.spec_runtime_ms(now_ms) {
                    td - self.spec_runtime_ms(now_ms)
                } else {
                    0int
                },
            ),
            None => None,
        }
    }

    /// Average transfer rate in bytes per second over the trailing window of
    /// `seconds` seconds.
    pub fn get_average_speed_for_last_x_seconds(&self, seconds: u64, now_ms: u64) -> (r: usize)
        requires
            self.wf(),
            1 <= seconds,
            seconds * 1000 <= u64::MAX,
        ensures
            r == spec_window_speed(self.time_series@, seconds, now_ms),
    {
        let win: u64 = seconds * 1000;
        let n = self.time_series.len();
        let mut bytes: usize = 0;
        let mut first_idx: Option<usize> = None;
        let mut i: usize = 0;
        proof {
            assert(self.time_series@.take(0) =~= Seq::empty());
        }
        while i < n
            invariant
                self.wf(),
                n == self.time_series@.len(),
                win == seconds * 1000,
                i <= n,
                bytes == window_bytes(self.time_series@.take(i as int), now_ms, win as int),
                match first_idx {
                    Some(fi) => fi < i && first_fresh_from(
                        self.time_series@,
                        now_ms,
                        win as int,
                        0,
                    ) == Some(fi as int),
                    None => first_fresh_from(self.time_series@, now_ms, win as int, 0)
                        == first_fresh_from(self.time_series@, now_ms, win as int, i as int),
                },
            decreases n - i,
        {
            let ghost series = self.time_series@;
            let pair = self.time_series[i];
            let fresh = if now_ms >= pair.0 {
                now_ms - pair.0 <= win
            } else {
                true
            };
            proof {
                lemma_take_succ(series, now_ms, win as int, i as int);
            }
            if fresh {
                if first_idx.is_none() {
                    first_idx = Some(i);
                }
                proof {
                    lemma_window_le_sum(series.take(i as int), now_ms, win as int);
                    lemma_sum_take_le(series, i as int + 1);
                }
                bytes = bytes + pair.1;
            }
            i = i + 1;
        }
        proof {
            assert(self.time_series@.take(n as int) =~= self.time_series@);
        }
        match first_idx {
            Some(fi) => {
                let t = self.time_series[fi].0;
                let span_ms: u64 = if now_ms >= t {
                    now_ms - t
                } else {
                    0
                };
                let mut span_secs: u64 = span_ms / 1000;
                if span_secs == 0 {
                    span_secs = 1;
                }
                let q: u128 = (bytes as u128) / (span_secs as u128);
                proof {
                    vstd::arithmetic::div_mod::lemma_div_nonincreasing(
                        bytes as int,
                        span_secs as int,
                    );
                }
                q as usize
            },
            None => {
                let q: u128 = (bytes as u128) / (seconds as u128);
                proof {
                    vstd::arithmetic::div_mod::lemma_div_nonincreasing(bytes as int, seconds as int);
                }
                q as usize
            },
        }
    }

    /// Average transfer rate over the last second.
    pub fn get_average_speed_for_last_second(&self, now_ms: u64) -> (r: usize)
        requires
            self.wf(),
        ensures
            r == spec_window_speed(self.time_series@, 1, now_ms),
    {
        self.get_average_speed_for_last_x_seconds(1, now_ms)
    }

    /// Average transfer rate over the last ten seconds.
    pub fn get_average_speed_for_last_10_seconds(&self, now_ms: u64) -> (r: usize)
        requires
            self.wf(),
        ensures
            r == spec_window_speed(self.time_series@, 10, now_ms),
    {
        self.get_average_speed_for_last_x_seconds(10, now_ms)
    }

    /// Average transfer rate in bytes per second since the run started.
    pub fn get_average_speed(&self, now_ms: u64) -> (r: usize)
        ensures
            r == self.spec_average_speed(now_ms),
    {
        let rt = self.get_runtime(now_ms);
        let d: u64 = if rt < 1000 {
            1000
        } else {
            rt
        };
        let q: u128 = (self.progressed_size as u128) * 1000 / (d as u128);
        proof {
            vstd::arithmetic::div_mod::lemma_div_is_ordered_by_denominator(
                self.progressed_size * 1000,
                1000,
                d as int,
            );
            vstd::arithmetic::div_mod::lemma_div_multiples_vanish(
                self.progressed_size as int,
                1000,
            );
            assert(1000 * (self.progressed_size as int) == (self.progressed_size as int) * 1000);
        }
        q as usize
    }

    pub fn _get_start_time(&self) -> (r: u64)
        ensures
            r == self.start_time_ms,
    {
        self.start_time_ms
    }

    /// Elapsed run time in milliseconds.
    pub fn get_runtime(&self, now_ms: u64) -> (r: u64)
        ensures
            r == self.spec_runtime_ms(now_ms),
    {
        if now_ms >= self.start_time_ms {
            now_ms - self.start_time_ms
        } else {
            0
        }
    }

    /// Projected length of the whole transfer in milliseconds.
    pub fn get_total_duration(&self, now_ms: u64) -> (r: Option<u64>)
        ensures
            match r {
                Some(v) => self.spec_total_duration(now_ms) == Some(v as int),
                None => self.spec_total_duration(now_ms) is None,
            },
    {
        match self.total_length {
            Some(t) => {
                if self.progressed_size > 0 {
                    let rt = self.get_runtime(now_ms);
                    proof {
                        assert((rt as int) * (t as int) < 0x100000000000000000000000000000000int)
                            by (nonlinear_arith)
                            requires
                                rt <= 0xffffffffffffffffu64,
                                t <= 0xffffffffffffffffu64,
                        ;
                    }
                    let v: u128 = (rt as u128) * (t as u128) / (self.progressed_size as u128);
                    if v > u64::MAX as u128 {
                        Some(u64::MAX)
                    } else {
                        Some(v as u64)
                    }
                } else {
                    None
                }
            },
            None => None,
        }
    }

    /// Projected remaining transfer time in milliseconds ("estimated time
    /// enroute").
    pub fn get_ete(&self, now_ms: u64) -> (r: Option<u64>)
        ensures
            match r {
                Some(v) => self.spec_ete(now_ms) == Some(v as int),
                None => self.spec_ete(now_ms) is None,
            },
    {
        match self.get_total_duration(now_ms) {
            Some(td) => {
                let rt = self.get_runtime(now_ms);
                if td > rt {
                    Some(td - rt)
                } else {
                    Some(0)
                }
            },
            None => None,
        }
    }

    /// The clock reading at which the transfer is projected to end.
    pub fn _get_eta(&self, now_ms: u64) -> (r: Option<u64>)
        ensures
            match r {
                Some(v) => self.spec_ete(now_ms) matches Some(e) && v == (if now_ms + e > u64::MAX {
                    u64::MAX as int
                } else {
                    now_ms + e
                }),
                None => self.spec_ete(now_ms) is None,
            },
    {
        match self.get_ete(now_ms) {
            Some(e) => {
                if e <= u64::MAX - now_ms {
                    Some(now_ms + e)
                } else {
                    Some(u64::MAX)
                }
            },
            None => None,
        }
    }

    /// Renders a span of milliseconds as zero-padded hours, minutes and
    /// seconds separated by colons.
    pub fn get_formatted_duration(duration_ms: u64) -> (r: String)
        ensures
            r@ == spec_formatted_duration(duration_ms as int),
    {
        let total_secs: u64 = duration_ms / 1000;
        let hours: u64 = total_secs / 3600;
        let minutes: u64 = (total_secs % 3600) / 60;
        let secs: u64 = total_secs % 60;
        let mut out = format_padded(hours, 2);
        out.append(":");
        out.append(format_padded(minutes, 2).as_str());
        out.append(":");
        out.append(format_padded(secs, 2).as_str());
        proof {
            reveal_strlit(":");
            assert((":")@ =~= seq![':']);
            assert(out@ =~= spec_formatted_duration(duration_ms as int));
        }
        out
    }

    /// The elapsed run time, rendered as hours, minutes and seconds.
    pub fn get_formatted_runtime(&self, now_ms: u64) -> (r: String)
        ensures
            r@ == spec_formatted_duration(self.spec_runtime_ms(now_ms)),
    {
        Self::get_formatted_duration(self.get_runtime(now_ms))
    }

    /// The projected remaining time, rendered as hours, minutes and seconds.
    pub fn get_formatted_ete(&self, now_ms: u64) -> (r: Option<String>)
        ensures
            match r {
                Some(v) => self.spec_ete(now_ms) matches Some(e) && v@ == spec_formatted_duration(
                    e,
                ),
                None => self.spec_ete(now_ms) is None,
            },
    {
        match self.get_ete(now_ms) {
            Some(ete) => Some(Self::get_formatted_duration(ete)),
            None => None,
        }
    }

    pub fn is_finished(&self) -> (r: bool)
        ensures
            r == self.finished,
    {
        self.finished
    }

    pub fn set_finished(&mut self)
        ensures
            *final(self) == (ProgressStats { finished: true, ..*old(self) }),
    {
        self.finished = true;
    }
}

} // verus!
