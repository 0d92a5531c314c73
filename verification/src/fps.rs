//! FPS display aggregator: a bounded FIFO window of instantaneous frame
//! rates, refreshed onto the display at most once per half second as the
//! rounded arithmetic mean of the window. Purely observational; it has no
//! effect on time selection or capture sequencing.

use crate::timing::TICKS_PER_SECOND;
use std::collections::VecDeque;
use vstd::arithmetic::div_mod::lemma_div_nonincreasing;
use vstd::prelude::*;

verus! {

/// The window holds the most recent sixty samples; the oldest is evicted
/// first.
pub const FPS_WINDOW_CAPACITY: usize = 60;

/// Frames shorter than one millisecond are ignored, so the instantaneous
/// rate never divides by a degenerate delta.
pub const MIN_SAMPLE_DELTA_TICKS: u64 = TICKS_PER_SECOND / 1000;

/// The displayed average refreshes at most once per half second.
pub const REFRESH_INTERVAL_TICKS: u64 = TICKS_PER_SECOND / 2;

/// The instantaneous frame rate of a frame that took `delta` ticks: the
/// whole number of such frames that fit in one second.
pub open spec fn fps_sample(delta: u64) -> u64
    recommends
        delta > 0,
{
    (TICKS_PER_SECOND as int / delta as int) as u64
}

/// One window of recent frame-rate samples behind an FPS readout.
pub struct FpsWindow {
    samples: VecDeque<u64>,
    last_update: u64,
}

/// Mathematical image of an `FpsWindow`: the samples oldest first, and the
/// elapsed time at which the display was last refreshed.
pub struct FpsWindowView {
    pub samples: Seq<u64>,
    pub last_update: u64,
}

impl View for FpsWindow {
    type V = FpsWindowView;

    closed spec fn view(&self) -> FpsWindowView {
        FpsWindowView { samples: self.samples@, last_update: self.last_update }
    }
}

/// Internal bounds every reachable window obeys: never more than the
/// capacity in samples, and no sample beyond the rate of a one-tick frame,
/// so the sum of a full window stays far inside the machine range.
pub open spec fn well_formed(w: FpsWindowView) -> bool {
    &&& w.samples.len() <= FPS_WINDOW_CAPACITY
    &&& forall|i: int| 0 <= i < w.samples.len() ==> w.samples[i] <= TICKS_PER_SECOND
}

/// A push into the bounded window: appended at the back, and the oldest
/// sample evicted from the front once the size exceeds the capacity.
pub open spec fn push_evict(samples: Seq<u64>, x: u64) -> Seq<u64> {
    let pushed = samples.push(x);
    if pushed.len() > FPS_WINDOW_CAPACITY {
        pushed.drop_first()
    } else {
        pushed
    }
}

/// Sum of the samples of a window.
pub open spec fn sample_sum(s: Seq<u64>) -> int
    decreases s.len(),
{
    if s.len() == 0 {
        0
    } else {
        s[0] + sample_sum(s.drop_first())
    }
}

/// The arithmetic mean of the samples, rounded to the nearest integer
/// (halves round up).
pub open spec fn rounded_mean(s: Seq<u64>) -> int
    recommends
        s.len() > 0,
{
    (sample_sum(s) + s.len() / 2) / s.len() as int
}

/// Whether a frame with this delta, arriving at this elapsed time, refreshes
/// the display: the frame is not degenerate and strictly more than the
/// refresh interval has passed since the last refresh.
pub open spec fn refresh_due(w: FpsWindowView, delta: u64, elapsed: u64) -> bool {
    &&& delta >= MIN_SAMPLE_DELTA_TICKS
    &&& elapsed > w.last_update + REFRESH_INTERVAL_TICKS
}

/// How one frame changes the window: a degenerate frame changes nothing;
/// any other frame pushes its rate, and moves the refresh mark exactly when
/// a refresh is due.
pub open spec fn step_window(w: FpsWindowView, delta: u64, elapsed: u64) -> FpsWindowView {
    if delta < MIN_SAMPLE_DELTA_TICKS {
        w
    } else {
        FpsWindowView {
            samples: push_evict(w.samples, fps_sample(delta)),
            last_update: if refresh_due(w, delta, elapsed) {
                elapsed
            } else {
                w.last_update
            },
        }
    }
}

/// What one frame puts on the display: the rounded mean of the window after
/// the push when a refresh is due, nothing otherwise.
pub open spec fn step_display(w: FpsWindowView, delta: u64, elapsed: u64) -> Option<int> {
    if refresh_due(w, delta, elapsed) {
        Some(rounded_mean(push_evict(w.samples, fps_sample(delta))))
    } else {
        None
    }
}

proof fn lemma_sample_sum_push(s: Seq<u64>, x: u64)
    ensures
        sample_sum(s.push(x)) == sample_sum(s) + x,
    decreases s.len(),
{
    if s.len() == 0 {
        assert(s.push(x).drop_first() =~= Seq::<u64>::empty());
        assert(s.push(x)[0] == x);
        assert(sample_sum(s.push(x)) == x + sample_sum(Seq::<u64>::empty()));
    } else {
        lemma_sample_sum_push(s.drop_first(), x);
        assert(s.push(x).drop_first() =~= s.drop_first().push(x));
        assert(s.push(x)[0] == s[0]);
        assert(sample_sum(s.push(x)) == s[0] + sample_sum(s.drop_first().push(x)));
    }
}

/// The window's samples after pushing every entry of `xs` in order.
pub open spec fn push_all(samples: Seq<u64>, xs: Seq<u64>) -> Seq<u64>
    decreases xs.len(),
{
    if xs.len() == 0 {
        samples
    } else {
        push_all(push_evict(samples, xs[0]), xs.drop_first())
    }
}

/// FIFO eviction: after any series of pushes into a window within capacity,
/// what remains is exactly the newest sixty of all samples ever seen, oldest
/// first; everything older has been evicted, from the front.
pub proof fn lemma_window_keeps_newest(samples: Seq<u64>, xs: Seq<u64>)
    requires
        samples.len() <= FPS_WINDOW_CAPACITY,
    ensures
        push_all(samples, xs) == (samples + xs).skip(
            if samples.len() + xs.len() <= FPS_WINDOW_CAPACITY {
                0
            } else {
                samples.len() + xs.len() - FPS_WINDOW_CAPACITY
            },
        ),
    decreases xs.len(),
{
    if xs.len() == 0 {
        assert((samples + xs).skip(0) =~= samples);
    } else {
        let pushed = push_evict(samples, xs[0]);
        lemma_window_keeps_newest(pushed, xs.drop_first());
        let all = samples + xs;
        let total = samples.len() + xs.len();
        let cut = if total <= FPS_WINDOW_CAPACITY {
            0
        } else {
            (total - FPS_WINDOW_CAPACITY) as int
        };
        assert(pushed + xs.drop_first() =~= all.skip(
            if samples.len() < FPS_WINDOW_CAPACITY {
                0
            } else {
                1
            },
        ));
        assert((pushed + xs.drop_first()).skip(
            if pushed.len() + xs.len() - 1 <= FPS_WINDOW_CAPACITY {
                0
            } else {
                pushed.len() + xs.len() - 1 - FPS_WINDOW_CAPACITY
            },
        ) =~= all.skip(cut));
    }
}

/// Pushing a sixty-first sample into a window grown from empty leaves
/// exactly sixty samples, the very first one evicted and every later one
/// kept in order.
pub proof fn lemma_capacity_evicts_oldest(xs: Seq<u64>)
    requires
        xs.len() == FPS_WINDOW_CAPACITY + 1,
    ensures
        push_all(Seq::empty(), xs).len() == FPS_WINDOW_CAPACITY,
        push_all(Seq::empty(), xs) == xs.skip(1),
{
    lemma_window_keeps_newest(Seq::empty(), xs);
    assert((Seq::<u64>::empty() + xs).skip(1) =~= xs.skip(1));
}

/// The window after feeding it one frame per entry of `events`, each entry a
/// pair of the frame's delta and the elapsed time at its arrival.
pub open spec fn run_window(w: FpsWindowView, events: Seq<(u64, u64)>) -> FpsWindowView
    decreases events.len(),
{
    if events.len() == 0 {
        w
    } else {
        run_window(step_window(w, events[0].0, events[0].1), events.drop_first())
    }
}

/// The elapsed times at which the display refreshed during a run, in order.
pub open spec fn refresh_times(w: FpsWindowView, events: Seq<(u64, u64)>) -> Seq<u64>
    decreases events.len(),
{
    if events.len() == 0 {
        Seq::empty()
    } else {
        let rest = refresh_times(step_window(w, events[0].0, events[0].1), events.drop_first());
        if refresh_due(w, events[0].0, events[0].1) {
            seq![events[0].1] + rest
        } else {
            rest
        }
    }
}

/// The display never recomputes more than once per refresh interval: over
/// any run, however many frames arrive, the first refresh comes strictly
/// more than the interval after the initial mark, and any two consecutive
/// refreshes lie strictly more than the interval apart.
pub proof fn lemma_refresh_spacing(w: FpsWindowView, events: Seq<(u64, u64)>)
    ensures
        refresh_times(w, events).len() > 0 ==> refresh_times(w, events)[0] > w.last_update
            + REFRESH_INTERVAL_TICKS,
        forall|i: int|
            0 <= i < refresh_times(w, events).len() - 1 ==> #[trigger] refresh_times(w, events)[i
                + 1] > refresh_times(w, events)[i] + REFRESH_INTERVAL_TICKS,
        run_window(w, events).last_update == if refresh_times(w, events).len() > 0 {
            refresh_times(w, events).last()
        } else {
            w.last_update
        },
    decreases events.len(),
{
    if events.len() > 0 {
        let w1 = step_window(w, events[0].0, events[0].1);
        let ts = refresh_times(w, events);
        let rest = refresh_times(w1, events.drop_first());
        lemma_refresh_spacing(w1, events.drop_first());
        if refresh_due(w, events[0].0, events[0].1) {
            assert(w1.last_update == events[0].1);
            assert forall|i: int| 0 <= i < ts.len() - 1 implies #[trigger] ts[i + 1] > ts[i]
                + REFRESH_INTERVAL_TICKS by {
                if i == 0 {
                    assert(rest.len() > 0 && rest[0] > w1.last_update + REFRESH_INTERVAL_TICKS);
                } else {
                    assert(ts[i] == rest[i - 1] && ts[i + 1] == rest[(i - 1) + 1]);
                    assert(rest[(i - 1) + 1] > rest[i - 1] + REFRESH_INTERVAL_TICKS);
                }
            }
        } else {
            assert(w1.last_update == w.last_update);
            assert forall|i: int| 0 <= i < ts.len() - 1 implies #[trigger] ts[i + 1] > ts[i]
                + REFRESH_INTERVAL_TICKS by {
                assert(rest[i + 1] > rest[i] + REFRESH_INTERVAL_TICKS);
            }
        }
    }
}

impl FpsWindow {
    /// An empty window that has never refreshed the display.
    pub fn new() -> (r: FpsWindow)
        ensures
            r@.samples == Seq::<u64>::empty(),
            r@.last_update == 0,
            well_formed(r@),
    {
        FpsWindow { samples: VecDeque::new(), last_update: 0 }
    }

    /// How many samples the window currently holds.
    pub fn sample_count(&self) -> (r: usize)
        ensures
            r == self@.samples.len(),
    {
        self.samples.len()
    }

    /// The rounded mean of the current samples.
    fn window_mean(&self) -> (r: u32)
        requires
            well_formed(self@),
            self@.samples.len() > 0,
        ensures
            r == rounded_mean(self@.samples),
    {
        let n = self.samples.len();
        let mut total: u64 = 0;
        let mut i: usize = 0;
        while i < n
            invariant
                well_formed(self@),
                n == self@.samples.len(),
                i <= n,
                total == sample_sum(self@.samples.take(i as int)),
                total <= i * TICKS_PER_SECOND,
            decreases n - i,
        {
            proof {
                lemma_sample_sum_push(self@.samples.take(i as int), self@.samples[i as int]);
                assert(self@.samples.take(i as int).push(self@.samples[i as int]) =~= self@
                    .samples.take(i as int + 1));
            }
            total = total + self.samples[i];
            i = i + 1;
        }
        proof {
            assert(self@.samples.take(n as int) =~= self@.samples);
            lemma_div_nonincreasing(total as int + (n as int) / 2, n as int);
        }
        let avg = (total + (n as u64) / 2) / (n as u64);
        avg as u32
    }

    /// Feeds one frame into the aggregator: `delta_ticks` is the frame's
    /// measured wall-clock duration and `elapsed_ticks` the wall-clock time
    /// since startup. Returns the freshly rounded average exactly when a
    /// display refresh is due, and nothing otherwise.
    pub fn update(&mut self, delta_ticks: u64, elapsed_ticks: u64) -> (r: Option<u32>)
        requires
            well_formed(old(self)@),
        ensures
            well_formed(final(self)@),
            final(self)@ == step_window(old(self)@, delta_ticks, elapsed_ticks),
            r is Some <==> step_display(old(self)@, delta_ticks, elapsed_ticks) is Some,
            (r matches Some(v) ==> step_display(old(self)@, delta_ticks, elapsed_ticks) == Some(
                v as int,
            )),
    {
        if delta_ticks < MIN_SAMPLE_DELTA_TICKS {
            return None;
        }
        let sample = TICKS_PER_SECOND / delta_ticks;
        proof {
            lemma_div_nonincreasing(TICKS_PER_SECOND as int, delta_ticks as int);
        }
        self.samples.push_back(sample);
        if self.samples.len() > FPS_WINDOW_CAPACITY {
            self.samples.pop_front();
        }
        proof {
            assert(self@.samples =~= push_evict(old(self)@.samples, fps_sample(delta_ticks)));
        }
        if elapsed_ticks >= self.last_update && elapsed_ticks - self.last_update
            > REFRESH_INTERVAL_TICKS {
            let avg = self.window_mean();
            self.last_update = elapsed_ticks;
            Some(avg)
        } else {
            None
        }
    }
}

} // verus!
