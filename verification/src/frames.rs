use vstd::prelude::*;
use crate::sheet::{CharacterSheet, PlayerGraphics};
use vstd::arithmetic::div_mod::{
    lemma_add_mod_noop_right, lemma_fundamental_div_mod, lemma_fundamental_div_mod_converse,
    lemma_mod_bound,
};

verus! {

/// Mathematical model of [`FrameAnimation`].
pub struct FrameModel {
    /// Nanoseconds accumulated toward the next frame.
    pub timer: nat,
    /// Nanoseconds that each frame is shown for.
    pub interval: nat,
    /// Sprite-sheet indices of the clip's frames, in playing order.
    pub frames: Seq<usize>,
    /// Position in `frames` of the frame that is shown.
    pub current: nat,
}

/// Sum of the elapsed times of `ticks`.
pub open spec fn sum_elapsed(ticks: Seq<nat>) -> nat
    decreases ticks.len(),
{
    if ticks.len() == 0 {
        0
    } else {
        sum_elapsed(ticks.drop_last()) + ticks.last()
    }
}

impl FrameModel {
    /// The clip has a frame, the current frame is one of its frames, and
    /// the timer has not reached the interval.
    pub open spec fn wf(self) -> bool {
        &&& self.frames.len() > 0
        &&& self.current < self.frames.len()
        &&& if self.interval == 0 {
            self.timer == 0
        } else {
            self.timer < self.interval
        }
    }

    /// The state in which a clip starts: first frame, timer at zero.
    pub open spec fn start(frames: Seq<usize>, interval: nat) -> FrameModel {
        FrameModel { timer: 0, interval, frames, current: 0 }
    }

    /// Sprite-sheet index of the frame that is shown.
    pub open spec fn shown(self) -> usize {
        self.frames[self.current as int]
    }

    /// Whether `elapsed` more nanoseconds bring the timer to the interval.
    pub open spec fn completes(self, elapsed: nat) -> bool {
        self.timer + elapsed >= self.interval
    }

    /// The state after one tick: when the timer reaches the interval the
    /// next frame is shown, wrapping to the first after the last, and the
    /// timer restarts at zero; otherwise the timer accumulates.
    pub open spec fn advance(self, elapsed: nat) -> FrameModel {
        if self.completes(elapsed) {
            FrameModel {
                timer: 0,
                current: ((self.current + 1) as nat) % self.frames.len(),
                ..self
            }
        } else {
            FrameModel { timer: self.timer + elapsed, ..self }
        }
    }

    /// The state after the ticks of `ticks`, in order.
    pub open spec fn run(self, ticks: Seq<nat>) -> FrameModel
        decreases ticks.len(),
    {
        if ticks.len() == 0 {
            self
        } else {
            self.run(ticks.drop_last()).advance(ticks.last())
        }
    }

    /// Number of ticks of `ticks` that moved on to the next frame.
    pub open spec fn completed(self, ticks: Seq<nat>) -> nat
        decreases ticks.len(),
    {
        if ticks.len() == 0 {
            0
        } else {
            let before = self.run(ticks.drop_last());
            self.completed(ticks.drop_last()) + if before.completes(ticks.last()) {
                1nat
            } else {
                0nat
            }
        }
    }

    /// No tick of `ticks` carries the timer past the interval: each either
    /// stays short of it or lands on it exactly.
    pub open spec fn lands_on_intervals(self, ticks: Seq<nat>) -> bool {
        forall|i: int|
            0 <= i < ticks.len() ==> (#[trigger] self.run(ticks.take(i))).timer + ticks[i]
                <= self.interval
    }

    /// The state with other frames in place of the clip's, the timer as it
    /// is, and the current position wrapped into the new frames.
    pub open spec fn with_frames(self, frames: Seq<usize>) -> FrameModel {
        FrameModel { frames, current: self.current % frames.len(), ..self }
    }
}

/// Frame cycling of the clip that is shown: which frame is current, and the
/// time accumulated toward the next one.
#[derive(Clone, Debug)]
pub struct FrameAnimation {
    timer: u64,
    interval: u64,
    frames: Vec<usize>,
    current_frame: usize,
}

impl View for FrameAnimation {
    type V = FrameModel;

    closed spec fn view(&self) -> FrameModel {
        FrameModel {
            timer: self.timer as nat,
            interval: self.interval as nat,
            frames: self.frames@,
            current: self.current_frame as nat,
        }
    }
}

impl FrameAnimation {
    /// The animation's invariant: that of its model.
    pub open spec fn wf(&self) -> bool {
        self@.wf()
    }

    /// An animation at the first of `frames`, each shown for
    /// `interval_nanos`. A clip needs at least one frame: with none there
    /// is no animation.
    pub fn new(frames: Vec<usize>, interval_nanos: u64) -> (animation: Option<Self>)
        ensures
            animation.is_some() <==> frames@.len() > 0,
            animation matches Some(a) ==> a.wf() && a@ == FrameModel::start(
                frames@,
                interval_nanos as nat,
            ),
    {
        if frames.len() == 0 {
            None
        } else {
            Some(FrameAnimation { timer: 0, interval: interval_nanos, frames, current_frame: 0 })
        }
    }

    /// Position in the clip of the frame that is shown.
    pub fn current_frame(&self) -> (i: usize)
        ensures
            i == self@.current,
    {
        self.current_frame
    }

    /// Sprite-sheet indices of the clip's frames.
    pub fn frames(&self) -> (frames: &Vec<usize>)
        ensures
            frames@ == self@.frames,
    {
        &self.frames
    }

    /// Nanoseconds accumulated toward the next frame.
    pub fn timer(&self) -> (t: u64)
        ensures
            t == self@.timer,
    {
        self.timer
    }

    /// Nanoseconds that each frame is shown for.
    pub fn interval(&self) -> (t: u64)
        ensures
            t == self@.interval,
    {
        self.interval
    }

    /// Sprite-sheet index of the frame that is shown.
    pub fn sprite_index(&self) -> (index: usize)
        requires
            self.wf(),
        ensures
            index == self@.shown(),
    {
        self.frames[self.current_frame]
    }

    /// Advances the animation by one tick. Returns the sprite-sheet index
    /// to show when the tick moved on to the next frame, `None` when the
    /// frame stays.
    ///
    /// A tick moves on by one frame at most, however long it is, and the
    /// time beyond the interval is dropped.
    pub fn tick(&mut self, elapsed_nanos: u64) -> (shown: Option<usize>)
        requires
            old(self).wf(),
        ensures
            final(self).wf(),
            final(self)@ == old(self)@.advance(elapsed_nanos as nat),
            shown == if old(self)@.completes(elapsed_nanos as nat) {
                Some(final(self)@.shown())
            } else {
                None
            },
    {
        let count: usize = self.frames.len();
        if elapsed_nanos >= self.interval - self.timer {
            self.timer = 0;
            self.current_frame = (self.current_frame + 1) % count;
            Some(self.frames[self.current_frame])
        } else {
            self.timer = self.timer + elapsed_nanos;
            None
        }
    }

    /// Takes over the cycle of the way the player faces. The timer goes
    /// on, and so does the position in the cycle, wrapped into the new
    /// frames; the frame that the host shows is left for the next tick to
    /// change.
    pub fn face(&mut self, graphics: &PlayerGraphics, sheet: &CharacterSheet)
        requires
            old(self).wf(),
        ensures
            final(self).wf(),
            final(self)@ == old(self)@.with_frames(sheet.frames_of(graphics.facing)),
    {
        let frames = sheet.frames(graphics.facing);
        self.current_frame = self.current_frame % frames.len();
        self.frames = frames;
    }

    /// Starts another clip: its first frame is shown and the timer restarts
    /// at zero. Returns the sprite-sheet index to show. With no frames
    /// there is no clip to start: the animation stays as it is and `None`
    /// is returned.
    pub fn switch_clip(&mut self, frames: Vec<usize>) -> (shown: Option<usize>)
        requires
            old(self).wf(),
        ensures
            final(self).wf(),
            final(self)@ == if frames@.len() > 0 {
                FrameModel::start(frames@, old(self)@.interval)
            } else {
                old(self)@
            },
            shown == if frames@.len() > 0 {
                Some(frames@[0])
            } else {
                None
            },
    {
        if frames.len() == 0 {
            None
        } else {
            let first = frames[0];
            self.frames = frames;
            self.current_frame = 0;
            self.timer = 0;
            Some(first)
        }
    }
}

impl FrameModel {
    /// A tick keeps the invariant, the clip's frames and the interval.
    pub proof fn lemma_advance_keeps_wf(self, elapsed: nat)
        requires
            self.wf(),
        ensures
            self.advance(elapsed).wf(),
            self.advance(elapsed).frames == self.frames,
            self.advance(elapsed).interval == self.interval,
    {
        if self.completes(elapsed) {
            lemma_mod_bound((self.current + 1) as int, self.frames.len() as int);
        }
    }

    /// Any run of ticks keeps the invariant, the clip's frames and the
    /// interval.
    pub proof fn lemma_run_keeps_wf(self, ticks: Seq<nat>)
        requires
            self.wf(),
        ensures
            self.run(ticks).wf(),
            self.run(ticks).frames == self.frames,
            self.run(ticks).interval == self.interval,
        decreases ticks.len(),
    {
        if ticks.len() > 0 {
            self.lemma_run_keeps_wf(ticks.drop_last());
            self.run(ticks.drop_last()).lemma_advance_keeps_wf(ticks.last());
        }
    }

    /// Whatever the ticks, the frame shown is the one reached by moving on
    /// once for each tick that completed an interval, wrapping after the
    /// last frame, and a full interval T has elapsed for each of them: the
    /// clip never moves on faster than one frame per T.
    #[verifier::spinoff_prover]
    pub proof fn lemma_at_most_one_frame_per_interval(self, ticks: Seq<nat>)
        requires
            self.wf(),
            self.interval > 0,
        ensures
            self.run(ticks).current == (self.current + self.completed(ticks)) % self.frames.len(),
            self.completed(ticks) * self.interval + self.run(ticks).timer <= self.timer
                + sum_elapsed(ticks),
        decreases ticks.len(),
    {
        let n = self.frames.len() as int;
        let t = self.interval as int;
        let c = self.current as int;
        if ticks.len() == 0 {
            assert(self.run(ticks) == self);
            assert(self.completed(ticks) == 0);
            assert(sum_elapsed(ticks) == 0);
            assert(self.completed(ticks) * self.interval == 0) by (nonlinear_arith)
                requires
                    self.completed(ticks) == 0,
            ;
            vstd::arithmetic::div_mod::lemma_small_mod(self.current, self.frames.len());
        } else {
            let front = ticks.drop_last();
            let e = ticks.last() as int;
            self.lemma_at_most_one_frame_per_interval(front);
            self.lemma_run_keeps_wf(front);
            let before = self.run(front);
            let after = self.run(ticks);
            let k = self.completed(front) as int;
            let total = sum_elapsed(front) as int;
            assert(after == before.advance(ticks.last()));
            assert(sum_elapsed(ticks) == total + e);
            assert(before.frames.len() == n && before.interval == t);
            assert(before.current == (c + k) % n);
            assert(k * t + before.timer <= self.timer + total);
            if before.completes(ticks.last()) {
                assert(self.completed(ticks) == k + 1);
                assert(before.timer + e >= t);
                assert(after.timer == 0);
                assert(after.current == (before.current as int + 1) % n);
                lemma_add_mod_noop_right(1, c + k, n);
                assert(1 + (c + k) == c + (k + 1));
                assert(after.current == (c + (k + 1)) % n);
                assert((k + 1) * t == k * t + t) by (nonlinear_arith);
                assert((k + 1) * t + after.timer <= self.timer + total + e);
            } else {
                assert(self.completed(ticks) == k);
                assert(after.timer == before.timer + e);
                assert(after.current == before.current);
                assert(k * t + after.timer <= self.timer + total + e);
            }
        }
    }

    /// A clip of N frames with interval T moves on by exactly one frame,
    /// wrapping after the last, for every T of elapsed time: after ticks
    /// that together take `total` nanoseconds, the clip has moved on by
    /// `(timer + total) / T` frames modulo N, and the timer holds the
    /// remainder.
    ///
    /// This holds of ticks that never carry the timer past the interval.
    /// A tick that does moves on by one frame all the same and the excess
    /// is dropped, so that less than one frame per T is then shown.
    #[verifier::spinoff_prover]
    pub proof fn lemma_one_frame_per_interval(self, ticks: Seq<nat>)
        requires
            self.wf(),
            self.interval > 0,
            self.lands_on_intervals(ticks),
        ensures
            self.run(ticks).current == (self.current + (self.timer + sum_elapsed(ticks))
                / self.interval) % self.frames.len(),
            self.run(ticks).timer == (self.timer + sum_elapsed(ticks)) % self.interval,
        decreases ticks.len(),
    {
        let t = self.interval as int;
        let n = self.frames.len() as int;
        if ticks.len() == 0 {
            lemma_fundamental_div_mod_converse(self.timer as int, t, 0, self.timer as int);
            vstd::arithmetic::div_mod::lemma_small_mod(self.current, self.frames.len());
        } else {
            let front = ticks.drop_last();
            let e = ticks.last() as int;
            assert forall|i: int| 0 <= i < front.len() implies (#[trigger] self.run(
                front.take(i),
            )).timer + front[i] <= self.interval by {
                assert(front.take(i) == ticks.take(i));
                assert(front[i] == ticks[i]);
            }
            self.lemma_one_frame_per_interval(front);
            self.lemma_run_keeps_wf(front);
            let before = self.run(front);
            let s = (self.timer + sum_elapsed(front)) as int;
            let c = self.current as int;
            let r = before.timer as int;
            assert(ticks.take(ticks.len() - 1) == front);
            assert(r + e <= t);
            let q = s / t;
            lemma_fundamental_div_mod(s, t);
            assert(s == t * q + r);
            if r + e == t {
                assert(s + e == (q + 1) * t + 0) by (nonlinear_arith)
                    requires
                        s == t * q + r,
                        r + e == t,
                ;
                lemma_fundamental_div_mod_converse(s + e, t, q + 1, 0);
                lemma_add_mod_noop_right(1, c + q, n);
                assert(1 + (c + q) == c + (q + 1));
            } else {
                assert(s + e == q * t + (r + e)) by (nonlinear_arith)
                    requires
                        s == t * q + r,
                ;
                lemma_fundamental_div_mod_converse(s + e, t, q, r + e);
            }
        }
    }

    /// After `count` ticks of exactly one interval each, a clip that
    /// started an interval afresh has moved on by `count` frames, wrapping
    /// after the last.
    #[verifier::spinoff_prover]
    pub proof fn lemma_full_intervals(self, count: nat)
        requires
            self.wf(),
            self.interval > 0,
            self.timer == 0,
        ensures
            self.run(Seq::new(count, |i: int| self.interval)).current == (self.current + count)
                % self.frames.len(),
            self.run(Seq::new(count, |i: int| self.interval)).timer == 0,
        decreases count,
    {
        let ticks = Seq::new(count, |i: int| self.interval);
        if count > 0 {
            let fewer = Seq::new((count - 1) as nat, |i: int| self.interval);
            assert(ticks.drop_last() == fewer);
            self.lemma_full_intervals((count - 1) as nat);
            self.lemma_run_keeps_wf(fewer);
            lemma_add_mod_noop_right(1, self.current + count - 1, self.frames.len() as int);
            assert(1 + (self.current + count - 1) == (self.current + count) as int);
        } else {
            vstd::arithmetic::div_mod::lemma_small_mod(self.current, self.frames.len());
        }
    }

    /// A clip of a single frame never shows another frame.
    pub proof fn lemma_single_frame_is_static(self, ticks: Seq<nat>)
        requires
            self.wf(),
            self.frames.len() == 1,
        ensures
            self.run(ticks).current == 0,
            self.run(ticks).shown() == self.shown(),
        decreases ticks.len(),
    {
        if ticks.len() > 0 {
            self.lemma_single_frame_is_static(ticks.drop_last());
            self.lemma_run_keeps_wf(ticks.drop_last());
        }
    }
}

} // verus!
