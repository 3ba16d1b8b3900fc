use vstd::prelude::*;
use crate::catalog::{catalog_wf, clip_wf, AnimationClipCatalog, ClipModel};
use crate::clip::ClipId;
use crate::direction::{FacingDirection, HeldDirections};
use crate::frames::{sum_elapsed, FrameAnimation, FrameModel};
use crate::movement::{
    ActorMovementState, MovementModel, PositionTween, TickInput, TweenModel,
};
use crate::vector::Vector2;

verus! {

/// What one tick of the resolver asks of the host.
#[derive(Clone, Copy, Debug, PartialEq, Eq, Structural)]
pub struct TickCommands {
    /// Show this clip from its first frame. `None` keeps the clip that is
    /// playing.
    pub clip_switch: Option<ClipId>,
    /// Show this cell of the sprite sheet. `None` keeps the cell that is
    /// shown.
    pub frame_index: Option<usize>,
    /// Start this interpolation of the sprite's position. `None` starts
    /// none.
    pub tween: Option<PositionTween>,
}

/// Mathematical model of [`TickCommands`].
pub struct TickCommandsModel {
    pub clip_switch: Option<ClipId>,
    pub frame_index: Option<usize>,
    pub tween: Option<TweenModel>,
}

impl View for TickCommands {
    type V = TickCommandsModel;

    open spec fn view(&self) -> TickCommandsModel {
        TickCommandsModel {
            clip_switch: self.clip_switch,
            frame_index: self.frame_index,
            tween: match self.tween {
                Some(tween) => Some(tween@),
                None => None,
            },
        }
    }
}

/// Mathematical model of [`MovementAnimationResolver`].
pub struct ResolverModel {
    pub movement: MovementModel,
    pub frames: FrameModel,
    pub catalog: Seq<ClipModel>,
}

/// The elapsed times of `inputs`, in order.
pub open spec fn elapsed_of(inputs: Seq<TickInput>) -> Seq<nat> {
    Seq::new(inputs.len(), |i: int| inputs[i].elapsed)
}

impl ResolverModel {
    /// The frames of clip `id` in the catalog.
    pub open spec fn frames_of(self, id: ClipId) -> Seq<usize> {
        self.catalog[id.slot() as int].frames
    }

    /// Movement, frame cycling and catalog are each well formed, and the
    /// frames that cycle are those of the clip that is shown.
    pub open spec fn wf(self) -> bool {
        &&& self.movement.wf()
        &&& self.frames.wf()
        &&& catalog_wf(self.catalog)
        &&& self.frames.frames == self.frames_of(self.movement.clip)
    }

    /// A freshly spawned actor at `(x, y)`, showing the first frame of the
    /// front idle clip.
    pub open spec fn initial(catalog: Seq<ClipModel>, x: int, y: int, interval: nat) -> ResolverModel {
        ResolverModel {
            movement: MovementModel::initial(x, y),
            frames: FrameModel::start(
                catalog[ClipId::idle_of(FacingDirection::Down).slot() as int].frames,
                interval,
            ),
            catalog,
        }
    }

    /// The state after one tick. The movement advances first. If that
    /// switches the clip, the new clip starts at its first frame; if not,
    /// the frames of the clip that is shown cycle on by the elapsed time.
    pub open spec fn step(self, held: HeldDirections, elapsed: nat) -> ResolverModel {
        ResolverModel {
            movement: self.movement.step(held, elapsed),
            frames: match self.movement.clip_switch(held, elapsed) {
                Some(id) => FrameModel::start(self.frames_of(id), self.frames.interval),
                None => self.frames.advance(elapsed),
            },
            catalog: self.catalog,
        }
    }

    /// What one tick asks of the host.
    pub open spec fn commands(self, held: HeldDirections, elapsed: nat) -> TickCommandsModel {
        TickCommandsModel {
            clip_switch: self.movement.clip_switch(held, elapsed),
            frame_index: match self.movement.clip_switch(held, elapsed) {
                Some(id) => Some(self.frames_of(id)[0]),
                None => if self.frames.completes(elapsed) {
                    Some(self.frames.advance(elapsed).shown())
                } else {
                    None
                },
            },
            tween: self.movement.tween(held, elapsed),
        }
    }

    /// The state after the ticks of `inputs`, in order.
    pub open spec fn run(self, inputs: Seq<TickInput>) -> ResolverModel
        decreases inputs.len(),
    {
        if inputs.len() == 0 {
            self
        } else {
            self.run(inputs.drop_last()).step(inputs.last().held, inputs.last().elapsed)
        }
    }
}

/// The movement-animation resolver of one actor: its movement state, the
/// frame cycling of the clip it shows, and the catalog of its clips.
#[derive(Clone, Debug)]
pub struct MovementAnimationResolver {
    state: ActorMovementState,
    animation: FrameAnimation,
    catalog: AnimationClipCatalog,
}

impl View for MovementAnimationResolver {
    type V = ResolverModel;

    closed spec fn view(&self) -> ResolverModel {
        ResolverModel { movement: self.state@, frames: self.animation@, catalog: self.catalog@ }
    }
}

impl MovementAnimationResolver {
    /// The resolver's invariant: that of its model, with coordinates that
    /// fit.
    pub open spec fn wf(&self) -> bool {
        self@.wf() && self@.movement.representable()
    }

    /// A resolver for an actor that spawns at `position` and shows each
    /// frame of a clip for `frame_interval_nanos`.
    pub fn new(catalog: AnimationClipCatalog, position: Vector2, frame_interval_nanos: u64) -> (resolver:
        Self)
        requires
            catalog.wf(),
        ensures
            resolver.wf(),
            resolver@ == ResolverModel::initial(
                catalog@,
                position.x as int,
                position.y as int,
                frame_interval_nanos as nat,
            ),
    {
        let state = ActorMovementState::new(position);
        let frames = copy_frames(catalog.frames(ClipId::idle(FacingDirection::Down)));
        let animation = FrameAnimation::new(frames, frame_interval_nanos).unwrap();
        MovementAnimationResolver { state, animation, catalog }
    }

    /// The movement state.
    pub fn state(&self) -> (state: &ActorMovementState)
        ensures
            state@ == self@.movement,
            self.wf() ==> state.wf(),
    {
        &self.state
    }

    /// The frame cycling of the clip that is shown.
    pub fn animation(&self) -> (animation: &FrameAnimation)
        ensures
            animation@ == self@.frames,
            self.wf() ==> animation.wf(),
    {
        &self.animation
    }

    /// The catalog of the actor's clips.
    pub fn catalog(&self) -> (catalog: &AnimationClipCatalog)
        ensures
            catalog@ == self@.catalog,
            self.wf() ==> catalog.wf(),
    {
        &self.catalog
    }

    /// Whether the position after a tick with these inputs still fits the
    /// coordinate type, so that [`Self::tick`] may be called.
    pub fn can_tick(&self, held: HeldDirections, elapsed_nanos: u64) -> (ok: bool)
        requires
            self.wf(),
        ensures
            ok == self@.movement.step(held, elapsed_nanos as nat).representable(),
    {
        self.state.can_tick(held, elapsed_nanos)
    }

    /// Advances the actor by one tick as [`Self::tick`] does, if the
    /// position after the tick fits the coordinate type. If it does not,
    /// the resolver is left as it is and `None` is returned.
    pub fn try_tick(&mut self, held: HeldDirections, elapsed_nanos: u64) -> (cmds: Option<
        TickCommands,
    >)
        requires
            old(self).wf(),
        ensures
            final(self).wf(),
            cmds.is_some() <==> old(self)@.movement.step(
                held,
                elapsed_nanos as nat,
            ).representable(),
            match cmds {
                Some(asked) => {
                    &&& final(self)@ == old(self)@.step(held, elapsed_nanos as nat)
                    &&& asked@ == old(self)@.commands(held, elapsed_nanos as nat)
                },
                None => *final(self) == *old(self),
            },
    {
        if self.can_tick(held, elapsed_nanos) {
            Some(self.tick(held, elapsed_nanos))
        } else {
            None
        }
    }

    /// Advances the actor by one tick: resolves the held keys into idling
    /// or a step, selects the clip, and cycles the frames of the clip that
    /// is shown. Returns what the host has to carry out.
    ///
    /// The position after the tick must fit the coordinate type.
    pub fn tick(&mut self, held: HeldDirections, elapsed_nanos: u64) -> (cmds: TickCommands)
        requires
            old(self).wf(),
            old(self)@.movement.step(held, elapsed_nanos as nat).representable(),
        ensures
            final(self).wf(),
            final(self)@ == old(self)@.step(held, elapsed_nanos as nat),
            cmds@ == old(self)@.commands(held, elapsed_nanos as nat),
    {
        let moves = self.state.tick(held, elapsed_nanos);
        let frame_index = match moves.clip_switch {
            Some(id) => {
                let frames = copy_frames(self.catalog.frames(id));
                self.animation.switch_clip(frames)
            },
            None => {
                proof {
                    old(self)@.frames.lemma_advance_keeps_wf(elapsed_nanos as nat);
                }
                self.animation.tick(elapsed_nanos)
            },
        };
        TickCommands { clip_switch: moves.clip_switch, frame_index, tween: moves.tween }
    }
}

/// A copy of `frames`.
fn copy_frames(frames: &Vec<usize>) -> (copy: Vec<usize>)
    ensures
        copy@ == frames@,
{
    let mut copy: Vec<usize> = Vec::new();
    let mut i: usize = 0;
    while i < frames.len()
        invariant
            i <= frames@.len(),
            copy@ == frames@.take(i as int),
        decreases frames@.len() - i,
    {
        copy.push(frames[i]);
        i = i + 1;
    }
    assert(frames@.take(i as int) == frames@);
    copy
}

impl ResolverModel {
    /// A tick keeps the invariant and the catalog.
    pub proof fn lemma_step_keeps_wf(self, held: HeldDirections, elapsed: nat)
        requires
            self.wf(),
        ensures
            self.step(held, elapsed).wf(),
            self.step(held, elapsed).catalog == self.catalog,
            self.step(held, elapsed).frames.interval == self.frames.interval,
    {
        self.movement.lemma_step_keeps_wf(held, elapsed);
        self.frames.lemma_advance_keeps_wf(elapsed);
        match self.movement.clip_switch(held, elapsed) {
            Some(id) => {
                id.lemma_slot_identifies();
                assert(clip_wf(self.catalog[id.slot() as int], id.kind));
            },
            None => {},
        }
    }

    /// Any run of ticks keeps the invariant and the catalog, and moves the
    /// actor as the movement alone would.
    pub proof fn lemma_run_keeps_wf(self, inputs: Seq<TickInput>)
        requires
            self.wf(),
        ensures
            self.run(inputs).wf(),
            self.run(inputs).catalog == self.catalog,
            self.run(inputs).frames.interval == self.frames.interval,
            self.run(inputs).movement == self.movement.run(inputs),
        decreases inputs.len(),
    {
        if inputs.len() > 0 {
            self.lemma_run_keeps_wf(inputs.drop_last());
            self.run(inputs.drop_last()).lemma_step_keeps_wf(
                inputs.last().held,
                inputs.last().elapsed,
            );
        }
    }

    /// A tick that keeps walking the way the actor walks leaves the walk
    /// cycle alone: whether the step in flight goes on, or completes and
    /// the next one begins at once, the clip is not switched and its
    /// frames cycle on by the elapsed time.
    pub proof fn lemma_walking_on_keeps_cycle(self, held: HeldDirections, elapsed: nat)
        requires
            self.wf(),
            self.movement.transitioning,
            held.chosen() == self.movement.facing,
        ensures
            self.step(held, elapsed).frames == self.frames.advance(elapsed),
            self.step(held, elapsed).movement.transitioning,
            self.step(held, elapsed).movement.clip == self.movement.clip,
            self.step(held, elapsed).movement.facing == self.movement.facing,
            self.commands(held, elapsed).clip_switch.is_none(),
    {
    }

    /// Frame cycling does not depend on steps starting and stopping: while
    /// the actor keeps walking one way, over any number of steps, the
    /// frames of the walk clip cycle exactly as they would by the elapsed
    /// times alone.
    pub proof fn lemma_walk_cycle_spans_steps(self, inputs: Seq<TickInput>)
        requires
            self.wf(),
            self.movement.transitioning,
            forall|i: int|
                0 <= i < inputs.len() ==> (#[trigger] inputs[i]).held.chosen()
                    == self.movement.facing,
        ensures
            self.run(inputs).frames == self.frames.run(elapsed_of(inputs)),
            self.run(inputs).movement.transitioning,
            self.run(inputs).movement.clip == self.movement.clip,
            self.run(inputs).movement.facing == self.movement.facing,
        decreases inputs.len(),
    {
        if inputs.len() > 0 {
            let front = inputs.drop_last();
            assert forall|i: int| 0 <= i < front.len() implies (#[trigger] front[i]).held.chosen()
                == self.movement.facing by {
                assert(front[i] == inputs[i]);
            }
            self.lemma_walk_cycle_spans_steps(front);
            self.lemma_run_keeps_wf(front);
            assert(inputs.last() == inputs[inputs.len() - 1]);
            self.run(front).lemma_walking_on_keeps_cycle(inputs.last().held, inputs.last().elapsed);
            assert(elapsed_of(inputs).drop_last() == elapsed_of(front));
            assert(elapsed_of(inputs).last() == inputs.last().elapsed);
        } else {
            assert(elapsed_of(inputs).len() == 0);
        }
    }

    /// A walk clip of N frames with interval T moves on by exactly one
    /// frame, wrapping after the last, for every T of elapsed time, however
    /// many steps begin and end meanwhile: while the actor keeps walking one
    /// way, after ticks that together take `total` nanoseconds the clip has
    /// moved on by `(timer + total) / T` frames modulo N.
    ///
    /// This holds of ticks that never carry the frame timer past the
    /// interval.
    pub proof fn lemma_walk_frames_per_interval(self, inputs: Seq<TickInput>)
        requires
            self.wf(),
            self.movement.transitioning,
            forall|i: int|
                0 <= i < inputs.len() ==> (#[trigger] inputs[i]).held.chosen()
                    == self.movement.facing,
            self.frames.interval > 0,
            self.frames.lands_on_intervals(elapsed_of(inputs)),
        ensures
            self.run(inputs).frames.current == (self.frames.current + (self.frames.timer
                + sum_elapsed(elapsed_of(inputs))) / self.frames.interval)
                % self.frames.frames.len(),
            self.run(inputs).frames.timer == (self.frames.timer + sum_elapsed(elapsed_of(inputs)))
                % self.frames.interval,
            self.run(inputs).frames.frames == self.frames.frames,
    {
        self.lemma_walk_cycle_spans_steps(inputs);
        self.frames.lemma_one_frame_per_interval(elapsed_of(inputs));
        self.frames.lemma_run_keeps_wf(elapsed_of(inputs));
    }

    /// An actor at rest with nothing held keeps its idle clip and the one
    /// cell of that clip for as long as nothing is held: no tick switches
    /// the clip, starts an interpolation or shows another cell.
    pub proof fn lemma_idle_frame_is_static(self, inputs: Seq<TickInput>)
        requires
            self.wf(),
            !self.movement.transitioning,
            forall|i: int| 0 <= i < inputs.len() ==> (#[trigger] inputs[i]).held.chosen().is_none(),
        ensures
            self.run(inputs).movement.clip == self.movement.clip,
            self.run(inputs).movement.clip == self.movement.idle_clip(),
            !self.run(inputs).movement.transitioning,
            self.run(inputs).movement.x == self.movement.x,
            self.run(inputs).movement.y == self.movement.y,
            self.run(inputs).frames.shown() == self.frames.shown(),
            forall|i: int|
                0 <= i < inputs.len() ==> {
                    let cmds = #[trigger] self.run(inputs.take(i)).commands(
                        inputs[i].held,
                        inputs[i].elapsed,
                    );
                    &&& cmds.clip_switch.is_none()
                    &&& cmds.tween.is_none()
                    &&& cmds.frame_index.is_none() || cmds.frame_index == Some(self.frames.shown())
                },
        decreases inputs.len(),
    {
        let clip = self.movement.clip;
        clip.lemma_slot_identifies();
        assert(clip_wf(self.catalog[clip.slot() as int], clip.kind));
        assert(self.frames.frames.len() == 1);
        if inputs.len() > 0 {
            let front = inputs.drop_last();
            assert forall|i: int| 0 <= i < front.len() implies (#[trigger] front[i]).held.chosen().is_none() by {
                assert(front[i] == inputs[i]);
            }
            self.lemma_idle_frame_is_static(front);
            self.lemma_run_keeps_wf(front);
            assert(inputs.last() == inputs[inputs.len() - 1]);
            let before = self.run(front);
            before.frames.lemma_advance_keeps_wf(inputs.last().elapsed);
            assert(before.frames.frames == self.frames.frames);
            assert forall|i: int| 0 <= i < inputs.len() implies {
                let cmds = #[trigger] self.run(inputs.take(i)).commands(
                    inputs[i].held,
                    inputs[i].elapsed,
                );
                &&& cmds.clip_switch.is_none()
                &&& cmds.tween.is_none()
                &&& cmds.frame_index.is_none() || cmds.frame_index == Some(self.frames.shown())
            } by {
                if i < front.len() {
                    assert(front.take(i) == inputs.take(i));
                    assert(front[i] == inputs[i]);
                } else {
                    assert(inputs.take(i) == front);
                }
            }
        }
    }
}

} // verus!
