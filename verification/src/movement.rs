use vstd::prelude::*;
use crate::clip::ClipId;
use crate::direction::{FacingDirection, HeldDirections};
use crate::vector::{Point, Vector2};

verus! {

/// World distance covered by one step.
pub const STEP_MAGNITUDE: i32 = 27;

/// Duration of one step, in nanoseconds (250 ms).
pub const TRANSITION_NANOS: u64 = 250_000_000;

/// Shape of the curve along which the host moves the sprite between the
/// two ends of a step.
#[derive(Clone, Copy, Debug, PartialEq, Eq, Structural)]
pub enum Easing {
    /// Slow start and end, faster middle.
    QuadraticInOut,
}

/// Asks the host to move the actor's sprite from `start` to `end` over
/// `duration_nanos`, eased by `easing`. The actor's logical position is
/// already `end` when this is issued.
#[derive(Clone, Copy, Debug, PartialEq, Eq, Structural)]
pub struct PositionTween {
    pub start: Vector2,
    pub end: Vector2,
    pub duration_nanos: u64,
    pub easing: Easing,
}

/// Mathematical model of [`PositionTween`].
pub struct TweenModel {
    pub start: Point,
    pub end: Point,
    pub duration: nat,
    pub easing: Easing,
}

impl View for PositionTween {
    type V = TweenModel;

    open spec fn view(&self) -> TweenModel {
        TweenModel {
            start: self.start@,
            end: self.end@,
            duration: self.duration_nanos as nat,
            easing: self.easing,
        }
    }
}

/// What one movement tick asks of the host.
#[derive(Clone, Copy, Debug, PartialEq, Eq, Structural)]
pub struct MoveCommands {
    /// Show this clip from its first frame. `None` keeps the clip that is
    /// playing, at the frame it has reached.
    pub clip_switch: Option<ClipId>,
    /// Start this interpolation. `None` starts none.
    pub tween: Option<PositionTween>,
}

/// Mathematical model of [`MoveCommands`].
pub struct MoveCommandsModel {
    pub clip_switch: Option<ClipId>,
    pub tween: Option<TweenModel>,
}

impl MoveCommandsModel {
    /// Nothing is asked of the host.
    pub open spec fn nothing() -> MoveCommandsModel {
        MoveCommandsModel { clip_switch: None, tween: None }
    }
}

impl View for MoveCommands {
    type V = MoveCommandsModel;

    open spec fn view(&self) -> MoveCommandsModel {
        MoveCommandsModel {
            clip_switch: self.clip_switch,
            tween: match self.tween {
                Some(tween) => Some(tween@),
                None => None,
            },
        }
    }
}

/// The held keys and the elapsed nanoseconds of one tick.
pub struct TickInput {
    pub held: HeldDirections,
    pub elapsed: nat,
}

/// Mathematical model of [`ActorMovementState`].
pub struct MovementModel {
    pub x: int,
    pub y: int,
    /// Direction of the last step that began; `None` before the first.
    pub facing: Option<FacingDirection>,
    /// Whether a step is in flight.
    pub transitioning: bool,
    /// Nanoseconds since the current step began, capped at the step's
    /// duration.
    pub timer: nat,
    pub clip: ClipId,
}

/// Sum of the elapsed times of `inputs`.
pub open spec fn total_elapsed(inputs: Seq<TickInput>) -> nat
    decreases inputs.len(),
{
    if inputs.len() == 0 {
        0
    } else {
        total_elapsed(inputs.drop_last()) + inputs.last().elapsed
    }
}

impl MovementModel {
    /// A freshly spawned actor at `(x, y)`: it has never stepped and shows
    /// the front idle clip.
    pub open spec fn initial(x: int, y: int) -> MovementModel {
        MovementModel {
            x,
            y,
            facing: None,
            transitioning: false,
            timer: 0,
            clip: ClipId::idle_of(FacingDirection::Down),
        }
    }

    /// The idle clip that matches the facing; the front one while the actor
    /// has never stepped.
    pub open spec fn idle_clip(self) -> ClipId {
        match self.facing {
            Some(d) => ClipId::idle_of(d),
            None => ClipId::idle_of(FacingDirection::Down),
        }
    }

    /// A step in flight has not run its full duration and has a direction;
    /// the clip is the walk clip of the step in flight, else the idle clip
    /// of the facing.
    pub open spec fn wf(self) -> bool {
        &&& self.timer <= TRANSITION_NANOS
        &&& self.transitioning ==> self.timer < TRANSITION_NANOS
        &&& match self.facing {
            Some(d) => self.clip == if self.transitioning {
                ClipId::walk_of(d)
            } else {
                ClipId::idle_of(d)
            },
            None => !self.transitioning && self.clip == ClipId::idle_of(FacingDirection::Down),
        }
    }

    /// Both coordinates fit the machine type that stores them.
    pub open spec fn representable(self) -> bool {
        &&& i32::MIN <= self.x <= i32::MAX
        &&& i32::MIN <= self.y <= i32::MAX
    }

    /// The position.
    pub open spec fn position(self) -> Point {
        Point { x: self.x, y: self.y }
    }

    /// Whether the step in flight is still unfinished once `elapsed` more
    /// nanoseconds have passed.
    pub open spec fn in_flight_after(self, elapsed: nat) -> bool {
        self.transitioning && self.timer + elapsed < TRANSITION_NANOS
    }

    /// Whether a tick with these inputs begins a step.
    pub open spec fn begins_step(self, held: HeldDirections, elapsed: nat) -> bool {
        !self.in_flight_after(elapsed) && held.chosen().is_some()
    }

    /// The state after one tick.
    ///
    /// While a step is in flight only the timer advances. Otherwise a held
    /// direction begins a step at once: the position moves one step, the
    /// facing and the walk clip follow the direction, and the timer
    /// restarts. With nothing held the actor idles toward its facing.
    pub open spec fn step(self, held: HeldDirections, elapsed: nat) -> MovementModel {
        if self.in_flight_after(elapsed) {
            MovementModel { timer: self.timer + elapsed, ..self }
        } else {
            match held.chosen() {
                Some(d) => MovementModel {
                    x: self.x + d.dx() * STEP_MAGNITUDE,
                    y: self.y + d.dy() * STEP_MAGNITUDE,
                    facing: Some(d),
                    transitioning: true,
                    timer: 0,
                    clip: ClipId::walk_of(d),
                },
                None => MovementModel {
                    transitioning: false,
                    timer: if self.timer + elapsed < TRANSITION_NANOS {
                        self.timer + elapsed
                    } else {
                        TRANSITION_NANOS as nat
                    },
                    clip: self.idle_clip(),
                    ..self
                },
            }
        }
    }

    /// The clip that one tick switches to, if it switches.
    pub open spec fn clip_switch(self, held: HeldDirections, elapsed: nat) -> Option<ClipId> {
        let next = self.step(held, elapsed).clip;
        if next == self.clip {
            None
        } else {
            Some(next)
        }
    }

    /// The interpolation that one tick starts, if it begins a step.
    pub open spec fn tween(self, held: HeldDirections, elapsed: nat) -> Option<TweenModel> {
        if self.begins_step(held, elapsed) {
            Some(
                TweenModel {
                    start: self.position(),
                    end: self.step(held, elapsed).position(),
                    duration: TRANSITION_NANOS as nat,
                    easing: Easing::QuadraticInOut,
                },
            )
        } else {
            None
        }
    }

    /// What one tick asks of the host.
    pub open spec fn commands(self, held: HeldDirections, elapsed: nat) -> MoveCommandsModel {
        MoveCommandsModel {
            clip_switch: self.clip_switch(held, elapsed),
            tween: self.tween(held, elapsed),
        }
    }

    /// The state after the ticks of `inputs`, in order.
    pub open spec fn run(self, inputs: Seq<TickInput>) -> MovementModel
        decreases inputs.len(),
    {
        if inputs.len() == 0 {
            self
        } else {
            self.run(inputs.drop_last()).step(inputs.last().held, inputs.last().elapsed)
        }
    }
}

/// Per-actor movement state: where the actor is, where it faces, whether a
/// step is in flight and for how long, and which clip is shown.
#[derive(Clone, Copy, Debug)]
pub struct ActorMovementState {
    position: Vector2,
    facing: Option<FacingDirection>,
    is_transitioning: bool,
    transition_timer: u64,
    active_clip: ClipId,
}

impl View for ActorMovementState {
    type V = MovementModel;

    closed spec fn view(&self) -> MovementModel {
        MovementModel {
            x: self.position.x as int,
            y: self.position.y as int,
            facing: self.facing,
            transitioning: self.is_transitioning,
            timer: self.transition_timer as nat,
            clip: self.active_clip,
        }
    }
}

impl ActorMovementState {
    /// The state's invariant: that of its model, with coordinates that fit.
    pub open spec fn wf(&self) -> bool {
        self@.wf() && self@.representable()
    }

    /// A freshly spawned actor at `position`.
    pub fn new(position: Vector2) -> (state: Self)
        ensures
            state.wf(),
            state@ == MovementModel::initial(position.x as int, position.y as int),
    {
        ActorMovementState {
            position,
            facing: None,
            is_transitioning: false,
            transition_timer: 0,
            active_clip: ClipId::idle(FacingDirection::Down),
        }
    }

    /// The logical position. During a step it is already the step's end.
    pub fn position(&self) -> (p: Vector2)
        ensures
            p@ == self@.position(),
            p.x == self@.x,
            p.y == self@.y,
    {
        self.position
    }

    /// Direction of the last step that began, or `None` before the first.
    pub fn facing(&self) -> (f: Option<FacingDirection>)
        ensures
            f == self@.facing,
    {
        self.facing
    }

    /// Whether a step is in flight.
    pub fn is_transitioning(&self) -> (t: bool)
        ensures
            t == self@.transitioning,
    {
        self.is_transitioning
    }

    /// Nanoseconds since the current step began, capped at its duration.
    pub fn transition_timer(&self) -> (t: u64)
        ensures
            t == self@.timer,
    {
        self.transition_timer
    }

    /// The clip that is shown.
    pub fn active_clip(&self) -> (c: ClipId)
        ensures
            c == self@.clip,
    {
        self.active_clip
    }

    /// Whether the position after a tick with these inputs still fits the
    /// coordinate type, so that [`Self::tick`] may be called.
    pub fn can_tick(&self, held: HeldDirections, elapsed_nanos: u64) -> (ok: bool)
        requires
            self.wf(),
        ensures
            ok == self@.step(held, elapsed_nanos as nat).representable(),
    {
        let in_flight = self.is_transitioning && elapsed_nanos < TRANSITION_NANOS
            - self.transition_timer;
        if in_flight {
            return true;
        }
        match held.resolve() {
            Some(FacingDirection::Right) => self.position.x <= i32::MAX - STEP_MAGNITUDE,
            Some(FacingDirection::Left) => self.position.x >= i32::MIN + STEP_MAGNITUDE,
            Some(FacingDirection::Up) => self.position.y <= i32::MAX - STEP_MAGNITUDE,
            Some(FacingDirection::Down) => self.position.y >= i32::MIN + STEP_MAGNITUDE,
            None => true,
        }
    }

    /// Advances the actor by one tick as [`Self::tick`] does, if the
    /// position after the tick fits the coordinate type. If it does not,
    /// the actor is left as it is and `None` is returned.
    pub fn try_tick(&mut self, held: HeldDirections, elapsed_nanos: u64) -> (cmds: Option<
        MoveCommands,
    >)
        requires
            old(self).wf(),
        ensures
            final(self).wf(),
            cmds.is_some() <==> old(self)@.step(held, elapsed_nanos as nat).representable(),
            match cmds {
                Some(asked) => {
                    &&& final(self)@ == old(self)@.step(held, elapsed_nanos as nat)
                    &&& asked@ == old(self)@.commands(held, elapsed_nanos as nat)
                },
                None => *final(self) == *old(self),
            },
    {
        if self.can_tick(held, elapsed_nanos) {
            Some(self.tick(held, elapsed_nanos))
        } else {
            None
        }
    }

    /// Advances the actor by one tick.
    ///
    /// The timer advances by `elapsed_nanos`, and a step in flight that
    /// reaches its duration completes. While a step is still in flight the
    /// held keys are ignored. Otherwise the held keys are resolved in the
    /// order Right, Left, Down, Up: a direction begins a new step, none
    /// selects the idle clip of the facing.
    ///
    /// The position after the tick must fit the coordinate type.
    pub fn tick(&mut self, held: HeldDirections, elapsed_nanos: u64) -> (cmds: MoveCommands)
        requires
            old(self).wf(),
            old(self)@.step(held, elapsed_nanos as nat).representable(),
        ensures
            final(self).wf(),
            final(self)@ == old(self)@.step(held, elapsed_nanos as nat),
            cmds@ == old(self)@.commands(held, elapsed_nanos as nat),
    {
        let remaining: u64 = TRANSITION_NANOS - self.transition_timer;
        if self.is_transitioning && elapsed_nanos < remaining {
            self.transition_timer = self.transition_timer + elapsed_nanos;
            return MoveCommands { clip_switch: None, tween: None };
        }
        match held.resolve() {
            Some(dir) => {
                let unit = dir.unit_vector();
                let start = self.position;
                let end = Vector2 {
                    x: start.x + unit.x * STEP_MAGNITUDE,
                    y: start.y + unit.y * STEP_MAGNITUDE,
                };
                let clip = ClipId::walk(dir);
                let clip_switch = if clip == self.active_clip {
                    None
                } else {
                    Some(clip)
                };
                self.facing = Some(dir);
                self.active_clip = clip;
                self.position = end;
                self.is_transitioning = true;
                self.transition_timer = 0;
                MoveCommands {
                    clip_switch,
                    tween: Some(
                        PositionTween {
                            start,
                            end,
                            duration_nanos: TRANSITION_NANOS,
                            easing: Easing::QuadraticInOut,
                        },
                    ),
                }
            },
            None => {
                let clip = match self.facing {
                    Some(d) => ClipId::idle(d),
                    None => ClipId::idle(FacingDirection::Down),
                };
                let clip_switch = if clip == self.active_clip {
                    None
                } else {
                    Some(clip)
                };
                self.active_clip = clip;
                self.is_transitioning = false;
                self.transition_timer = if elapsed_nanos < remaining {
                    self.transition_timer + elapsed_nanos
                } else {
                    TRANSITION_NANOS
                };
                MoveCommands { clip_switch, tween: None }
            },
        }
    }
}

impl MovementModel {
    /// A tick keeps the invariant.
    pub proof fn lemma_step_keeps_wf(self, held: HeldDirections, elapsed: nat)
        requires
            self.wf(),
        ensures
            self.step(held, elapsed).wf(),
    {
    }

    /// Any run of ticks keeps the invariant.
    pub proof fn lemma_run_keeps_wf(self, inputs: Seq<TickInput>)
        requires
            self.wf(),
        ensures
            self.run(inputs).wf(),
        decreases inputs.len(),
    {
        if inputs.len() > 0 {
            self.lemma_run_keeps_wf(inputs.drop_last());
            self.run(inputs.drop_last()).lemma_step_keeps_wf(
                inputs.last().held,
                inputs.last().elapsed,
            );
        }
    }

    /// Whenever no step remains in flight, a tick begins a step in the
    /// direction that the held keys resolve to: the walk clip of that
    /// direction is selected, and asked of the host exactly when another
    /// clip was shown; the position moves by one step; and the
    /// interpolation runs from the old position to the new one.
    pub proof fn lemma_step_follows_chosen(self, held: HeldDirections, elapsed: nat)
        requires
            self.wf(),
            !self.in_flight_after(elapsed),
            held.chosen().is_some(),
        ensures
            ({
                let d = held.chosen().unwrap();
                let next = self.step(held, elapsed);
                &&& next.clip == ClipId::walk_of(d)
                &&& next.facing == Some(d)
                &&& next.transitioning
                &&& next.timer == 0
                &&& next.x == self.x + d.dx() * STEP_MAGNITUDE
                &&& next.y == self.y + d.dy() * STEP_MAGNITUDE
                &&& self.clip_switch(held, elapsed) == if self.clip == ClipId::walk_of(d) {
                    None
                } else {
                    Some(ClipId::walk_of(d))
                }
                &&& self.tween(held, elapsed) == Some(
                    TweenModel {
                        start: Point { x: self.x, y: self.y },
                        end: Point {
                            x: self.x + d.dx() * STEP_MAGNITUDE,
                            y: self.y + d.dy() * STEP_MAGNITUDE,
                        },
                        duration: TRANSITION_NANOS as nat,
                        easing: Easing::QuadraticInOut,
                    },
                )
            }),
    {
    }

    /// For each of the four directions: holding exactly that direction
    /// while no step is in flight selects its walk clip and begins a step
    /// that ends one step magnitude away in that direction.
    pub proof fn lemma_single_direction_starts_step(self, dir: FacingDirection, elapsed: nat)
        requires
            self.wf(),
            !self.transitioning,
        ensures
            ({
                let held = HeldDirections::exactly(dir);
                let next = self.step(held, elapsed);
                &&& next.clip == ClipId::walk_of(dir)
                &&& next.facing == Some(dir)
                &&& next.transitioning
                &&& next.timer == 0
                &&& next.x == self.x + dir.dx() * STEP_MAGNITUDE
                &&& next.y == self.y + dir.dy() * STEP_MAGNITUDE
                &&& self.clip_switch(held, elapsed) == Some(ClipId::walk_of(dir))
                &&& self.tween(held, elapsed) == Some(
                    TweenModel {
                        start: Point { x: self.x, y: self.y },
                        end: Point {
                            x: self.x + dir.dx() * STEP_MAGNITUDE,
                            y: self.y + dir.dy() * STEP_MAGNITUDE,
                        },
                        duration: TRANSITION_NANOS as nat,
                        easing: Easing::QuadraticInOut,
                    },
                )
            }),
    {
        HeldDirections::lemma_exactly_chooses(dir);
        self.lemma_step_follows_chosen(HeldDirections::exactly(dir), elapsed);
    }

    /// Opposing keys are resolved, never rejected: whenever no step remains
    /// in flight, Right and Left held together step the actor to the right
    /// on the right walk clip, whatever else is held; Down and Up held
    /// together, with neither Right nor Left, step it down on the front walk
    /// clip.
    pub proof fn lemma_opposing_keys_follow_priority(self, held: HeldDirections, elapsed: nat)
        requires
            self.wf(),
            !self.in_flight_after(elapsed),
        ensures
            held.right && held.left ==> {
                let next = self.step(held, elapsed);
                &&& next.clip == ClipId::walk_of(FacingDirection::Right)
                &&& next.facing == Some(FacingDirection::Right)
                &&& next.transitioning
                &&& next.x == self.x + STEP_MAGNITUDE
                &&& next.y == self.y
            },
            held.down && held.up && !held.right && !held.left ==> {
                let next = self.step(held, elapsed);
                &&& next.clip == ClipId::walk_of(FacingDirection::Down)
                &&& next.facing == Some(FacingDirection::Down)
                &&& next.transitioning
                &&& next.x == self.x
                &&& next.y == self.y - STEP_MAGNITUDE
            },
    {
        held.lemma_priority_order();
        if held.chosen().is_some() {
            self.lemma_step_follows_chosen(held, elapsed);
        }
    }

    /// While a step is in flight a tick ignores the held keys: whatever is
    /// held, only the timer advances and nothing is asked of the host.
    pub proof fn lemma_in_flight_ignores_input(self, held: HeldDirections, elapsed: nat)
        requires
            self.wf(),
            self.in_flight_after(elapsed),
        ensures
            self.step(held, elapsed) == (MovementModel { timer: self.timer + elapsed, ..self }),
            self.commands(held, elapsed) == MoveCommandsModel::nothing(),
    {
    }

    /// Once a step has begun, no new step begins until its full duration
    /// has elapsed, whatever keys are held meanwhile: over any run of ticks
    /// that together stay short of the remaining duration, position, facing
    /// and clip stay as they are, the step stays in flight, and no tick
    /// asks anything of the host.
    pub proof fn lemma_transition_is_atomic(self, inputs: Seq<TickInput>)
        requires
            self.wf(),
            self.transitioning,
            self.timer + total_elapsed(inputs) < TRANSITION_NANOS,
        ensures
            self.run(inputs) == (MovementModel {
                timer: self.timer + total_elapsed(inputs),
                ..self
            }),
            forall|i: int|
                0 <= i < inputs.len() ==> #[trigger] self.run(inputs.take(i)).commands(
                    inputs[i].held,
                    inputs[i].elapsed,
                ) == MoveCommandsModel::nothing(),
        decreases inputs.len(),
    {
        if inputs.len() > 0 {
            let front = inputs.drop_last();
            self.lemma_transition_is_atomic(front);
            assert forall|i: int| 0 <= i < inputs.len() implies #[trigger] self.run(
                inputs.take(i),
            ).commands(inputs[i].held, inputs[i].elapsed) == MoveCommandsModel::nothing() by {
                if i < front.len() {
                    assert(front.take(i) == inputs.take(i));
                    assert(front[i] == inputs[i]);
                } else {
                    assert(inputs.take(i) == front);
                }
            }
        }
    }

    /// After a step completes with nothing held, the actor idles toward
    /// the direction of that step, not toward the default: begin a step in
    /// direction `d`, let any ticks pass while it is in flight, and let the
    /// tick that completes it find no key held. The clip is then the idle
    /// clip of `d`, and the actor rests where the step ended.
    pub proof fn lemma_idle_matches_last_step(
        self,
        begin: TickInput,
        during: Seq<TickInput>,
        last_elapsed: nat,
    )
        requires
            self.wf(),
            self.begins_step(begin.held, begin.elapsed),
            total_elapsed(during) < TRANSITION_NANOS,
            total_elapsed(during) + last_elapsed >= TRANSITION_NANOS,
        ensures
            ({
                let d = begin.held.chosen().unwrap();
                let started = self.step(begin.held, begin.elapsed);
                let rest = started.run(during).step(HeldDirections::nothing(), last_elapsed);
                &&& !rest.transitioning
                &&& rest.clip == ClipId::idle_of(d)
                &&& rest.facing == Some(d)
                &&& rest.x == started.x
                &&& rest.y == started.y
            }),
    {
        let started = self.step(begin.held, begin.elapsed);
        self.lemma_step_follows_chosen(begin.held, begin.elapsed);
        self.lemma_step_keeps_wf(begin.held, begin.elapsed);
        started.lemma_transition_is_atomic(during);
    }

    /// An actor that has never been given input idles toward the front:
    /// from the initial state, ticks with nothing held leave the front idle
    /// clip showing, the facing unset and the position untouched.
    pub proof fn lemma_untouched_actor_idles_front(x: int, y: int, inputs: Seq<TickInput>)
        requires
            forall|i: int| 0 <= i < inputs.len() ==> (#[trigger] inputs[i]).held.chosen().is_none(),
        ensures
            ({
                let now = Self::initial(x, y).run(inputs);
                &&& now.clip == ClipId::idle_of(FacingDirection::Down)
                &&& now.idle_clip() == ClipId::idle_of(FacingDirection::Down)
                &&& now.facing.is_none()
                &&& !now.transitioning
                &&& now.x == x
                &&& now.y == y
            }),
        decreases inputs.len(),
    {
        if inputs.len() > 0 {
            let front = inputs.drop_last();
            assert forall|i: int| 0 <= i < front.len() implies (#[trigger] front[i]).held.chosen().is_none() by {
                assert(front[i] == inputs[i]);
            }
            Self::lemma_untouched_actor_idles_front(x, y, front);
            assert(inputs.last() == inputs[inputs.len() - 1]);
        }
    }

    /// With nothing held and no step in flight the clip stays the idle
    /// clip of the facing for as long as nothing is held, and no tick asks
    /// anything of the host.
    pub proof fn lemma_idle_is_stable(self, inputs: Seq<TickInput>)
        requires
            self.wf(),
            !self.transitioning,
            forall|i: int| 0 <= i < inputs.len() ==> (#[trigger] inputs[i]).held.chosen().is_none(),
        ensures
            ({
                let now = self.run(inputs);
                &&& now.clip == self.clip
                &&& now.facing == self.facing
                &&& !now.transitioning
                &&& now.x == self.x
                &&& now.y == self.y
            }),
            forall|i: int|
                0 <= i < inputs.len() ==> #[trigger] self.run(inputs.take(i)).commands(
                    inputs[i].held,
                    inputs[i].elapsed,
                ) == MoveCommandsModel::nothing(),
        decreases inputs.len(),
    {
        if inputs.len() > 0 {
            let front = inputs.drop_last();
            assert forall|i: int| 0 <= i < front.len() implies (#[trigger] front[i]).held.chosen().is_none() by {
                assert(front[i] == inputs[i]);
            }
            self.lemma_idle_is_stable(front);
            self.lemma_run_keeps_wf(front);
            assert(inputs.last() == inputs[inputs.len() - 1]);
            assert forall|i: int| 0 <= i < inputs.len() implies #[trigger] self.run(
                inputs.take(i),
            ).commands(inputs[i].held, inputs[i].elapsed) == MoveCommandsModel::nothing() by {
                if i < front.len() {
                    assert(front.take(i) == inputs.take(i));
                    assert(front[i] == inputs[i]);
                } else {
                    assert(inputs.take(i) == front);
                }
            }
        }
    }
}

} // verus!
