use vstd::prelude::*;
use crate::vector::Vector2;

verus! {

/// One of the four cardinal directions an actor can face or step toward.
#[derive(Clone, Copy, Debug, PartialEq, Eq, Structural)]
pub enum FacingDirection {
    Up,
    Down,
    Left,
    Right,
}

impl FacingDirection {
    /// Horizontal component of the unit vector of this direction.
    pub open spec fn dx(self) -> int {
        match self {
            FacingDirection::Right => 1,
            FacingDirection::Left => -1,
            _ => 0,
        }
    }

    /// Vertical component of the unit vector of this direction. Up is
    /// positive.
    pub open spec fn dy(self) -> int {
        match self {
            FacingDirection::Up => 1,
            FacingDirection::Down => -1,
            _ => 0,
        }
    }

    /// Rank in the tie-break order Right, Left, Down, Up. A lower rank wins.
    pub open spec fn priority(self) -> nat {
        match self {
            FacingDirection::Right => 0,
            FacingDirection::Left => 1,
            FacingDirection::Down => 2,
            FacingDirection::Up => 3,
        }
    }

    /// The unit vector of this direction.
    pub fn unit_vector(self) -> (v: Vector2)
        ensures
            v.x == self.dx(),
            v.y == self.dy(),
    {
        match self {
            FacingDirection::Right => Vector2 { x: 1, y: 0 },
            FacingDirection::Left => Vector2 { x: -1, y: 0 },
            FacingDirection::Down => Vector2 { x: 0, y: -1 },
            FacingDirection::Up => Vector2 { x: 0, y: 1 },
        }
    }
}

/// A snapshot of which of the four direction keys are held during one tick.
/// Any combination may be held at once.
#[derive(Clone, Copy, Debug, PartialEq, Eq, Structural)]
pub struct HeldDirections {
    pub up: bool,
    pub down: bool,
    pub left: bool,
    pub right: bool,
}

impl HeldDirections {
    /// Whether the key of `dir` is held.
    pub open spec fn holds(self, dir: FacingDirection) -> bool {
        match dir {
            FacingDirection::Up => self.up,
            FacingDirection::Down => self.down,
            FacingDirection::Left => self.left,
            FacingDirection::Right => self.right,
        }
    }

    /// The direction that a tick acts on: the first held one in the order
    /// Right, Left, Down, Up, or `None` when no key is held.
    pub open spec fn chosen(self) -> Option<FacingDirection> {
        if self.right {
            Some(FacingDirection::Right)
        } else if self.left {
            Some(FacingDirection::Left)
        } else if self.down {
            Some(FacingDirection::Down)
        } else if self.up {
            Some(FacingDirection::Up)
        } else {
            None
        }
    }

    /// The snapshot with no key held.
    pub open spec fn nothing() -> Self {
        HeldDirections { up: false, down: false, left: false, right: false }
    }

    /// The snapshot with exactly the key of `dir` held.
    pub open spec fn exactly(dir: FacingDirection) -> Self {
        HeldDirections {
            up: dir == FacingDirection::Up,
            down: dir == FacingDirection::Down,
            left: dir == FacingDirection::Left,
            right: dir == FacingDirection::Right,
        }
    }

    /// No key held.
    pub fn none() -> (held: Self)
        ensures
            held == Self::nothing(),
    {
        HeldDirections { up: false, down: false, left: false, right: false }
    }

    /// Exactly the key of `dir` held.
    pub fn only(dir: FacingDirection) -> (held: Self)
        ensures
            held == Self::exactly(dir),
    {
        match dir {
            FacingDirection::Up => HeldDirections { up: true, down: false, left: false, right: false },
            FacingDirection::Down => HeldDirections { up: false, down: true, left: false, right: false },
            FacingDirection::Left => HeldDirections { up: false, down: false, left: true, right: false },
            FacingDirection::Right => HeldDirections { up: false, down: false, left: false, right: true },
        }
    }

    /// Whether the key of `dir` is held.
    pub fn pressed(&self, dir: FacingDirection) -> (held: bool)
        ensures
            held == self.holds(dir),
    {
        match dir {
            FacingDirection::Up => self.up,
            FacingDirection::Down => self.down,
            FacingDirection::Left => self.left,
            FacingDirection::Right => self.right,
        }
    }

    /// Picks the direction to act on. When several keys are held the first
    /// in the order Right, Left, Down, Up wins; opposing keys are resolved
    /// the same way and never rejected.
    pub fn resolve(&self) -> (dir: Option<FacingDirection>)
        ensures
            dir == self.chosen(),
    {
        if self.right {
            Some(FacingDirection::Right)
        } else if self.left {
            Some(FacingDirection::Left)
        } else if self.down {
            Some(FacingDirection::Down)
        } else if self.up {
            Some(FacingDirection::Up)
        } else {
            None
        }
    }

    /// The chosen direction is held, and no held direction ranks before it;
    /// nothing is chosen exactly when nothing is held.
    pub proof fn lemma_chosen_is_first_held(self)
        ensures
            match self.chosen() {
                Some(d) => self.holds(d) && forall|e: FacingDirection|
                    self.holds(e) ==> d.priority() <= e.priority(),
                None => forall|e: FacingDirection| !self.holds(e),
            },
    {
    }

    /// Right beats Left when both are held, whatever else is held. Down
    /// beats Up when both are held and neither Right nor Left is.
    pub proof fn lemma_priority_order(self)
        ensures
            self.right && self.left ==> self.chosen() == Some(FacingDirection::Right),
            self.down && self.up && !self.right && !self.left ==> self.chosen() == Some(
                FacingDirection::Down,
            ),
    {
    }

    /// Holding exactly one key chooses its direction.
    pub proof fn lemma_exactly_chooses(dir: FacingDirection)
        ensures
            Self::exactly(dir).chosen() == Some(dir),
            Self::nothing().chosen().is_none(),
    {
    }
}

} // verus!
