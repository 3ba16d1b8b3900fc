use vstd::prelude::*;
use crate::direction::FacingDirection;

verus! {

/// Whether a clip shows the actor standing or walking.
#[derive(Clone, Copy, Debug, PartialEq, Eq, Structural)]
pub enum ClipKind {
    Idle,
    Walk,
}

/// Identifies one of the eight animation clips: a facing and a kind.
#[derive(Clone, Copy, Debug, PartialEq, Eq, Structural)]
pub struct ClipId {
    pub facing: FacingDirection,
    pub kind: ClipKind,
}

/// Number of clips: four facings, each idle and walking.
pub const CLIP_COUNT: usize = 8;

impl ClipId {
    /// The idle clip of `facing`.
    pub open spec fn idle_of(facing: FacingDirection) -> ClipId {
        ClipId { facing, kind: ClipKind::Idle }
    }

    /// The walk clip of `facing`.
    pub open spec fn walk_of(facing: FacingDirection) -> ClipId {
        ClipId { facing, kind: ClipKind::Walk }
    }

    /// Position of this clip in the catalog: the idle clips of Left, Right,
    /// Down and Up, then the walk clips in the same order.
    pub open spec fn slot(self) -> nat {
        let base: nat = match self.kind {
            ClipKind::Idle => 0,
            ClipKind::Walk => 4,
        };
        let offset: nat = match self.facing {
            FacingDirection::Left => 0,
            FacingDirection::Right => 1,
            FacingDirection::Down => 2,
            FacingDirection::Up => 3,
        };
        base + offset
    }

    /// The clip that stands at `slot`, for `slot` below eight.
    pub open spec fn at_slot(slot: nat) -> ClipId {
        ClipId {
            facing: if slot % 4 == 0 {
                FacingDirection::Left
            } else if slot % 4 == 1 {
                FacingDirection::Right
            } else if slot % 4 == 2 {
                FacingDirection::Down
            } else {
                FacingDirection::Up
            },
            kind: if slot < 4 {
                ClipKind::Idle
            } else {
                ClipKind::Walk
            },
        }
    }

    /// The name under which a host knows this clip.
    pub open spec fn label(self) -> Seq<char> {
        match (self.facing, self.kind) {
            (FacingDirection::Left, ClipKind::Idle) => "leftidle"@,
            (FacingDirection::Right, ClipKind::Idle) => "rightidle"@,
            (FacingDirection::Down, ClipKind::Idle) => "frontidle"@,
            (FacingDirection::Up, ClipKind::Idle) => "upwardidle"@,
            (FacingDirection::Left, ClipKind::Walk) => "leftwalk"@,
            (FacingDirection::Right, ClipKind::Walk) => "rightwalk"@,
            (FacingDirection::Down, ClipKind::Walk) => "frontwalk"@,
            (FacingDirection::Up, ClipKind::Walk) => "upwardwalk"@,
        }
    }

    pub fn idle(facing: FacingDirection) -> (id: ClipId)
        ensures
            id == Self::idle_of(facing),
    {
        ClipId { facing, kind: ClipKind::Idle }
    }

    pub fn walk(facing: FacingDirection) -> (id: ClipId)
        ensures
            id == Self::walk_of(facing),
    {
        ClipId { facing, kind: ClipKind::Walk }
    }

    /// Position of this clip in the catalog.
    pub fn index(self) -> (i: usize)
        ensures
            i == self.slot(),
            i < CLIP_COUNT,
    {
        let base: usize = match self.kind {
            ClipKind::Idle => 0,
            ClipKind::Walk => 4,
        };
        let offset: usize = match self.facing {
            FacingDirection::Left => 0,
            FacingDirection::Right => 1,
            FacingDirection::Down => 2,
            FacingDirection::Up => 3,
        };
        base + offset
    }

    /// The clip at catalog position `i`, if `i` is below eight.
    pub fn from_index(i: usize) -> (id: Option<ClipId>)
        ensures
            id == if i < CLIP_COUNT {
                Some(Self::at_slot(i as nat))
            } else {
                None::<ClipId>
            },
    {
        if i >= CLIP_COUNT {
            return None;
        }
        let facing = match i % 4 {
            0 => FacingDirection::Left,
            1 => FacingDirection::Right,
            2 => FacingDirection::Down,
            _ => FacingDirection::Up,
        };
        let kind = if i < 4 {
            ClipKind::Idle
        } else {
            ClipKind::Walk
        };
        Some(ClipId { facing, kind })
    }

    /// The name under which a host knows this clip.
    pub fn name(self) -> (s: &'static str)
        ensures
            s@ == self.label(),
    {
        match (self.facing, self.kind) {
            (FacingDirection::Left, ClipKind::Idle) => "leftidle",
            (FacingDirection::Right, ClipKind::Idle) => "rightidle",
            (FacingDirection::Down, ClipKind::Idle) => "frontidle",
            (FacingDirection::Up, ClipKind::Idle) => "upwardidle",
            (FacingDirection::Left, ClipKind::Walk) => "leftwalk",
            (FacingDirection::Right, ClipKind::Walk) => "rightwalk",
            (FacingDirection::Down, ClipKind::Walk) => "frontwalk",
            (FacingDirection::Up, ClipKind::Walk) => "upwardwalk",
        }
    }

    /// Every clip has a catalog position below eight, and the position
    /// identifies the clip.
    pub proof fn lemma_slot_identifies(self)
        ensures
            self.slot() < CLIP_COUNT,
            Self::at_slot(self.slot()) == self,
    {
    }

    /// Every position below eight holds a clip, and that clip stands there.
    pub proof fn lemma_at_slot_inverts(slot: nat)
        requires
            slot < CLIP_COUNT,
        ensures
            Self::at_slot(slot).slot() == slot,
    {
    }

    /// No two clips share a name.
    pub proof fn lemma_names_unique(a: ClipId, b: ClipId)
        ensures
            a.label() == b.label() <==> a == b,
    {
        reveal_strlit("leftidle");
        reveal_strlit("rightidle");
        reveal_strlit("frontidle");
        reveal_strlit("upwardidle");
        reveal_strlit("leftwalk");
        reveal_strlit("rightwalk");
        reveal_strlit("frontwalk");
        reveal_strlit("upwardwalk");
        if a != b {
            let la = a.label();
            let lb = b.label();
            if la.len() == lb.len() {
                assert(la[0] != lb[0] || la[la.len() - 4] != lb[lb.len() - 4]);
            }
        }
    }
}

} // verus!
