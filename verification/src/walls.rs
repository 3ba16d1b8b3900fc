use vstd::prelude::*;
use crate::vector::Vector2;

verus! {

/// Horizontal position of the centre line of the left wall.
pub const LEFT_WALL: i32 = -450;

/// Horizontal position of the centre line of the right wall.
pub const RIGHT_WALL: i32 = 450;

/// Vertical position of the centre line of the bottom wall.
pub const BOTTOM_WALL: i32 = -300;

/// Vertical position of the centre line of the top wall.
pub const TOP_WALL: i32 = 300;

/// Thickness of each wall.
pub const WALL_THICKNESS: i32 = 10;

/// Which side of the arena a wall stands on.
#[derive(Clone, Copy, Debug, PartialEq, Eq, Structural)]
pub enum WallLocation {
    Left,
    Right,
    Bottom,
    Top,
}

impl WallLocation {
    /// Centre of the wall: on its centre line, halfway along the side.
    pub open spec fn centre(self) -> Vector2 {
        match self {
            WallLocation::Left => Vector2 { x: LEFT_WALL, y: 0 },
            WallLocation::Right => Vector2 { x: RIGHT_WALL, y: 0 },
            WallLocation::Bottom => Vector2 { x: 0, y: BOTTOM_WALL },
            WallLocation::Top => Vector2 { x: 0, y: TOP_WALL },
        }
    }

    /// Width and height of the wall: as thick as a wall is, and as long as
    /// the side it stands on plus one thickness, so that adjoining walls
    /// meet at the corners.
    pub open spec fn extent(self) -> Vector2 {
        match self {
            WallLocation::Left | WallLocation::Right => Vector2 {
                x: WALL_THICKNESS,
                y: (TOP_WALL - BOTTOM_WALL + WALL_THICKNESS) as i32,
            },
            WallLocation::Bottom | WallLocation::Top => Vector2 {
                x: (RIGHT_WALL - LEFT_WALL + WALL_THICKNESS) as i32,
                y: WALL_THICKNESS,
            },
        }
    }

    /// Centre of the wall.
    pub fn position(&self) -> (centre: Vector2)
        ensures
            centre == self.centre(),
    {
        match self {
            WallLocation::Left => Vector2 { x: LEFT_WALL, y: 0 },
            WallLocation::Right => Vector2 { x: RIGHT_WALL, y: 0 },
            WallLocation::Bottom => Vector2 { x: 0, y: BOTTOM_WALL },
            WallLocation::Top => Vector2 { x: 0, y: TOP_WALL },
        }
    }

    /// Width and height of the wall.
    pub fn size(&self) -> (extent: Vector2)
        ensures
            extent == self.extent(),
    {
        let arena_height: i32 = TOP_WALL - BOTTOM_WALL;
        let arena_width: i32 = RIGHT_WALL - LEFT_WALL;
        match self {
            WallLocation::Left | WallLocation::Right => Vector2 {
                x: WALL_THICKNESS,
                y: arena_height + WALL_THICKNESS,
            },
            WallLocation::Bottom | WallLocation::Top => Vector2 {
                x: arena_width + WALL_THICKNESS,
                y: WALL_THICKNESS,
            },
        }
    }

    /// Each wall covers its whole side of the arena, corners included: a
    /// vertical wall reaches half a thickness below the bottom centre line
    /// and above the top one, a horizontal wall as far past the left and
    /// right ones, and each is centred on its own line.
    pub proof fn lemma_wall_spans_side(self)
        ensures
            match self {
                WallLocation::Left | WallLocation::Right => {
                    &&& 2 * self.centre().y - self.extent().y == 2 * BOTTOM_WALL - WALL_THICKNESS
                    &&& 2 * self.centre().y + self.extent().y == 2 * TOP_WALL + WALL_THICKNESS
                },
                WallLocation::Bottom | WallLocation::Top => {
                    &&& 2 * self.centre().x - self.extent().x == 2 * LEFT_WALL - WALL_THICKNESS
                    &&& 2 * self.centre().x + self.extent().x == 2 * RIGHT_WALL + WALL_THICKNESS
                },
            },
    {
    }
}

} // verus!
