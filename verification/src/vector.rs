use vstd::prelude::*;

verus! {

/// A point or a displacement in whole world units.
#[derive(Clone, Copy, Debug, PartialEq, Eq, Structural)]
pub struct Vector2 {
    pub x: i32,
    pub y: i32,
}

/// A point or a displacement with unbounded coordinates: the mathematical
/// model of [`Vector2`].
pub struct Point {
    pub x: int,
    pub y: int,
}

impl View for Vector2 {
    type V = Point;

    open spec fn view(&self) -> Point {
        Point { x: self.x as int, y: self.y as int }
    }
}

impl Vector2 {
    pub fn new(x: i32, y: i32) -> (v: Self)
        ensures
            v.x == x,
            v.y == y,
            v@ == (Point { x: x as int, y: y as int }),
    {
        Vector2 { x, y }
    }
}

} // verus!
