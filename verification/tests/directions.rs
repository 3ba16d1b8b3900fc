use just_business::{FacingDirection, HeldDirections, Vector2};

const ALL: [FacingDirection; 4] = [
    FacingDirection::Up,
    FacingDirection::Down,
    FacingDirection::Left,
    FacingDirection::Right,
];

#[test]
fn unit_vectors() {
    assert_eq!(FacingDirection::Right.unit_vector(), Vector2 { x: 1, y: 0 });
    assert_eq!(FacingDirection::Left.unit_vector(), Vector2 { x: -1, y: 0 });
    assert_eq!(FacingDirection::Down.unit_vector(), Vector2 { x: 0, y: -1 });
    assert_eq!(FacingDirection::Up.unit_vector(), Vector2 { x: 0, y: 1 });
}

#[test]
fn only_holds_exactly_one_key() {
    for dir in ALL {
        let held = HeldDirections::only(dir);
        for other in ALL {
            assert_eq!(held.pressed(other), other == dir);
        }
        assert_eq!(held.resolve(), Some(dir));
    }
    assert_eq!(
        HeldDirections::only(FacingDirection::Left),
        HeldDirections { up: false, down: false, left: true, right: false }
    );
}

#[test]
fn none_holds_no_key() {
    let held = HeldDirections::none();
    assert_eq!(held, HeldDirections { up: false, down: false, left: false, right: false });
    for dir in ALL {
        assert!(!held.pressed(dir));
    }
    assert_eq!(held.resolve(), None);
}

#[test]
fn resolve_follows_priority_on_every_combination() {
    for bits in 0..16u32 {
        let held = HeldDirections {
            up: bits & 1 != 0,
            down: bits & 2 != 0,
            left: bits & 4 != 0,
            right: bits & 8 != 0,
        };
        let expected = if held.right {
            Some(FacingDirection::Right)
        } else if held.left {
            Some(FacingDirection::Left)
        } else if held.down {
            Some(FacingDirection::Down)
        } else if held.up {
            Some(FacingDirection::Up)
        } else {
            None
        };
        assert_eq!(held.resolve(), expected);
    }
}
