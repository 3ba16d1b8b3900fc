use just_business::{Vector2, WallLocation};

#[test]
fn wall_positions() {
    assert_eq!(WallLocation::Left.position(), Vector2 { x: -450, y: 0 });
    assert_eq!(WallLocation::Right.position(), Vector2 { x: 450, y: 0 });
    assert_eq!(WallLocation::Bottom.position(), Vector2 { x: 0, y: -300 });
    assert_eq!(WallLocation::Top.position(), Vector2 { x: 0, y: 300 });
}

#[test]
fn wall_sizes() {
    assert_eq!(WallLocation::Left.size(), Vector2 { x: 10, y: 610 });
    assert_eq!(WallLocation::Right.size(), Vector2 { x: 10, y: 610 });
    assert_eq!(WallLocation::Bottom.size(), Vector2 { x: 910, y: 10 });
    assert_eq!(WallLocation::Top.size(), Vector2 { x: 910, y: 10 });
}
