use just_business::{
    ActorMovementState, ClipId, Easing, FacingDirection, HeldDirections, MoveCommands,
    PositionTween, Vector2, STEP_MAGNITUDE, TRANSITION_NANOS,
};

const MS: u64 = 1_000_000;

fn held(up: bool, down: bool, left: bool, right: bool) -> HeldDirections {
    HeldDirections { up, down, left, right }
}

#[test]
fn fresh_actor_shows_front_idle() {
    let state = ActorMovementState::new(Vector2::new(360, 410));
    assert_eq!(state.position(), Vector2 { x: 360, y: 410 });
    assert_eq!(state.facing(), None);
    assert!(!state.is_transitioning());
    assert_eq!(state.transition_timer(), 0);
    assert_eq!(state.active_clip(), ClipId::idle(FacingDirection::Down));
}

#[test]
fn step_constants() {
    assert_eq!(STEP_MAGNITUDE, 27);
    assert_eq!(TRANSITION_NANOS, 250 * MS);
}

#[test]
fn hold_up_for_one_tick_then_keep_holding() {
    let mut state = ActorMovementState::new(Vector2::new(0, 0));
    let up = HeldDirections::only(FacingDirection::Up);
    let cmds = state.tick(up, 16 * MS);
    assert_eq!(state.active_clip(), ClipId::walk(FacingDirection::Up));
    assert_eq!(state.position(), Vector2 { x: 0, y: 27 });
    assert!(state.is_transitioning());
    assert_eq!(state.transition_timer(), 0);
    assert_eq!(
        cmds,
        MoveCommands {
            clip_switch: Some(ClipId::walk(FacingDirection::Up)),
            tween: Some(PositionTween {
                start: Vector2 { x: 0, y: 0 },
                end: Vector2 { x: 0, y: 27 },
                duration_nanos: 250 * MS,
                easing: Easing::QuadraticInOut,
            }),
        }
    );
    // 15 ticks of 16 ms stay short of 250 ms
    for i in 0..15u64 {
        let cmds = state.tick(up, 16 * MS);
        assert_eq!(cmds, MoveCommands { clip_switch: None, tween: None });
        assert_eq!(state.position(), Vector2 { x: 0, y: 27 });
        assert!(state.is_transitioning());
        assert_eq!(state.transition_timer(), (i + 1) * 16 * MS);
    }
    // the 16th reaches 256 ms: the step completes and the next begins at once
    let cmds = state.tick(up, 16 * MS);
    assert_eq!(state.position(), Vector2 { x: 0, y: 54 });
    assert!(state.is_transitioning());
    assert_eq!(state.transition_timer(), 0);
    assert_eq!(state.active_clip(), ClipId::walk(FacingDirection::Up));
    assert_eq!(cmds.clip_switch, None);
    assert_eq!(
        cmds.tween,
        Some(PositionTween {
            start: Vector2 { x: 0, y: 27 },
            end: Vector2 { x: 0, y: 54 },
            duration_nanos: 250 * MS,
            easing: Easing::QuadraticInOut,
        })
    );
}

#[test]
fn each_direction_steps_one_unit() {
    let cases = [
        (FacingDirection::Right, 27, 0),
        (FacingDirection::Left, -27, 0),
        (FacingDirection::Down, 0, -27),
        (FacingDirection::Up, 0, 27),
    ];
    for (dir, dx, dy) in cases {
        let mut state = ActorMovementState::new(Vector2::new(360, 410));
        let cmds = state.tick(HeldDirections::only(dir), 16 * MS);
        assert_eq!(state.position(), Vector2 { x: 360 + dx, y: 410 + dy });
        assert_eq!(state.facing(), Some(dir));
        assert_eq!(state.active_clip(), ClipId::walk(dir));
        assert!(state.is_transitioning());
        let tween = cmds.tween.unwrap();
        assert_eq!(tween.start, Vector2 { x: 360, y: 410 });
        assert_eq!(tween.end, Vector2 { x: 360 + dx, y: 410 + dy });
    }
}

#[test]
fn input_is_ignored_while_a_step_is_in_flight() {
    let mut state = ActorMovementState::new(Vector2::new(0, 0));
    state.tick(HeldDirections::only(FacingDirection::Right), 10 * MS);
    let before = (state.position(), state.facing(), state.active_clip());
    for h in [
        held(true, false, false, false),
        held(false, true, false, false),
        held(false, false, true, false),
        held(true, true, true, true),
        HeldDirections::none(),
    ] {
        let cmds = state.tick(h, 40 * MS);
        assert_eq!(cmds, MoveCommands { clip_switch: None, tween: None });
        assert_eq!((state.position(), state.facing(), state.active_clip()), before);
        assert!(state.is_transitioning());
    }
    assert_eq!(state.transition_timer(), 200 * MS);
    // 249.999999 ms is still short of the duration
    state.tick(held(false, false, true, false), 50 * MS - 1);
    assert!(state.is_transitioning());
    assert_eq!(state.position(), Vector2 { x: 27, y: 0 });
    // one more nanosecond completes it and Left is read at once
    let cmds = state.tick(held(false, false, true, false), 1);
    assert_eq!(state.position(), Vector2 { x: 0, y: 0 });
    assert_eq!(cmds.clip_switch, Some(ClipId::walk(FacingDirection::Left)));
}

#[test]
fn right_beats_left_and_down_beats_up() {
    assert_eq!(held(false, false, true, true).resolve(), Some(FacingDirection::Right));
    assert_eq!(held(true, true, true, true).resolve(), Some(FacingDirection::Right));
    assert_eq!(held(true, true, false, false).resolve(), Some(FacingDirection::Down));
    assert_eq!(held(true, true, true, false).resolve(), Some(FacingDirection::Left));
    assert_eq!(held(true, false, false, false).resolve(), Some(FacingDirection::Up));
    assert_eq!(HeldDirections::none().resolve(), None);

    let mut state = ActorMovementState::new(Vector2::new(0, 0));
    state.tick(held(false, false, true, true), 0);
    assert_eq!(state.position(), Vector2 { x: 27, y: 0 });
    let mut state = ActorMovementState::new(Vector2::new(0, 0));
    state.tick(held(true, true, false, false), 0);
    assert_eq!(state.position(), Vector2 { x: 0, y: -27 });
}

#[test]
fn idle_after_step_faces_the_step() {
    let mut state = ActorMovementState::new(Vector2::new(0, 0));
    state.tick(HeldDirections::only(FacingDirection::Left), 16 * MS);
    state.tick(HeldDirections::none(), 100 * MS);
    assert_eq!(state.active_clip(), ClipId::walk(FacingDirection::Left));
    let cmds = state.tick(HeldDirections::none(), 150 * MS);
    assert!(!state.is_transitioning());
    assert_eq!(state.active_clip(), ClipId::idle(FacingDirection::Left));
    assert_eq!(cmds, MoveCommands { clip_switch: Some(ClipId::idle(FacingDirection::Left)), tween: None });
    assert_eq!(state.position(), Vector2 { x: -27, y: 0 });
    assert_eq!(state.transition_timer(), 250 * MS);
}

#[test]
fn no_keys_for_seconds_after_facing_left() {
    let mut state = ActorMovementState::new(Vector2::new(0, 0));
    state.tick(HeldDirections::only(FacingDirection::Left), 16 * MS);
    state.tick(HeldDirections::none(), 250 * MS);
    assert_eq!(state.active_clip(), ClipId::idle(FacingDirection::Left));
    for _ in 0..300 {
        let cmds = state.tick(HeldDirections::none(), 16 * MS);
        assert_eq!(cmds, MoveCommands { clip_switch: None, tween: None });
        assert_eq!(state.active_clip(), ClipId::idle(FacingDirection::Left));
        assert_eq!(state.facing(), Some(FacingDirection::Left));
        assert_eq!(state.position(), Vector2 { x: -27, y: 0 });
        assert!(!state.is_transitioning());
        assert_eq!(state.transition_timer(), 250 * MS);
    }
}

#[test]
fn untouched_actor_keeps_front_idle() {
    let mut state = ActorMovementState::new(Vector2::new(5, 6));
    for _ in 0..100 {
        let cmds = state.tick(HeldDirections::none(), 16 * MS);
        assert_eq!(cmds, MoveCommands { clip_switch: None, tween: None });
        assert_eq!(state.active_clip(), ClipId::idle(FacingDirection::Down));
        assert_eq!(state.facing(), None);
        assert_eq!(state.position(), Vector2 { x: 5, y: 6 });
    }
    assert_eq!(state.transition_timer(), 250 * MS);
}

#[test]
fn can_tick_guards_the_coordinate_range() {
    let right = HeldDirections::only(FacingDirection::Right);
    let state = ActorMovementState::new(Vector2::new(i32::MAX - 27, 0));
    assert!(state.can_tick(right, 0));
    let state = ActorMovementState::new(Vector2::new(i32::MAX - 26, 0));
    assert!(!state.can_tick(right, 0));
    assert!(state.can_tick(HeldDirections::only(FacingDirection::Left), 0));
    assert!(state.can_tick(HeldDirections::none(), u64::MAX));
    let state = ActorMovementState::new(Vector2::new(0, i32::MIN + 26));
    assert!(!state.can_tick(HeldDirections::only(FacingDirection::Down), 0));
    assert!(state.can_tick(HeldDirections::only(FacingDirection::Up), 0));
    // a step in flight takes no input, so any tick short of its end fits
    let mut state = ActorMovementState::new(Vector2::new(i32::MAX - 27, 0));
    state.tick(right, 0);
    assert_eq!(state.position(), Vector2 { x: i32::MAX, y: 0 });
    assert!(state.can_tick(right, 249 * MS));
    assert!(!state.can_tick(right, 250 * MS));
}

#[test]
fn huge_elapsed_time_completes_a_step() {
    let mut state = ActorMovementState::new(Vector2::new(0, 0));
    state.tick(HeldDirections::only(FacingDirection::Up), 0);
    let cmds = state.tick(HeldDirections::none(), u64::MAX);
    assert!(!state.is_transitioning());
    assert_eq!(state.transition_timer(), 250 * MS);
    assert_eq!(cmds.clip_switch, Some(ClipId::idle(FacingDirection::Up)));
}

#[test]
fn try_tick_steps_where_the_position_fits() {
    let mut state = ActorMovementState::new(Vector2::new(0, 0));
    let cmds = state.try_tick(HeldDirections::only(FacingDirection::Left), 16 * MS).unwrap();
    assert_eq!(state.position(), Vector2 { x: -27, y: 0 });
    assert_eq!(cmds.clip_switch, Some(ClipId::walk(FacingDirection::Left)));
    assert_eq!(
        cmds.tween,
        Some(PositionTween {
            start: Vector2 { x: 0, y: 0 },
            end: Vector2 { x: -27, y: 0 },
            duration_nanos: 250 * MS,
            easing: Easing::QuadraticInOut,
        })
    );
    let cmds = state.try_tick(HeldDirections::none(), 100 * MS).unwrap();
    assert_eq!(cmds, MoveCommands { clip_switch: None, tween: None });
    assert_eq!(state.transition_timer(), 100 * MS);
}

#[test]
fn try_tick_leaves_the_actor_at_the_edge_of_the_range() {
    let up = HeldDirections::only(FacingDirection::Up);
    let mut state = ActorMovementState::new(Vector2::new(7, i32::MAX - 26));
    assert_eq!(state.try_tick(up, 16 * MS), None);
    assert_eq!(state.position(), Vector2 { x: 7, y: i32::MAX - 26 });
    assert_eq!(state.facing(), None);
    assert!(!state.is_transitioning());
    assert_eq!(state.transition_timer(), 0);
    assert_eq!(state.active_clip(), ClipId::idle(FacingDirection::Down));
    // another way is still open
    assert!(state.try_tick(HeldDirections::only(FacingDirection::Down), 16 * MS).is_some());
    assert_eq!(state.position(), Vector2 { x: 7, y: i32::MAX - 53 });
    // one step below the edge the last step up fits
    let mut state = ActorMovementState::new(Vector2::new(7, i32::MAX - 27));
    assert!(state.try_tick(up, 0).is_some());
    assert_eq!(state.position(), Vector2 { x: 7, y: i32::MAX });
}
