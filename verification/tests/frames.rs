use just_business::{
    AnimationClipCatalog, CharacterSheet, ClipId, FacingDirection, FrameAnimation,
    PlayerGraphics, SheetGrid, SHEET_CELLS, SHEET_COLUMNS, SHEET_ROWS,
};

const MS: u64 = 1_000_000;

#[test]
fn new_animation_starts_at_first_frame() {
    let a = FrameAnimation::new(vec![7, 8], 250 * MS).unwrap();
    assert_eq!(a.current_frame(), 0);
    assert_eq!(a.sprite_index(), 7);
    assert_eq!(a.timer(), 0);
    assert_eq!(a.interval(), 250 * MS);
    assert_eq!(a.frames(), &vec![7, 8]);
}

#[test]
fn animation_needs_a_frame() {
    assert!(FrameAnimation::new(Vec::new(), 250 * MS).is_none());
    assert!(FrameAnimation::new(vec![0], 0).is_some());
}

#[test]
fn one_frame_per_full_interval() {
    let mut a = FrameAnimation::new(vec![10, 11, 12], 250 * MS).unwrap();
    let expected = [11, 12, 10, 11, 12, 10, 11];
    for (k, want) in expected.iter().enumerate() {
        assert_eq!(a.tick(250 * MS), Some(*want));
        assert_eq!(a.current_frame(), (k + 1) % 3);
        assert_eq!(a.timer(), 0);
    }
}

#[test]
fn frames_advance_when_ticks_add_up_to_the_interval() {
    let mut a = FrameAnimation::new(vec![7, 8], 250 * MS).unwrap();
    // five ticks of 50 ms land exactly on each interval
    for round in 0..4usize {
        for k in 0..4u64 {
            assert_eq!(a.tick(50 * MS), None);
            assert_eq!(a.timer(), (k + 1) * 50 * MS);
            assert_eq!(a.current_frame(), round % 2);
        }
        let shown = a.tick(50 * MS);
        assert_eq!(a.current_frame(), (round + 1) % 2);
        assert_eq!(shown, Some(if (round + 1) % 2 == 0 { 7 } else { 8 }));
        assert_eq!(a.timer(), 0);
    }
}

#[test]
fn time_past_the_interval_is_dropped() {
    let mut a = FrameAnimation::new(vec![7, 8], 250 * MS).unwrap();
    assert_eq!(a.tick(150 * MS), None);
    assert_eq!(a.tick(150 * MS), Some(8));
    assert_eq!(a.timer(), 0);
    assert_eq!(a.tick(150 * MS), None);
    assert_eq!(a.tick(150 * MS), Some(7));
    assert_eq!(a.tick(150 * MS), None);
    // 750 ms have passed and two frames were shown, not three
    assert_eq!(a.current_frame(), 0);
    assert_eq!(a.timer(), 150 * MS);
}

#[test]
fn a_long_tick_moves_on_by_one_frame_only() {
    let mut a = FrameAnimation::new(vec![1, 2, 3], 250 * MS).unwrap();
    assert_eq!(a.tick(u64::MAX), Some(2));
    assert_eq!(a.current_frame(), 1);
    assert_eq!(a.timer(), 0);
}

#[test]
fn one_nanosecond_short_does_not_advance() {
    let mut a = FrameAnimation::new(vec![1, 2], 250 * MS).unwrap();
    assert_eq!(a.tick(250 * MS - 1), None);
    assert_eq!(a.current_frame(), 0);
    assert_eq!(a.tick(1), Some(2));
}

#[test]
fn single_frame_clip_never_changes() {
    let mut a = FrameAnimation::new(vec![6], 250 * MS).unwrap();
    for _ in 0..50 {
        let shown = a.tick(100 * MS);
        assert!(shown.is_none() || shown == Some(6));
        assert_eq!(a.current_frame(), 0);
        assert_eq!(a.sprite_index(), 6);
    }
}

#[test]
fn zero_interval_advances_every_tick() {
    let mut a = FrameAnimation::new(vec![4, 5], 0).unwrap();
    assert_eq!(a.tick(0), Some(5));
    assert_eq!(a.tick(0), Some(4));
    assert_eq!(a.tick(17), Some(5));
    assert_eq!(a.timer(), 0);
}

#[test]
fn switch_clip_restarts_at_first_frame() {
    let mut a = FrameAnimation::new(vec![7, 8], 250 * MS).unwrap();
    a.tick(250 * MS);
    a.tick(100 * MS);
    assert_eq!(a.switch_clip(vec![1, 2]), Some(1));
    assert_eq!(a.current_frame(), 0);
    assert_eq!(a.timer(), 0);
    assert_eq!(a.interval(), 250 * MS);
    assert_eq!(a.frames(), &vec![1, 2]);
    // no frames: nothing changes
    a.tick(250 * MS);
    a.tick(10 * MS);
    assert_eq!(a.switch_clip(Vec::new()), None);
    assert_eq!(a.current_frame(), 1);
    assert_eq!(a.timer(), 10 * MS);
    assert_eq!(a.frames(), &vec![1, 2]);
}

#[test]
fn character_sheet_cycles() {
    let sheet = CharacterSheet::new();
    assert_eq!(sheet.player_down, [0, 1, 2]);
    assert_eq!(sheet.player_up, [3, 4, 5]);
    assert_eq!(sheet.player_left, [6, 7, 8]);
    assert_eq!(sheet.player_right, [9, 10, 11]);
    assert_eq!(sheet.frames(FacingDirection::Down), vec![0, 1, 2]);
    assert_eq!(sheet.frames(FacingDirection::Up), vec![3, 4, 5]);
    assert_eq!(sheet.frames(FacingDirection::Left), vec![6, 7, 8]);
    assert_eq!(sheet.frames(FacingDirection::Right), vec![9, 10, 11]);
}

#[test]
fn character_cycles_partition_the_sheet() {
    assert_eq!(SHEET_CELLS, SHEET_COLUMNS * SHEET_ROWS);
    let sheet = CharacterSheet::new();
    let mut seen = vec![0usize; SHEET_CELLS];
    for cycle in [sheet.player_down, sheet.player_up, sheet.player_left, sheet.player_right] {
        for cell in cycle {
            assert!(cell < SHEET_CELLS);
            seen[cell] += 1;
        }
    }
    assert_eq!(seen, vec![1usize; SHEET_CELLS]);
}

#[test]
fn character_cycle_is_idle_frame_then_walk_frames() {
    let cycles = CharacterSheet::new();
    let catalog = AnimationClipCatalog::from_sheet(&SheetGrid::new(SHEET_COLUMNS, SHEET_ROWS)).unwrap();
    for facing in [
        FacingDirection::Down,
        FacingDirection::Up,
        FacingDirection::Left,
        FacingDirection::Right,
    ] {
        let mut joined = catalog.frames(ClipId::idle(facing)).clone();
        joined.extend(catalog.frames(ClipId::walk(facing)).iter().copied());
        assert_eq!(joined, cycles.frames(facing));
    }
}

#[test]
fn facing_takes_over_the_cycle_and_keeps_the_place() {
    let sheet = CharacterSheet::new();
    let mut a = FrameAnimation::new(sheet.frames(FacingDirection::Down), 250 * MS).unwrap();
    a.tick(250 * MS);
    a.tick(250 * MS);
    a.tick(40 * MS);
    assert_eq!(a.current_frame(), 2);
    assert_eq!(a.sprite_index(), 2);
    a.face(&PlayerGraphics { facing: FacingDirection::Left }, &sheet);
    assert_eq!(a.frames(), &vec![6, 7, 8]);
    assert_eq!(a.current_frame(), 2);
    assert_eq!(a.sprite_index(), 8);
    assert_eq!(a.timer(), 40 * MS);
    assert_eq!(a.tick(210 * MS), Some(6));
}

#[test]
fn facing_wraps_a_place_beyond_the_cycle() {
    let sheet = CharacterSheet::new();
    let mut a = FrameAnimation::new(vec![0, 1, 2, 3, 4], 250 * MS).unwrap();
    for _ in 0..4 {
        a.tick(250 * MS);
    }
    assert_eq!(a.current_frame(), 4);
    a.face(&PlayerGraphics { facing: FacingDirection::Up }, &sheet);
    assert_eq!(a.current_frame(), 1);
    assert_eq!(a.sprite_index(), 4);
    assert_eq!(a.tick(250 * MS), Some(5));
}
