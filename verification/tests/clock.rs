use just_business::{update_time, GameTime, MINUTE_NANOS};

#[test]
fn clock_labels() {
    assert_eq!(GameTime { hours: 5, minutes: 0 }.time_label(), "TIME: 05:00 P.M.");
    assert_eq!(GameTime { hours: 5, minutes: 7 }.time_label(), "TIME: 05:07 P.M.");
    assert_eq!(GameTime { hours: 11, minutes: 59 }.time_label(), "TIME: 11:59 P.M.");
    assert_eq!(GameTime { hours: 0, minutes: 10 }.time_label(), "TIME: 00:10 P.M.");
    assert_eq!(GameTime { hours: 100, minutes: 9 }.time_label(), "TIME: 100:09 P.M.");
    assert_eq!(
        GameTime { hours: u32::MAX, minutes: 4_000_000 }.time_label(),
        "TIME: 4294967295:4000000 P.M."
    );
}

#[test]
fn clock_advances_minutes_and_hours() {
    let mut t = GameTime { hours: 5, minutes: 0 };
    t.advance_minute();
    assert_eq!(t, GameTime { hours: 5, minutes: 1 });
    let mut t = GameTime { hours: 5, minutes: 58 };
    t.advance_minute();
    assert_eq!(t, GameTime { hours: 5, minutes: 59 });
    t.advance_minute();
    assert_eq!(t, GameTime { hours: 6, minutes: 0 });
    let mut t = GameTime { hours: 10, minutes: 59 };
    t.advance_minute();
    assert_eq!(t, GameTime { hours: 11, minutes: 0 });
    let mut t = GameTime { hours: 11, minutes: 59 };
    t.advance_minute();
    assert_eq!(t, GameTime { hours: 0, minutes: 0 });
}

#[test]
fn clock_advance_on_values_past_the_dial() {
    let mut t = GameTime { hours: 40, minutes: 75 };
    t.advance_minute();
    assert_eq!(t, GameTime { hours: 0, minutes: 0 });
    let mut t = GameTime { hours: u32::MAX, minutes: u32::MAX };
    t.advance_minute();
    assert_eq!(t, GameTime { hours: 0, minutes: 0 });
    let mut t = GameTime { hours: u32::MAX, minutes: 3 };
    t.advance_minute();
    assert_eq!(t, GameTime { hours: u32::MAX, minutes: 4 });
}

#[test]
fn ten_seconds_of_play_are_one_minute() {
    assert_eq!(MINUTE_NANOS, 10_000_000_000);
    let mut time = GameTime { hours: 5, minutes: 0 };
    let mut tracker = 0u64;
    for k in 1..=9u64 {
        assert_eq!(update_time(1_000_000_000, &mut time, &mut tracker), None);
        assert_eq!(tracker, k * 1_000_000_000);
        assert_eq!(time, GameTime { hours: 5, minutes: 0 });
    }
    assert_eq!(
        update_time(1_000_000_000, &mut time, &mut tracker),
        Some("TIME: 05:01 P.M.".to_string())
    );
    assert_eq!(tracker, 0);
    assert_eq!(time, GameTime { hours: 5, minutes: 1 });
}

#[test]
fn clock_tracker_edges() {
    let mut time = GameTime { hours: 11, minutes: 59 };
    let mut tracker = MINUTE_NANOS - 1;
    assert_eq!(update_time(0, &mut time, &mut tracker), None);
    assert_eq!(tracker, MINUTE_NANOS - 1);
    assert_eq!(
        update_time(1, &mut time, &mut tracker),
        Some("TIME: 00:00 P.M.".to_string())
    );
    assert_eq!(tracker, 0);
    // a long pause counts as one minute, and the rest is dropped
    assert_eq!(
        update_time(u64::MAX, &mut time, &mut tracker),
        Some("TIME: 00:01 P.M.".to_string())
    );
    assert_eq!(tracker, 0);
    // a tracker that is already full
    let mut tracker = u64::MAX;
    assert_eq!(
        update_time(u64::MAX, &mut time, &mut tracker),
        Some("TIME: 00:02 P.M.".to_string())
    );
    assert_eq!(tracker, 0);
}
