use just_business::{
    confirm_popup, handle_next_popup, play_button_press, welcome_setup, ButtonPressState,
    GameTime, PopupQueue, PopupState,
};

const WELCOME: [&str; 7] = [
    "It is 5:00 p.m.",
    "Everyone has left the office.",
    "You are an old janitor, Cliff.",
    "Your job is to clean the office.",
    "Use the arrow keys to move around.",
    "By the end of the night, the office might not just be clean.",
    "It might be yours.",
];

#[test]
fn session_opens_with_welcome_messages() {
    let w = welcome_setup();
    assert_eq!(w.queue.len(), 7);
    assert!(!w.queue.is_empty());
    assert_eq!(w.popup_state, PopupState { is_popup_active: false });
    assert_eq!(w.button_press, ButtonPressState { triggered: false });
    assert_eq!(w.game_time, GameTime { hours: 5, minutes: 0 });
}

#[test]
fn welcome_messages_show_in_order_one_at_a_time() {
    let w = welcome_setup();
    let mut queue = w.queue;
    let mut state = w.popup_state;
    let mut press = w.button_press;
    for (k, text) in WELCOME.iter().enumerate() {
        assert_eq!(handle_next_popup(&mut queue, &mut state), Some(text.to_string()));
        assert!(state.is_popup_active);
        assert_eq!(queue.len(), 6 - k);
        // while the popup is on screen nothing else opens
        for _ in 0..3 {
            assert_eq!(handle_next_popup(&mut queue, &mut state), None);
            assert_eq!(queue.len(), 6 - k);
            assert!(state.is_popup_active);
        }
        confirm_popup(&mut state, &mut press);
        assert!(!state.is_popup_active);
        assert!(press.triggered);
        assert!(play_button_press(&mut press));
        assert!(!press.triggered);
        assert!(!play_button_press(&mut press));
    }
    assert!(queue.is_empty());
    assert_eq!(handle_next_popup(&mut queue, &mut state), None);
    assert!(!state.is_popup_active);
}

#[test]
fn queue_keeps_the_order_given() {
    let mut queue = PopupQueue::new(vec!["a".to_string(), "b".to_string(), "c".to_string()]);
    let mut state = PopupState { is_popup_active: false };
    assert_eq!(queue.len(), 3);
    assert_eq!(handle_next_popup(&mut queue, &mut state), Some("a".to_string()));
    state.is_popup_active = false;
    assert_eq!(handle_next_popup(&mut queue, &mut state), Some("b".to_string()));
    state.is_popup_active = false;
    assert_eq!(handle_next_popup(&mut queue, &mut state), Some("c".to_string()));
    state.is_popup_active = false;
    assert_eq!(handle_next_popup(&mut queue, &mut state), None);
}

#[test]
fn empty_queue_opens_nothing() {
    let mut queue = PopupQueue::new(Vec::new());
    let mut state = PopupState { is_popup_active: false };
    assert!(queue.is_empty());
    assert_eq!(handle_next_popup(&mut queue, &mut state), None);
    assert_eq!(state, PopupState { is_popup_active: false });
}

#[test]
fn button_sound_is_owed_once() {
    let mut press = ButtonPressState { triggered: false };
    assert!(!play_button_press(&mut press));
    let mut state = PopupState { is_popup_active: true };
    confirm_popup(&mut state, &mut press);
    assert_eq!(state, PopupState { is_popup_active: false });
    assert_eq!(press, ButtonPressState { triggered: true });
    assert!(play_button_press(&mut press));
    assert_eq!(press, ButtonPressState { triggered: false });
}
