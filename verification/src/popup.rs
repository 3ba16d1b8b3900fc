use vstd::prelude::*;
use vstd::string::StringExecFns;
use crate::clock::GameTime;

verus! {

/// The messages that wait to be shown, one popup at a time.
#[derive(Clone, Debug)]
pub struct PopupQueue {
    /// The waiting messages, the next one to show last.
    messages: Vec<String>,
}

/// Whether a popup is on screen.
#[derive(Clone, Copy, Debug, PartialEq, Eq, Structural)]
pub struct PopupState {
    pub is_popup_active: bool,
}

/// Whether the button of a popup was pressed and its sound is still owed.
#[derive(Clone, Copy, Debug, PartialEq, Eq, Structural)]
pub struct ButtonPressState {
    pub triggered: bool,
}

/// The state in which a session opens.
#[derive(Clone, Debug)]
pub struct Welcome {
    pub queue: PopupQueue,
    pub popup_state: PopupState,
    pub button_press: ButtonPressState,
    pub game_time: GameTime,
}

impl View for PopupQueue {
    type V = Seq<Seq<char>>;

    /// The waiting messages in the order in which they will be shown.
    closed spec fn view(&self) -> Seq<Seq<char>> {
        Seq::new(
            self.messages@.len(),
            |i: int| self.messages@[self.messages@.len() - 1 - i]@,
        )
    }
}

/// The texts of `messages`, in order.
pub open spec fn texts(messages: Seq<String>) -> Seq<Seq<char>> {
    Seq::new(messages.len(), |i: int| messages[i]@)
}

/// The messages that open a session, in the order in which they are shown.
pub open spec fn welcome_messages() -> Seq<Seq<char>> {
    seq![
        "It is 5:00 p.m."@,
        "Everyone has left the office."@,
        "You are an old janitor, Cliff."@,
        "Your job is to clean the office."@,
        "Use the arrow keys to move around."@,
        "By the end of the night, the office might not just be clean."@,
        "It might be yours."@,
    ]
}

impl PopupQueue {
    /// A queue that shows `messages` in the order given.
    pub fn new(messages: Vec<String>) -> (queue: Self)
        ensures
            queue@ == texts(messages@),
    {
        let mut messages = messages;
        let ghost given = messages@;
        let mut reversed: Vec<String> = Vec::new();
        while messages.len() > 0
            invariant
                messages@.len() <= given.len(),
                messages@ == given.take(messages@.len() as int),
                reversed@.len() == given.len() - messages@.len(),
                forall|i: int|
                    0 <= i < reversed@.len() ==> #[trigger] reversed@[i] == given[given.len() - 1
                        - i],
            decreases messages@.len(),
        {
            let message = messages.pop().unwrap();
            reversed.push(message);
        }
        let queue = PopupQueue { messages: reversed };
        assert(queue@ =~= texts(given));
        queue
    }

    /// Number of messages that wait.
    pub fn len(&self) -> (n: usize)
        ensures
            n == self@.len(),
    {
        self.messages.len()
    }

    /// Whether no message waits.
    pub fn is_empty(&self) -> (empty: bool)
        ensures
            empty == (self@.len() == 0),
    {
        self.messages.len() == 0
    }
}

/// The state in which a session opens: the welcome messages wait in order,
/// no popup is on screen, no button sound is owed, and the clock shows five
/// o'clock.
pub fn welcome_setup() -> (welcome: Welcome)
    ensures
        welcome.queue@ == welcome_messages(),
        !welcome.popup_state.is_popup_active,
        !welcome.button_press.triggered,
        welcome.game_time == (GameTime { hours: 5, minutes: 0 }),
{
    let mut messages: Vec<String> = Vec::new();
    messages.push(String::from_str("It is 5:00 p.m."));
    messages.push(String::from_str("Everyone has left the office."));
    messages.push(String::from_str("You are an old janitor, Cliff."));
    messages.push(String::from_str("Your job is to clean the office."));
    messages.push(String::from_str("Use the arrow keys to move around."));
    messages.push(
        String::from_str("By the end of the night, the office might not just be clean."),
    );
    messages.push(String::from_str("It might be yours."));
    assert(texts(messages@) =~= welcome_messages());
    Welcome {
        queue: PopupQueue::new(messages),
        popup_state: PopupState { is_popup_active: false },
        button_press: ButtonPressState { triggered: false },
        game_time: GameTime { hours: 5, minutes: 0 },
    }
}

/// Decides whether the next popup opens. While a popup is on screen, or
/// when no message waits, nothing changes and nothing is returned.
/// Otherwise the first waiting message leaves the queue and is returned for
/// the host to show, and a popup counts as on screen from now on.
pub fn handle_next_popup(popup_queue: &mut PopupQueue, popup_state: &mut PopupState) -> (shown:
    Option<String>)
    ensures
        old(popup_state).is_popup_active || old(popup_queue)@.len() == 0 ==> {
            &&& shown.is_none()
            &&& final(popup_queue)@ == old(popup_queue)@
            &&& *final(popup_state) == *old(popup_state)
        },
        !old(popup_state).is_popup_active && old(popup_queue)@.len() > 0 ==> {
            &&& shown matches Some(text) && text@ == old(popup_queue)@[0]
            &&& final(popup_queue)@ == old(popup_queue)@.drop_first()
            &&& final(popup_state).is_popup_active
        },
{
    if popup_state.is_popup_active {
        return None;
    }
    let next = popup_queue.messages.pop();
    match next {
        Some(message) => {
            popup_state.is_popup_active = true;
            assert(popup_queue@ =~= old(popup_queue)@.drop_first());
            Some(message)
        },
        None => {
            assert(popup_queue@ =~= old(popup_queue)@);
            None
        },
    }
}

/// The player pressed the button of the popup on screen: the popup is gone
/// and the sound of the button is owed.
pub fn confirm_popup(popup_state: &mut PopupState, button_press: &mut ButtonPressState)
    ensures
        !final(popup_state).is_popup_active,
        final(button_press).triggered,
{
    popup_state.is_popup_active = false;
    button_press.triggered = true;
}

/// Decides whether the sound of the button is played now: it is when it is
/// owed, and then it is owed no longer.
pub fn play_button_press(button_press: &mut ButtonPressState) -> (play: bool)
    ensures
        play == old(button_press).triggered,
        !final(button_press).triggered,
{
    let play = button_press.triggered;
    button_press.triggered = false;
    play
}

} // verus!
