use vstd::prelude::*;
use vstd::string::StringExecFns;

verus! {

/// Nanoseconds of play that make one minute on the game clock (ten
/// seconds).
pub const MINUTE_NANOS: u64 = 10_000_000_000;

/// The time of day that the game shows, on a twelve-hour clock.
#[derive(Clone, Copy, Debug, PartialEq, Eq, Structural)]
pub struct GameTime {
    pub hours: u32,
    pub minutes: u32,
}

/// The character of the decimal digit `d`.
pub open spec fn digit_char(d: nat) -> char {
    if d == 0 {
        '0'
    } else if d == 1 {
        '1'
    } else if d == 2 {
        '2'
    } else if d == 3 {
        '3'
    } else if d == 4 {
        '4'
    } else if d == 5 {
        '5'
    } else if d == 6 {
        '6'
    } else if d == 7 {
        '7'
    } else if d == 8 {
        '8'
    } else {
        '9'
    }
}

/// The decimal digits of `n`, without leading zeros.
pub open spec fn decimal(n: nat) -> Seq<char>
    decreases n,
{
    if n < 10 {
        seq![digit_char(n)]
    } else {
        decimal(n / 10).push(digit_char(n % 10))
    }
}

/// The decimal digits of `n`, with a leading zero when there is only one.
pub open spec fn two_digits(n: nat) -> Seq<char> {
    if n < 10 {
        seq!['0', digit_char(n)]
    } else {
        decimal(n)
    }
}

/// Whether `elapsed` more nanoseconds bring the tracker to a full minute of
/// the game clock.
pub open spec fn minute_passes(tracker: nat, elapsed: nat) -> bool {
    tracker + elapsed >= MINUTE_NANOS
}

impl GameTime {
    /// The time one minute later: after minute 59 the next hour begins,
    /// and after hour 11 the clock starts over at hour 0.
    pub open spec fn next_minute(self) -> GameTime {
        if self.minutes + 1 >= 60 {
            GameTime {
                hours: if self.hours + 1 >= 12 {
                    0
                } else {
                    (self.hours + 1) as u32
                },
                minutes: 0,
            }
        } else {
            GameTime { hours: self.hours, minutes: (self.minutes + 1) as u32 }
        }
    }

    /// The text that shows this time: hours and minutes, two digits each
    /// at least.
    pub open spec fn label(self) -> Seq<char> {
        "TIME: "@ + two_digits(self.hours as nat) + ":"@ + two_digits(self.minutes as nat)
            + " P.M."@
    }

    /// Moves the clock on by one minute.
    pub fn advance_minute(&mut self)
        ensures
            *final(self) == old(self).next_minute(),
    {
        if self.minutes >= 59 {
            self.minutes = 0;
            if self.hours >= 11 {
                self.hours = 0;
            } else {
                self.hours = self.hours + 1;
            }
        } else {
            self.minutes = self.minutes + 1;
        }
    }

    /// The text that shows this time.
    pub fn time_label(&self) -> (text: String)
        ensures
            text@ == self.label(),
    {
        let mut text = String::from_str("TIME: ");
        push_two_digits(&mut text, self.hours);
        text.append(":");
        push_two_digits(&mut text, self.minutes);
        text.append(" P.M.");
        text
    }
}

/// Appends the decimal digit `d`.
fn push_digit(text: &mut String, d: u32)
    requires
        d < 10,
    ensures
        final(text)@ == old(text)@.push(digit_char(d as nat)),
{
    proof {
        reveal_strlit("0");
        reveal_strlit("1");
        reveal_strlit("2");
        reveal_strlit("3");
        reveal_strlit("4");
        reveal_strlit("5");
        reveal_strlit("6");
        reveal_strlit("7");
        reveal_strlit("8");
        reveal_strlit("9");
    }
    let digit: &str = match d {
        0 => "0",
        1 => "1",
        2 => "2",
        3 => "3",
        4 => "4",
        5 => "5",
        6 => "6",
        7 => "7",
        8 => "8",
        _ => "9",
    };
    assert(digit@ =~= seq![digit_char(d as nat)]);
    text.append(digit);
    assert(text@ =~= old(text)@.push(digit_char(d as nat)));
}

/// Appends the decimal digits of `n`, without leading zeros.
fn push_decimal(text: &mut String, n: u32)
    ensures
        final(text)@ == old(text)@ + decimal(n as nat),
    decreases n,
{
    if n >= 10 {
        push_decimal(text, n / 10);
    }
    push_digit(text, n % 10);
    assert(text@ =~= old(text)@ + decimal(n as nat));
}

/// Appends the decimal digits of `n`, with a leading zero when there is
/// only one.
fn push_two_digits(text: &mut String, n: u32)
    ensures
        final(text)@ == old(text)@ + two_digits(n as nat),
{
    if n < 10 {
        push_digit(text, 0);
        push_digit(text, n);
        assert(text@ =~= old(text)@ + two_digits(n as nat));
    } else {
        push_decimal(text, n);
    }
}

/// Counts play time toward the game clock. `time_tracker` holds the
/// nanoseconds counted toward the next minute. When `elapsed_nanos` more
/// bring it to a full minute, the tracker starts over at zero, the clock
/// moves on by one minute, and the text of the new time is returned for the
/// host to show. Otherwise the tracker accumulates and nothing is returned.
pub fn update_time(elapsed_nanos: u64, game_time: &mut GameTime, time_tracker: &mut u64) -> (shown:
    Option<String>)
    ensures
        minute_passes(*old(time_tracker) as nat, elapsed_nanos as nat) ==> {
            &&& *final(time_tracker) == 0
            &&& *final(game_time) == old(game_time).next_minute()
            &&& shown matches Some(text) && text@ == final(game_time).label()
        },
        !minute_passes(*old(time_tracker) as nat, elapsed_nanos as nat) ==> {
            &&& *final(time_tracker) == *old(time_tracker) + elapsed_nanos
            &&& *final(game_time) == *old(game_time)
            &&& shown.is_none()
        },
{
    if *time_tracker >= MINUTE_NANOS || elapsed_nanos >= MINUTE_NANOS - *time_tracker {
        *time_tracker = 0;
        game_time.advance_minute();
        Some(game_time.time_label())
    } else {
        *time_tracker = *time_tracker + elapsed_nanos;
        None
    }
}

} // verus!
