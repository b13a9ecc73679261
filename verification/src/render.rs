//! Notification content.
//!
//! A notification request is a plain value: title, optional body, and a
//! display timeout. This module builds the two kinds of request the monitor
//! emits and proves each character of their text: the decimal rendering of
//! the minute-of-hour left until full, and of the charge percentage.

use vstd::prelude::*;
use vstd::string::StringExecFns;

verus! {

use crate::snapshot::{ChargingState, NOTIFICATION_TIMEOUT_MS};

/// The decimal digit character for `d`, for `d < 10`.
pub open spec fn digit_char(d: nat) -> char {
    if d == 0 {
        '0'
    } else if d == 1 {
        '1'
    } else if d == 2 {
        '2'
    } else if d == 3 {
        '3'
    } else if d == 4 {
        '4'
    } else if d == 5 {
        '5'
    } else if d == 6 {
        '6'
    } else if d == 7 {
        '7'
    } else if d == 8 {
        '8'
    } else {
        '9'
    }
}

/// The decimal rendering of `n`, most significant digit first, with no
/// leading zero except for `n == 0` itself.
pub open spec fn dec_digits(n: nat) -> Seq<char>
    decreases n,
{
    if n < 10 {
        seq![digit_char(n)]
    } else {
        dec_digits(n / 10).push(digit_char(n % 10))
    }
}

fn digit_str(d: u32) -> (r: &'static str)
    requires
        d < 10,
    ensures
        r@ == seq![digit_char(d as nat)],
{
    match d {
        0 => {
            proof {
                reveal_strlit("0");
                assert("0"@ =~= seq![digit_char(0)]);
            }
            "0"
        },
        1 => {
            proof {
                reveal_strlit("1");
                assert("1"@ =~= seq![digit_char(1)]);
            }
            "1"
        },
        2 => {
            proof {
                reveal_strlit("2");
                assert("2"@ =~= seq![digit_char(2)]);
            }
            "2"
        },
        3 => {
            proof {
                reveal_strlit("3");
                assert("3"@ =~= seq![digit_char(3)]);
            }
            "3"
        },
        4 => {
            proof {
                reveal_strlit("4");
                assert("4"@ =~= seq![digit_char(4)]);
            }
            "4"
        },
        5 => {
            proof {
                reveal_strlit("5");
                assert("5"@ =~= seq![digit_char(5)]);
            }
            "5"
        },
        6 => {
            proof {
                reveal_strlit("6");
                assert("6"@ =~= seq![digit_char(6)]);
            }
            "6"
        },
        7 => {
            proof {
                reveal_strlit("7");
                assert("7"@ =~= seq![digit_char(7)]);
            }
            "7"
        },
        8 => {
            proof {
                reveal_strlit("8");
                assert("8"@ =~= seq![digit_char(8)]);
            }
            "8"
        },
        _ => {
            proof {
                reveal_strlit("9");
                assert("9"@ =~= seq![digit_char(9)]);
            }
            "9"
        },
    }
}

/// Renders `n` in decimal.
pub fn render_dec(n: u32) -> (r: String)
    ensures
        r@ == dec_digits(n as nat),
    decreases n,
{
    if n < 10 {
        String::from_str(digit_str(n))
    } else {
        let mut s = render_dec(n / 10);
        s.append(digit_str(n % 10));
        proof {
            assert(s@ =~= dec_digits(n as nat));
        }
        s
    }
}

/// The minute shown for a time until full of `secs` seconds: the minute
/// within the hour, not the total number of minutes. 7500 seconds is 125
/// minutes and shows as 5.
pub open spec fn spec_minute_of_hour(secs: u64) -> int {
    ((secs as int) / 60) % 60
}

/// Computes the displayed minute for a time until full of `secs` seconds.
pub fn minute_of_hour(secs: u64) -> (m: u64)
    ensures
        m == spec_minute_of_hour(secs),
        m < 60,
{
    (secs / 60) % 60
}

/// The body of a state-change notification when the time until full is
/// known: the minute within the hour, followed by `m`.
pub open spec fn minutes_body(m: nat) -> Seq<char> {
    dec_digits(m) + "m"@
}

/// Renders a state-change notification body from a minute value.
pub fn render_minutes_body(m: u64) -> (r: String)
    requires
        m < 60,
    ensures
        r@ == minutes_body(m as nat),
{
    let s = render_dec(m as u32);
    s.concat("m")
}

/// The charge percentage as text, from a per-mille value: the whole percent,
/// with a single tenths digit when the per-mille value is not a whole
/// percent. 105 per mille renders as `10.5`.
pub open spec fn charge_percent_chars(p: u32) -> Seq<char> {
    if p % 10 == 0 {
        dec_digits((p / 10) as nat)
    } else {
        dec_digits((p / 10) as nat) + seq!['.', digit_char((p % 10) as nat)]
    }
}

/// The body of a low-charge notification for a charge of `p` per mille.
pub open spec fn low_charge_body(p: u32) -> Seq<char> {
    "charge - "@ + charge_percent_chars(p) + "%"@
}

/// Renders a low-charge notification body from a per-mille charge value.
pub fn render_low_charge_body(p: u32) -> (r: String)
    ensures
        r@ == low_charge_body(p),
{
    let mut s = String::from_str("charge - ");
    let whole = render_dec(p / 10);
    s.append(whole.as_str());
    if p % 10 != 0 {
        s.append(".");
        s.append(digit_str(p % 10));
        proof {
            reveal_strlit(".");
            assert(s@ =~= "charge - "@ + charge_percent_chars(p));
        }
    }
    let r = s.concat("%");
    proof {
        assert(r@ =~= low_charge_body(p));
    }
    r
}

/// What the monitor asks the notifier to display: a transient value handed
/// over and not retained.
#[derive(Debug)]
pub struct NotificationRequest {
    /// Short headline of the notification.
    pub title: String,
    /// Longer text under the title, when the notification has one.
    pub body: Option<String>,
    /// How long the notification stays on screen, in milliseconds.
    pub timeout_ms: i32,
}

/// The mathematical content of a notification request.
#[verifier::ext_equal]
pub struct NotificationContent {
    pub title: Seq<char>,
    pub body: Option<Seq<char>>,
    pub timeout_ms: int,
}

impl View for NotificationRequest {
    type V = NotificationContent;

    open spec fn view(&self) -> NotificationContent {
        NotificationContent {
            title: self.title@,
            body: match self.body {
                Some(b) => Some(b@),
                None => None,
            },
            timeout_ms: self.timeout_ms as int,
        }
    }
}

/// The title of a state-change notification for the new charging state.
pub open spec fn spec_state_title(s: ChargingState) -> Seq<char> {
    match s {
        ChargingState::Unknown => "Battery state - Unknown"@,
        ChargingState::Charging => "Battery state - Charging"@,
        ChargingState::Discharging => "Battery state - Discharging"@,
        ChargingState::Empty => "Battery state - Empty"@,
        ChargingState::Full => "Battery state - Full"@,
    }
}

/// The full content of a state-change notification: the title names the new
/// state; the body shows the minute-of-hour until full when that is known.
pub open spec fn spec_state_change_notification(s: ChargingState, time_to_full_secs: Option<u64>) -> NotificationContent {
    NotificationContent {
        title: spec_state_title(s),
        body: match time_to_full_secs {
            Some(secs) => Some(minutes_body(spec_minute_of_hour(secs) as nat)),
            None => None,
        },
        timeout_ms: NOTIFICATION_TIMEOUT_MS as int,
    }
}

/// The full content of a low-charge notification for a charge of `p` per
/// mille.
pub open spec fn spec_low_charge_notification(p: u32) -> NotificationContent {
    NotificationContent {
        title: "Battery charge is critically low"@,
        body: Some(low_charge_body(p)),
        timeout_ms: NOTIFICATION_TIMEOUT_MS as int,
    }
}

fn state_title(s: ChargingState) -> (r: &'static str)
    ensures
        r@ == spec_state_title(s),
{
    match s {
        ChargingState::Unknown => "Battery state - Unknown",
        ChargingState::Charging => "Battery state - Charging",
        ChargingState::Discharging => "Battery state - Discharging",
        ChargingState::Empty => "Battery state - Empty",
        ChargingState::Full => "Battery state - Full",
    }
}

/// Builds the state-change notification for a new charging state and, when
/// known, the seconds until the battery is full.
pub fn state_change_notification(s: ChargingState, time_to_full_secs: Option<u64>) -> (r: NotificationRequest)
    ensures
        r@ == spec_state_change_notification(s, time_to_full_secs),
{
    let title = String::from_str(state_title(s));
    let body = match time_to_full_secs {
        Some(secs) => Some(render_minutes_body(minute_of_hour(secs))),
        None => None,
    };
    let r = NotificationRequest { title, body, timeout_ms: NOTIFICATION_TIMEOUT_MS };
    proof {
        assert(r@ =~= spec_state_change_notification(s, time_to_full_secs));
    }
    r
}

/// Builds the low-charge notification for a charge of `p` per mille.
pub fn low_charge_notification(p: u32) -> (r: NotificationRequest)
    ensures
        r@ == spec_low_charge_notification(p),
{
    let title = String::from_str("Battery charge is critically low");
    let body = Some(render_low_charge_body(p));
    let r = NotificationRequest { title, body, timeout_ms: NOTIFICATION_TIMEOUT_MS };
    proof {
        assert(r@ =~= spec_low_charge_notification(p));
    }
    r
}

} // verus!
