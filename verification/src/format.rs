//! How values and states are put into words.

use crate::types::{duration_secs, whole_seconds, DeviceKind, PropertyValue, PropertyValueView};
use vstd::prelude::*;
use vstd::string::StringExecFns;

verus! {

/// The character of a decimal digit.
pub open spec fn digit(d: int) -> char {
    if d == 0 {
        '0'
    } else if d == 1 {
        '1'
    } else if d == 2 {
        '2'
    } else if d == 3 {
        '3'
    } else if d == 4 {
        '4'
    } else if d == 5 {
        '5'
    } else if d == 6 {
        '6'
    } else if d == 7 {
        '7'
    } else if d == 8 {
        '8'
    } else {
        '9'
    }
}

/// A number in decimal digits, without leading zeros.
pub open spec fn decimal(n: nat) -> Seq<char>
    decreases n,
{
    if n < 10 {
        seq![digit(n as int)]
    } else {
        decimal(n / 10).push(digit((n % 10) as int))
    }
}

fn digit_text(d: u64) -> (res: &'static str)
    requires
        d < 10,
    ensures
        res@ == seq![digit(d as int)],
{
    proof {
        reveal_strlit("0");
        reveal_strlit("1");
        reveal_strlit("2");
        reveal_strlit("3");
        reveal_strlit("4");
        reveal_strlit("5");
        reveal_strlit("6");
        reveal_strlit("7");
        reveal_strlit("8");
        reveal_strlit("9");
    }
    let res = if d == 0 {
        "0"
    } else if d == 1 {
        "1"
    } else if d == 2 {
        "2"
    } else if d == 3 {
        "3"
    } else if d == 4 {
        "4"
    } else if d == 5 {
        "5"
    } else if d == 6 {
        "6"
    } else if d == 7 {
        "7"
    } else if d == 8 {
        "8"
    } else {
        "9"
    };
    assert(res@ =~= seq![digit(d as int)]);
    res
}

/// Writes a number in decimal digits.
pub fn decimal_string(n: u64) -> (res: String)
    ensures
        res@ == decimal(n as nat),
    decreases n,
{
    if n < 10 {
        String::from_str(digit_text(n))
    } else {
        let mut res = decimal_string(n / 10);
        res.append(digit_text(n % 10));
        assert(res@ =~= decimal((n / 10) as nat).push(digit((n % 10) as int)));
        res
    }
}

/// A value in words, without its unit.
pub open spec fn value_text(value: PropertyValueView) -> Seq<char> {
    match value {
        PropertyValueView::Bool(b) => if b {
            "Yes"@
        } else {
            "No"@
        },
        PropertyValueView::Number(n) => decimal(n as nat),
        PropertyValueView::Sensor(current, target) => decimal(current as nat) + " / "@ + decimal(
            target as nat,
        ),
        PropertyValueView::String(s) => if s.len() == 0 {
            "-"@
        } else {
            s
        },
        PropertyValueView::Duration(d) => duration_text(duration_secs(d)),
    }
}

/// A number of seconds as whole hours and the whole minutes left over.
pub open spec fn duration_text(secs: u64) -> Seq<char> {
    decimal((secs / 3600) as nat) + "h "@ + decimal(((secs % 3600) / 60) as nat) + "m"@
}

/// Writes a number of seconds as whole hours and the whole minutes left
/// over; the seconds left over are not shown.
pub fn format_duration(secs: u64) -> (res: String)
    ensures
        res@ == duration_text(secs),
{
    let hours = secs / 3600;
    let mins = (secs % 3600) / 60;
    let mut res = decimal_string(hours);
    res.append("h ");
    let m = decimal_string(mins);
    res.append(m.as_str());
    res.append("m");
    res
}

/// A value in words, followed by a space and its unit where it has one.
pub open spec fn value_with_unit(value: PropertyValueView, unit: Option<Seq<char>>) -> Seq<char> {
    match unit {
        Some(u) => value_text(value) + " "@ + u,
        None => value_text(value),
    }
}

/// The view of an optional string slice.
pub open spec fn unit_view(unit: Option<&str>) -> Option<Seq<char>> {
    match unit {
        Some(u) => Some(u@),
        None => None,
    }
}

/// Puts a value into words: `Yes` or `No`; a number in decimal; a sensor
/// reading as current and target with ` / ` between; a text as it is, or
/// `-` when it is empty; a duration as whole hours and the minutes left
/// over. The unit follows after a space.
pub fn format_value(value: &PropertyValue, unit: Option<&str>) -> (res: String)
    ensures
        res@ == value_with_unit(value@, unit_view(unit)),
{
    let mut text = match value {
        PropertyValue::Bool(b) => {
            if *b {
                String::from_str("Yes")
            } else {
                String::from_str("No")
            }
        },
        PropertyValue::Number(n) => decimal_string(*n as u64),
        PropertyValue::Sensor(current, target) => {
            let mut s = decimal_string(*current as u64);
            s.append(" / ");
            let t = decimal_string(*target as u64);
            s.append(t.as_str());
            s
        },
        PropertyValue::String(s) => {
            if s.as_str().is_empty() {
                String::from_str("-")
            } else {
                s.clone()
            }
        },
        PropertyValue::Duration(d) => format_duration(whole_seconds(d)),
    };
    assert(text@ == value_text(value@));
    match unit {
        Some(u) => {
            text.append(" ");
            text.append(u);
            text
        },
        None => text,
    }
}

/// The name of a kind of device, in title case.
pub open spec fn kind_name(kind: DeviceKind) -> Seq<char> {
    match kind {
        DeviceKind::WashingMachine => "Washing Machine"@,
        DeviceKind::TumbleDryer => "Tumble Dryer"@,
        DeviceKind::WasherDryer => "Washer Dryer"@,
        DeviceKind::Dishwasher => "Dishwasher"@,
        DeviceKind::CoffeeMachine => "Coffee Machine"@,
    }
}

impl DeviceKind {
    /// The name of the kind, in title case.
    pub fn name(&self) -> (res: &'static str)
        ensures
            res@ == kind_name(*self),
    {
        match self {
            DeviceKind::WashingMachine => "Washing Machine",
            DeviceKind::TumbleDryer => "Tumble Dryer",
            DeviceKind::WasherDryer => "Washer Dryer",
            DeviceKind::Dishwasher => "Dishwasher",
            DeviceKind::CoffeeMachine => "Coffee Machine",
        }
    }
}

/// How long ago something happened, in words: `just now` within the first
/// second, then the whole seconds.
pub open spec fn age_text(elapsed_ms: u64) -> Seq<char> {
    if elapsed_ms < 1000 {
        "just now"@
    } else {
        decimal((elapsed_ms / 1000) as nat) + "s ago"@
    }
}

/// Says how long ago something happened that lies `elapsed_ms`
/// milliseconds back.
pub fn format_age(elapsed_ms: u64) -> (res: String)
    ensures
        res@ == age_text(elapsed_ms),
{
    if elapsed_ms < 1000 {
        String::from_str("just now")
    } else {
        let mut s = decimal_string(elapsed_ms / 1000);
        s.append("s ago");
        s
    }
}

} // verus!
