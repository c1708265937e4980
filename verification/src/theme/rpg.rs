//! Gauges, status icons and relative dates.
//!
//! Every status is shown by a shape as well as a color, and every gauge can
//! be paired with its number.

use crate::model::computed::MoodTrend;
use crate::text::{decimal, push_decimal, push_repeated, same_text};
use crate::utils::Color;
use chrono::TimeDelta;
use chrono_humanize::HumanTime;
use vstd::prelude::*;
use vstd::string::StringExecFns;

verus! {

/// Check mark: all is well
pub const ICON_OK: &'static str = "✓";

/// Warning triangle
pub const ICON_WARNING: &'static str = "⚠";

/// Cross mark
pub const ICON_DANGER: &'static str = "✗";

/// Filled heart of a gauge
pub const ICON_HEART: &'static str = "♥";

/// Empty heart of a gauge
pub const ICON_EMPTY_HEART: &'static str = "♡";

/// Rising
pub const ICON_UP: &'static str = "▲";

/// Falling
pub const ICON_DOWN: &'static str = "▼";

/// Stable
pub const ICON_STABLE: &'static str = "◆";

/// Active report
pub const ICON_ACTIVE: &'static str = "●";

/// Inactive report
pub const ICON_INACTIVE: &'static str = "○";

/// Meeting
pub const ICON_MEETING: &'static str = "☰";

/// Person
pub const ICON_PERSON: &'static str = "◉";

/// The largest number of days that the relative-date wording can take.
pub const MAX_DAYS_AGO: i64 = 106_751_991_167;

/// `count` copies of `c`.
pub open spec fn repeated(c: char, count: nat) -> Seq<char> {
    Seq::new(count, |i: int| c)
}

/// A bar of `max` cells of which the first `value` are filled, or all of
/// them if `value` is larger.
pub open spec fn progress_bar_text(value: u8, max: u8) -> Seq<char> {
    let filled = if value <= max {
        value
    } else {
        max
    };
    repeated('█', filled as nat) + repeated('░', (max - filled) as nat)
}

/// Five hearts of which the first `value` are filled, or all of them if
/// `value` is larger.
pub open spec fn mood_gauge_text(value: u8) -> Seq<char> {
    let filled = if value <= 5 {
        value
    } else {
        5
    };
    repeated('♥', filled as nat) + repeated('♡', (5 - filled) as nat)
}

/// Create a block progress bar: ████░░░░░░
pub fn progress_bar(value: u8, max: u8) -> (s: String)
    ensures
        s@ == progress_bar_text(value, max),
{
    let filled: u8 = if value <= max {
        value
    } else {
        max
    };
    let mut s: String = String::new();
    push_repeated(&mut s, '█', filled as usize);
    push_repeated(&mut s, '░', (max - filled) as usize);
    assert(s@ =~= progress_bar_text(value, max));
    s
}

/// Create a mood gauge: ♥♥♥♡♡
pub fn mood_gauge(value: u8) -> (s: String)
    ensures
        s@ == mood_gauge_text(value),
{
    let filled: u8 = if value <= 5 {
        value
    } else {
        5
    };
    let mut s: String = String::new();
    push_repeated(&mut s, '♥', filled as usize);
    push_repeated(&mut s, '♡', (5 - filled) as usize);
    assert(s@ =~= mood_gauge_text(value));
    s
}

/// Mood gauge with explicit numeric indicator: ♥♥♥♡♡ (3)
pub fn mood_gauge_with_value(value: u8) -> (s: String)
    ensures
        s@ == mood_gauge_text(value) + " ("@ + decimal(value as nat) + ")"@,
{
    let mut s: String = mood_gauge(value).concat(" (");
    push_decimal(&mut s, value as u128);
    s.concat(")")
}

/// The color of a mood: from magenta for 1 to cyan for 5, gray for anything
/// else.
pub open spec fn mood_color_spec(value: u8) -> Color {
    if value == 1 {
        Color::Magenta
    } else if value == 2 {
        Color::LightMagenta
    } else if value == 3 {
        Color::Yellow
    } else if value == 4 {
        Color::LightCyan
    } else if value == 5 {
        Color::Cyan
    } else {
        Color::Gray
    }
}

/// Get mood color
pub fn mood_color(value: u8) -> (c: Color)
    ensures
        c == mood_color_spec(value),
{
    if value == 1 {
        Color::Magenta
    } else if value == 2 {
        Color::LightMagenta
    } else if value == 3 {
        Color::Yellow
    } else if value == 4 {
        Color::LightCyan
    } else if value == 5 {
        Color::Cyan
    } else {
        Color::Gray
    }
}

/// Get status icon based on overdue state
pub fn overdue_icon(is_overdue: bool) -> (s: &'static str)
    ensures
        s@ == if is_overdue {
            "⚠"@
        } else {
            "✓"@
        },
{
    if is_overdue {
        ICON_WARNING
    } else {
        ICON_OK
    }
}

/// Get status color based on overdue state
pub fn overdue_color(is_overdue: bool) -> (c: Color)
    ensures
        c == if is_overdue {
            Color::Yellow
        } else {
            Color::Cyan
        },
{
    if is_overdue {
        Color::Yellow
    } else {
        Color::Cyan
    }
}

/// Get active status icon
pub fn active_icon(is_active: bool) -> (s: &'static str)
    ensures
        s@ == if is_active {
            "●"@
        } else {
            "○"@
        },
{
    if is_active {
        ICON_ACTIVE
    } else {
        ICON_INACTIVE
    }
}

/// The shape that stands for a trend.
pub open spec fn trend_icon(trend: Option<MoodTrend>) -> Seq<char> {
    match trend {
        Some(MoodTrend::Rising) => "▲"@,
        Some(MoodTrend::Falling) => "▼"@,
        Some(MoodTrend::Stable) => "◆"@,
        None => " "@,
    }
}

/// Mood trend with distinct shapes
pub fn mood_trend_icon(trend: Option<MoodTrend>) -> (s: &'static str)
    ensures
        s@ == trend_icon(trend),
{
    match trend {
        Some(MoodTrend::Rising) => ICON_UP,
        Some(MoodTrend::Falling) => ICON_DOWN,
        Some(MoodTrend::Stable) => ICON_STABLE,
        None => " ",
    }
}

/// How a span of `days` days reads in words, a negative span lying in the
/// past ("now", "a day ago", "2 weeks ago"): the wording of the
/// `chrono-humanize` crate.
pub uninterp spec fn humanized_span(days: int) -> Seq<char>;

/// `HumanTime::from` and its `Display` of chrono-humanize, on the span made
/// by `TimeDelta::days` of chrono: the text depends on the number of days
/// alone. `TimeDelta::days` takes no more than `MAX_DAYS_AGO` days either
/// way.
#[verifier::external_body]
fn humanize_span(days: i64) -> (s: String)
    requires
        -MAX_DAYS_AGO <= days <= MAX_DAYS_AGO,
    ensures
        s@ == humanized_span(days as int),
{
    HumanTime::from(TimeDelta::days(days)).to_string()
}

/// Days since an event as relative time: "Never" without one, "Future?"
/// for a negative number, else the wording for that many days ago.
pub open spec fn days_ago_text(days: Option<i64>) -> Seq<char> {
    match days {
        None => "Never"@,
        Some(d) => if d < 0 {
            "Future?"@
        } else {
            humanized_span(-d)
        },
    }
}

/// Format days as human-readable relative time (e.g., "5 days ago", "now")
pub fn format_days_ago(days: Option<i64>) -> (s: String)
    requires
        days matches Some(d) ==> d <= MAX_DAYS_AGO,
    ensures
        s@ == days_ago_text(days),
{
    match days {
        None => String::from_str("Never"),
        Some(d) => if d < 0 {
            String::from_str("Future?")
        } else {
            humanize_span(-d)
        },
    }
}

/// The wording `ago` for `days` days, with a check mark in front for today
/// and a warning sign where the days exceed the frequency by more than
/// three.
pub open spec fn decorated_days_ago(days: i64, frequency_days: u32, ago: Seq<char>) -> Seq<char> {
    if days == 0 {
        "✓ "@ + ago
    } else if days > frequency_days + 3 {
        "⚠ "@ + ago
    } else {
        ago
    }
}

/// Put the icon that goes with `days` in front of the wording `ago`.
pub fn decorate_days_ago(days: i64, frequency_days: u32, ago: &str) -> (s: String)
    ensures
        s@ == decorated_days_ago(days, frequency_days, ago@),
{
    if days == 0 {
        String::from_str("✓ ").concat(ago)
    } else if days > frequency_days as i64 + 3 {
        String::from_str("⚠ ").concat(ago)
    } else {
        String::from_str(ago)
    }
}

/// Days since the last meeting with its icon.
pub open spec fn days_since_text(days: Option<i64>, frequency_days: u32) -> Seq<char> {
    match days {
        None => "⚠ Never"@,
        Some(d) => if d < 0 {
            "Future?"@
        } else {
            decorated_days_ago(d, frequency_days, humanized_span(-d))
        },
    }
}

/// Format days since meeting with icon
pub fn format_days_since(days: Option<i64>, frequency_days: u32) -> (s: String)
    requires
        days matches Some(d) ==> d <= MAX_DAYS_AGO,
    ensures
        s@ == days_since_text(days, frequency_days),
{
    match days {
        None => String::from_str("⚠ Never"),
        Some(d) => if d < 0 {
            String::from_str("Future?")
        } else {
            let ago: String = format_days_ago(Some(d));
            decorate_days_ago(d, frequency_days, ago.as_str())
        },
    }
}

/// The display name of a frequency; any other text stands for itself.
pub open spec fn frequency_label(frequency: Seq<char>) -> Seq<char> {
    if frequency == "weekly"@ {
        "Weekly"@
    } else if frequency == "biweekly"@ {
        "Bi-weekly"@
    } else if frequency == "monthly"@ {
        "Monthly"@
    } else {
        frequency
    }
}

/// Format meeting frequency for display
pub fn format_meeting_frequency<'a>(frequency: &'a str) -> (s: &'a str)
    ensures
        s@ == frequency_label(frequency@),
{
    if same_text(frequency, "weekly") {
        "Weekly"
    } else if same_text(frequency, "biweekly") {
        "Bi-weekly"
    } else if same_text(frequency, "monthly") {
        "Monthly"
    } else {
        frequency
    }
}

/// Create a separator line
pub fn separator(width: usize) -> (s: String)
    ensures
        s@ == repeated('─', width as nat),
{
    let mut s: String = String::new();
    push_repeated(&mut s, '─', width);
    assert(s@ =~= repeated('─', width as nat));
    s
}

/// Create a double separator line
pub fn double_separator(width: usize) -> (s: String)
    ensures
        s@ == repeated('═', width as nat),
{
    let mut s: String = String::new();
    push_repeated(&mut s, '═', width);
    assert(s@ =~= repeated('═', width as nat));
    s
}

} // verus!
