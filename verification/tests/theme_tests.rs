use vibe_manager::model::{MoodTrend, ReportSummary, ReportType};
use vibe_manager::theme::rpg::{
    ICON_ACTIVE, ICON_DANGER, ICON_DOWN, ICON_EMPTY_HEART, ICON_HEART, ICON_INACTIVE,
    ICON_MEETING, ICON_OK, ICON_PERSON, ICON_STABLE, ICON_UP, ICON_WARNING, MAX_DAYS_AGO,
};
use vibe_manager::theme::{
    active_icon, decorate_days_ago, double_separator, face, format_days_ago, format_days_since,
    format_meeting_frequency, frame_bottom, frame_mid, frame_top, headband_line, is_manager,
    mood_color, mood_gauge, mood_gauge_with_value, mood_trend_icon, overdue_color, overdue_icon,
    progress_bar, separator, FaceSprite,
};
use vibe_manager::utils::Color;

fn sprite_for_level(level: &str) -> FaceSprite<'_> {
    FaceSprite { level: Some(level), mood: Some(3), is_overdue: false, days_since_meeting: Some(5) }
}

#[test]
fn test_progress_bar() {
    assert_eq!(progress_bar(3, 5), "███░░");
    assert_eq!(progress_bar(0, 5), "░░░░░");
    assert_eq!(progress_bar(5, 5), "█████");
    assert_eq!(progress_bar(10, 5), "█████"); // Clamped
}

#[test]
fn test_progress_bar_edges() {
    assert_eq!(progress_bar(0, 0), "");
    assert_eq!(progress_bar(7, 0), "");
    assert_eq!(progress_bar(255, 255).chars().count(), 255);
    assert_eq!(progress_bar(1, 255).chars().filter(|c| *c == '░').count(), 254);
}

#[test]
fn test_mood_gauge() {
    assert_eq!(mood_gauge(3), "♥♥♥♡♡");
    assert_eq!(mood_gauge(5), "♥♥♥♥♥");
    assert_eq!(mood_gauge(0), "♡♡♡♡♡");
}

#[test]
fn test_mood_gauge_clamps_at_five() {
    assert_eq!(mood_gauge(6), "♥♥♥♥♥");
    assert_eq!(mood_gauge(255), "♥♥♥♥♥");
    assert_eq!(mood_gauge(1), "♥♡♡♡♡");
}

#[test]
fn test_mood_gauge_with_value() {
    assert_eq!(mood_gauge_with_value(3), "♥♥♥♡♡ (3)");
}

#[test]
fn test_mood_gauge_with_value_writes_the_number_in_decimal() {
    assert_eq!(mood_gauge_with_value(0), "♡♡♡♡♡ (0)");
    assert_eq!(mood_gauge_with_value(10), "♥♥♥♥♥ (10)");
    assert_eq!(mood_gauge_with_value(255), "♥♥♥♥♥ (255)");
    assert_eq!(mood_gauge_with_value(100), "♥♥♥♥♥ (100)");
}

#[test]
fn test_format_days_since() {
    assert_eq!(format_days_since(None, 7), "⚠ Never");
    assert_eq!(format_days_since(Some(0), 7), "✓ now");
    assert_eq!(format_days_since(Some(1), 7), "a day ago");
    assert_eq!(format_days_since(Some(5), 7), "5 days ago");
}

#[test]
fn test_format_days_since_warns_beyond_three_days_late() {
    assert_eq!(format_days_since(Some(10), 7), "a week ago");
    assert_eq!(format_days_since(Some(11), 7), "⚠ 2 weeks ago");
    assert_eq!(format_days_since(Some(-1), 7), "Future?");
    assert_eq!(format_days_since(Some(5), u32::MAX), "5 days ago");
    assert_eq!(decorate_days_ago(0, 7, "now"), "✓ now");
    assert_eq!(decorate_days_ago(10, 7, "text"), "text");
    assert_eq!(decorate_days_ago(11, 7, "text"), "⚠ text");
    assert_eq!(decorate_days_ago(-4, 7, "text"), "text");
}

#[test]
fn test_format_days_ago() {
    assert_eq!(format_days_ago(None), "Never");
    assert_eq!(format_days_ago(Some(0)), "now");
    assert_eq!(format_days_ago(Some(1)), "a day ago");
    assert_eq!(format_days_ago(Some(7)), "a week ago");
    assert_eq!(format_days_ago(Some(14)), "2 weeks ago");
}

#[test]
fn test_format_days_ago_edges() {
    assert_eq!(format_days_ago(Some(-1)), "Future?");
    assert_eq!(format_days_ago(Some(i64::MIN)), "Future?");
    assert_eq!(format_days_ago(Some(400)), "a year ago");
    // the longest span that can be put into words
    assert!(format_days_ago(Some(MAX_DAYS_AGO)).ends_with("years ago"));
}

#[test]
fn test_icons_and_colors() {
    assert_eq!(overdue_icon(true), "⚠");
    assert_eq!(overdue_icon(false), "✓");
    assert_eq!(overdue_color(true), Color::Yellow);
    assert_eq!(overdue_color(false), Color::Cyan);
    assert_eq!(active_icon(true), "●");
    assert_eq!(active_icon(false), "○");
    assert_eq!(mood_trend_icon(Some(MoodTrend::Rising)), "▲");
    assert_eq!(mood_trend_icon(Some(MoodTrend::Falling)), "▼");
    assert_eq!(mood_trend_icon(Some(MoodTrend::Stable)), "◆");
    assert_eq!(mood_trend_icon(None), " ");
    assert_eq!(mood_color(1), Color::Magenta);
    assert_eq!(mood_color(2), Color::LightMagenta);
    assert_eq!(mood_color(3), Color::Yellow);
    assert_eq!(mood_color(4), Color::LightCyan);
    assert_eq!(mood_color(5), Color::Cyan);
    assert_eq!(mood_color(0), Color::Gray);
    assert_eq!(mood_color(6), Color::Gray);
    assert_eq!(MoodTrend::Rising.as_str(), "↗");
    assert_eq!(MoodTrend::Falling.as_str(), "↘");
    assert_eq!(MoodTrend::Stable.as_str(), " ");
    assert_eq!(
        [ICON_OK, ICON_WARNING, ICON_DANGER, ICON_HEART, ICON_EMPTY_HEART, ICON_UP],
        ["✓", "⚠", "✗", "♥", "♡", "▲"]
    );
    assert_eq!(
        [ICON_DOWN, ICON_STABLE, ICON_ACTIVE, ICON_INACTIVE, ICON_MEETING, ICON_PERSON],
        ["▼", "◆", "●", "○", "☰", "◉"]
    );
}

#[test]
fn test_format_meeting_frequency_and_separators() {
    assert_eq!(format_meeting_frequency("weekly"), "Weekly");
    assert_eq!(format_meeting_frequency("biweekly"), "Bi-weekly");
    assert_eq!(format_meeting_frequency("monthly"), "Monthly");
    assert_eq!(format_meeting_frequency("quarterly"), "quarterly");
    assert_eq!(format_meeting_frequency(""), "");
    assert_eq!(separator(3), "───");
    assert_eq!(separator(0), "");
    assert_eq!(double_separator(4), "════");
}

#[test]
fn test_ic_sprite_line_count() {
    for level in ["P1", "P2", "P3", "P4", "P5"] {
        let sprite = sprite_for_level(level);
        assert_eq!(sprite.lines().len(), 3, "IC {} should have 3 lines", level);
        assert_eq!(sprite.line_count(), 3);
    }
}

#[test]
fn test_manager_sprite_line_count() {
    for level in ["M1", "M2", "M3", "M4", "M5"] {
        let sprite = sprite_for_level(level);
        assert_eq!(sprite.lines().len(), 4, "Manager {} should have 4 lines", level);
        assert_eq!(sprite.line_count(), 4);
    }
}

#[test]
fn test_ic_frame_progression() {
    // P1: rounded
    assert_eq!(frame_top(Some("P1")), "╭─────╮");
    assert_eq!(frame_bottom(Some("P1")), "╰─────╯");

    // P2: square
    assert_eq!(frame_top(Some("P2")), "┌─────┐");
    assert_eq!(frame_bottom(Some("P2")), "└─────┘");

    // P3: double-line
    assert_eq!(frame_top(Some("P3")), "╔═════╗");
    assert_eq!(frame_bottom(Some("P3")), "╚═════╝");

    // P4: double-line with single star
    assert_eq!(frame_top(Some("P4")), "╔══★══╗");

    // P5: double-line with double stars
    assert_eq!(frame_top(Some("P5")), "╔═★═★═╗");
}

#[test]
fn test_manager_frame_progression() {
    // M1: rounded (same as P1)
    assert_eq!(frame_top(Some("M1")), "╭─────╮");
    assert_eq!(frame_bottom(Some("M1")), "╰─────╯");

    // M2: square (same as P2)
    assert_eq!(frame_top(Some("M2")), "┌─────┐");
    assert_eq!(frame_bottom(Some("M2")), "└─────┘");

    // M3-M5: double-line without stars (headband is the status symbol)
    for level in ["M3", "M4", "M5"] {
        assert_eq!(frame_top(Some(level)), "╔═════╗");
        assert_eq!(frame_bottom(Some(level)), "╚═════╝");
    }
}

#[test]
fn test_manager_headband_progression() {
    // M1: hollow diamond
    assert_eq!(headband_line(Some("M1")), Some("│──◇──│"));

    // M2: filled diamond
    assert_eq!(headband_line(Some("M2")), Some("│══◆══│"));

    // M3: single star
    assert_eq!(headband_line(Some("M3")), Some("║══★══║"));

    // M4: double star
    assert_eq!(headband_line(Some("M4")), Some("║═★═★═║"));

    // M5: triple star
    assert_eq!(headband_line(Some("M5")), Some("║★═★═★║"));

    // ICs should have no headband
    for level in ["P1", "P2", "P3", "P4", "P5"] {
        assert_eq!(headband_line(Some(level)), None);
    }
}

#[test]
fn test_is_manager_detection() {
    for level in ["M1", "M2", "M3", "M4", "M5"] {
        assert!(is_manager(Some(level)), "{} should be detected as manager", level);
    }

    for level in ["P1", "P2", "P3", "P4", "P5"] {
        assert!(!is_manager(Some(level)), "{} should not be detected as manager", level);
    }

    assert!(!is_manager(None));
}

#[test]
fn test_frames_for_unknown_levels() {
    assert_eq!(frame_top(None), "╭─────╮");
    assert_eq!(frame_top(Some("-")), "╭─────╮");
    assert_eq!(frame_bottom(None), "╚═════╝");
    assert_eq!(frame_mid(None), ("║", "║"));
    assert_eq!(frame_mid(Some("P1")), ("│", "│"));
    assert_eq!(frame_mid(Some("M2")), ("│", "│"));
    assert_eq!(frame_mid(Some("P3")), ("║", "║"));
    assert_eq!(headband_line(None), None);
    assert!(!is_manager(Some("m1")));
}

#[test]
fn test_faces() {
    assert_eq!(face(Some(5), false), "^‿^");
    assert_eq!(face(Some(4), false), "◕‿◕");
    assert_eq!(face(Some(3), false), "•_•");
    assert_eq!(face(Some(2), false), "◦︵◦");
    assert_eq!(face(Some(1), false), "x_x");
    assert_eq!(face(None, false), "•_•");
    assert_eq!(face(Some(9), false), "•_•");
    assert_eq!(face(Some(5), true), "-_-");
    assert_eq!(face(None, true), "-_-");
}

#[test]
fn test_sprite_lines() {
    let sprite =
        FaceSprite { level: Some("P3"), mood: Some(4), is_overdue: false, days_since_meeting: Some(2) };
    assert_eq!(sprite.lines(), vec!["╔═════╗", "║ ◕‿◕ ║", "╚═════╝"]);

    // mood 2 holds a wide character and stands one place further left
    let worried =
        FaceSprite { level: Some("P1"), mood: Some(2), is_overdue: false, days_since_meeting: Some(2) };
    assert_eq!(worried.lines(), vec!["╭─────╮", "│◦︵◦ │", "╰─────╯"]);

    let manager =
        FaceSprite { level: Some("M4"), mood: Some(5), is_overdue: false, days_since_meeting: None };
    assert_eq!(manager.lines(), vec!["╔═════╗", "║═★═★═║", "║ ^‿^ ║", "╚═════╝"]);

    let overdue =
        FaceSprite { level: Some("P2"), mood: Some(5), is_overdue: true, days_since_meeting: Some(14) };
    assert_eq!(overdue.lines(), vec!["  ┌─────┐ z", "  │ -_- │ Z", "  └─────┘  "]);

    let very_overdue =
        FaceSprite { level: Some("M1"), mood: None, is_overdue: true, days_since_meeting: Some(15) };
    assert_eq!(
        very_overdue.lines(),
        vec!["   ╭─────╮ zZ", "   │──◇──│ zZ", "   │ -_- │ZzZ", "   ╰─────╯   "]
    );

    let never_met =
        FaceSprite { level: None, mood: None, is_overdue: true, days_since_meeting: None };
    assert_eq!(never_met.lines(), vec!["  ╭─────╮ z", "  ║ -_- ║ Z", "  ╚═════╝  "]);
    assert_eq!(never_met.line_count(), 3);
}

#[test]
fn test_sprite_from_summary() {
    let summary = ReportSummary {
        name: "Test".to_string(),
        level: "M2".to_string(),
        meeting_frequency: "biweekly".to_string(),
        active: true,
        days_since_meeting: Some(30),
        is_overdue: true,
        mood_trend: None,
        recent_mood: Some(1),
        color: Color::White,
        urgency_score: 0,
        report_type: ReportType::Manager,
        team_metrics: None,
    };
    let sprite = FaceSprite::from_summary(&summary);
    assert_eq!(sprite.level, Some("M2"));
    assert_eq!(sprite.mood, Some(1));
    assert!(sprite.is_overdue);
    assert_eq!(sprite.days_since_meeting, Some(30));
    assert_eq!(sprite.line_count(), 4);
    assert_eq!(sprite.lines().len(), 4);
}
