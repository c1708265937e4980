use vibe_manager::app::ViewMode;
use vibe_manager::components::{
    chart_cell, chart_row, chart_window_start, key_hints, mode_label, NewReportField,
    NewReportState,
};
use vibe_manager::model::ReportType;

#[test]
fn test_new_report_field_cycle() {
    let order = [
        NewReportField::ReportType,
        NewReportField::Name,
        NewReportField::Title,
        NewReportField::Level,
        NewReportField::Frequency,
    ];
    for i in 0..5 {
        assert_eq!(order[i].next(), order[(i + 1) % 5]);
        assert_eq!(order[(i + 1) % 5].prev(), order[i]);
    }
}

#[test]
fn test_new_report_state_default() {
    let state = NewReportState::default();
    assert_eq!(state.report_type, ReportType::Individual);
    assert_eq!(state.name, "");
    assert_eq!(state.title, "");
    assert_eq!(state.level_index, 2);
    assert_eq!(state.frequency_index, 1);
    assert_eq!(state.current_field, NewReportField::ReportType);
    assert_eq!(state.level_str(), "P3");
    assert_eq!(state.frequency_str(), "biweekly");
    assert!(!state.is_valid());
}

#[test]
fn test_new_report_state_left_and_right() {
    let mut state = NewReportState::default();
    // on the type field both arrows toggle
    state.handle_left();
    assert_eq!(state.report_type, ReportType::Manager);
    assert_eq!(state.level_str(), "M3");
    state.handle_right();
    assert_eq!(state.report_type, ReportType::Individual);

    // text fields ignore the arrows
    state.next_field();
    assert_eq!(state.current_field, NewReportField::Name);
    state.handle_left();
    state.handle_right();
    assert_eq!(state.level_index, 2);
    assert_eq!(state.frequency_index, 1);
    assert_eq!(state.report_type, ReportType::Individual);

    state.next_field();
    state.next_field();
    assert_eq!(state.current_field, NewReportField::Level);
    for _ in 0..10 {
        state.handle_right();
    }
    assert_eq!(state.level_index, 4);
    assert_eq!(state.level_str(), "P5");
    for _ in 0..10 {
        state.handle_left();
    }
    assert_eq!(state.level_index, 0);
    assert_eq!(state.level_str(), "P1");

    state.next_field();
    assert_eq!(state.current_field, NewReportField::Frequency);
    state.handle_left();
    assert_eq!(state.frequency_str(), "weekly");
    state.handle_left();
    assert_eq!(state.frequency_index, 0);
    state.handle_right();
    state.handle_right();
    state.handle_right();
    assert_eq!(state.frequency_index, 2);
    assert_eq!(state.frequency_str(), "monthly");

    state.next_field();
    assert_eq!(state.current_field, NewReportField::ReportType);
    state.prev_field();
    assert_eq!(state.current_field, NewReportField::Frequency);
}

#[test]
fn test_new_report_state_typing() {
    let mut state = NewReportState::default();
    // nothing is typed into the selectors
    state.handle_char('x');
    state.handle_backspace();
    assert_eq!(state.name, "");
    assert_eq!(state.title, "");

    state.next_field();
    for c in "Zoé".chars() {
        state.handle_char(c);
    }
    assert_eq!(state.name, "Zoé");
    assert_eq!(state.title, "");
    state.handle_backspace();
    assert_eq!(state.name, "Zo");
    assert!(!state.is_valid());

    state.next_field();
    state.handle_backspace();
    assert_eq!(state.title, "");
    state.handle_char(' ');
    assert!(!state.is_valid());
    state.handle_char('Q');
    state.handle_char('A');
    assert_eq!(state.title, " QA");
    assert_eq!(state.name, "Zo");
    assert!(state.is_valid());

    state.prev_field();
    state.handle_backspace();
    state.handle_backspace();
    state.handle_backspace();
    assert_eq!(state.name, "");
    assert!(!state.is_valid());
}

#[test]
fn test_level_str_writes_any_index_in_decimal() {
    let mut state = NewReportState::default();
    state.level_index = 9;
    assert_eq!(state.level_str(), "P10");
    state.level_index = usize::MAX;
    state.report_type = ReportType::Manager;
    assert_eq!(state.level_str(), format!("M{}", usize::MAX as u128 + 1));
    state.frequency_index = 7;
    assert_eq!(state.frequency_str(), "biweekly");
}

#[test]
fn test_status_bar_texts() {
    assert_eq!(mode_label(ViewMode::Dashboard), "DASHBOARD");
    assert_eq!(mode_label(ViewMode::ReportDetail), "REPORT");
    assert_eq!(mode_label(ViewMode::EntryInputModal), "REPORT");
    assert_eq!(mode_label(ViewMode::NoteViewer), "NOTE");
    assert_eq!(mode_label(ViewMode::DeleteConfirmModal), "NOTE");
    assert_eq!(mode_label(ViewMode::NewReportModal), "NEW REPORT");
    assert_eq!(mode_label(ViewMode::Help), "HELP");
    assert_eq!(key_hints(ViewMode::Dashboard), "h/l:nav  Enter:view  n:new  ?:help  q:quit");
    assert_eq!(
        key_hints(ViewMode::ReportDetail),
        "e:edit  n:new  m:mood  Del:delete  Enter:view  Bksp:back"
    );
    assert_eq!(key_hints(ViewMode::NoteViewer), "e:edit  Del:delete  F1-F5:mood  Bksp:back");
    assert_eq!(key_hints(ViewMode::DeleteConfirmModal), key_hints(ViewMode::NoteViewer));
    assert_eq!(
        key_hints(ViewMode::EntryInputModal),
        "1-5:mood  Tab:context  Enter:save  Esc:cancel"
    );
    assert_eq!(key_hints(ViewMode::Help), "?/Esc:close");
    assert_eq!(key_hints(ViewMode::NewReportModal), "Esc:cancel  Enter:confirm");
}

#[test]
fn test_mood_chart_rows() {
    assert_eq!(chart_cell(3, 3), '●');
    assert_eq!(chart_cell(4, 3), '│');
    assert_eq!(chart_cell(2, 3), ' ');
    let moods = [1u8, 3, 5, 2];
    assert_eq!(chart_row(&moods, 5), "5│  ● ");
    assert_eq!(chart_row(&moods, 3), "3│ ●│ ");
    assert_eq!(chart_row(&moods, 1), "1│●│││");
    assert_eq!(chart_row(&[], 4), "4│");
    // the newest samples are shown, two columns go to the axis
    assert_eq!(chart_window_start(10, 7), 5);
    assert_eq!(chart_window_start(5, 7), 0);
    assert_eq!(chart_window_start(6, 7), 1);
    assert_eq!(chart_window_start(3, 1), 3);
    assert_eq!(chart_window_start(0, 0), 0);
}
