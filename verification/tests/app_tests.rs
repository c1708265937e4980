use std::path::PathBuf;

use vibe_manager::app::{
    App, Clock, DeleteCause, Edited, Effect, LoadedReport, Msg, Outcome, Recruitment, ViewMode,
};
use vibe_manager::components::NewReportField;
use vibe_manager::model::{
    Context, Date, JournalEntry, JournalEntryFrontmatter, MoodTrend, Report, ReportProfile,
    ReportType, Timestamp, Workspace, WorkspaceConfig, WorkspaceSettings,
};
use vibe_manager::storage::{draft_entry, draft_meeting, entry_from_draft};

const TODAY: i32 = 739_638;

fn clock() -> Clock {
    Clock { today: Date::new(TODAY), now_ms: 1_000 }
}

fn profile(name: &str, frequency: &str) -> ReportProfile {
    ReportProfile {
        name: name.to_string(),
        title: Some("Software Engineer".to_string()),
        start_date: None,
        level: Some("P3".to_string()),
        meeting_frequency: frequency.to_string(),
        active: true,
        report_type: ReportType::Individual,
        manager_info: None,
        birthday: None,
        partner: None,
        children: vec![],
        skills: None,
        skills_updated: None,
        color: None,
    }
}

fn entry(days_ago: i32, second: u32, mood: Option<u8>, context: Option<Context>, content: &str) -> JournalEntry {
    JournalEntry::new(
        Timestamp::new(Date::new(TODAY - days_ago), second, 0),
        PathBuf::from(format!("journal/{}-{}.md", days_ago, second)),
        JournalEntryFrontmatter { mood, context },
        content.to_string(),
    )
}

fn loaded(name: &str, frequency: &str, entries: Vec<JournalEntry>) -> LoadedReport {
    let slug = name.to_lowercase().replace(' ', "-");
    LoadedReport {
        report: Report::new(slug.clone(), PathBuf::from(slug), profile(name, frequency), String::new()),
        entries,
    }
}

fn workspace() -> Workspace {
    Workspace::new(
        PathBuf::from("/work"),
        WorkspaceConfig {
            version: 1,
            settings: WorkspaceSettings {
                default_meeting_frequency: "biweekly".to_string(),
                overdue_threshold_days: 3,
                default_2nd_level_frequency: "monthly".to_string(),
            },
        },
    )
}

/// Alex Chen: two meetings and two observations; Jordan Lee: one meeting.
fn fixture_data() -> Vec<LoadedReport> {
    vec![
        loaded(
            "Alex Chen",
            "weekly",
            vec![
                entry(14, 0, Some(4), None, "# 1-on-1\n\nTalked about the roadmap."),
                entry(9, 36_000, Some(3), Some(Context::Standup), "Quiet in standup"),
                entry(7, 0, Some(3), Some(Context::Meeting), "# 1-on-1\n\nCareer goals."),
                entry(2, 50_000, Some(2), Some(Context::Slack), ""),
            ],
        ),
        loaded(
            "Jordan Lee",
            "biweekly",
            vec![entry(4, 0, Some(5), None, "# 1-on-1\n\nAll good.")],
        ),
    ]
}

fn fixture_app() -> App {
    App::new(workspace(), fixture_data(), Date::new(TODAY))
}

fn index_of(app: &App, name: &str) -> usize {
    app.reports.iter().position(|r| r.profile.name == name).expect("report not found")
}

fn status(app: &App) -> Option<String> {
    app.status_text(clock().now_ms).map(|s| s.to_string())
}

#[test]
fn test_app_loads_workspace() {
    let app = fixture_app();
    assert!(!app.reports.is_empty());
    assert!(app.reports.len() >= 2);
    assert_eq!(app.reports.len(), app.entries_by_report.len());
    assert_eq!(app.reports.len(), app.summaries.len());
    assert_eq!(app.view_mode, ViewMode::Dashboard);
    assert_eq!(app.selected_index, 0);
    assert_eq!(app.selected_report_index, None);
    assert_eq!(app.selected_entry_index, None);
    assert_eq!(app.pending_entry_context, Context::Standup);
    assert!(!app.should_quit);
    assert_eq!(app.workspace_summary.team_size, 2);
    assert_eq!(app.workspace_summary.active_count, 2);
}

#[test]
fn test_reports_are_ranked_by_urgency() {
    let app = fixture_app();
    // Alex: met 7 days ago, weekly: due (+5), mood 2 (+20), falling (+15) = 40
    // Jordan: met 4 days ago, biweekly, mood 5 = 0
    assert_eq!(app.reports[0].profile.name, "Alex Chen");
    assert_eq!(app.summaries[0].urgency_score, 40);
    assert_eq!(app.summaries[0].days_since_meeting, Some(7));
    assert_eq!(app.summaries[0].recent_mood, Some(2));
    assert_eq!(app.summaries[0].mood_trend, Some(MoodTrend::Falling));
    assert!(!app.summaries[0].is_overdue);
    assert_eq!(app.reports[1].profile.name, "Jordan Lee");
    assert_eq!(app.summaries[1].urgency_score, 0);
    assert_eq!(app.entries_by_report[0].len(), 4);
    assert_eq!(app.entries_by_report[1].len(), 1);
}

#[test]
fn test_dashboard_order_is_stable() {
    // urgency 30, 110, 0: shown as 110, 30, 0
    let data = vec![
        loaded("Thirty", "biweekly", vec![entry(20, 0, Some(3), Some(Context::Meeting), "x")]),
        loaded("Never Met", "biweekly", vec![]),
        loaded("Fine", "biweekly", vec![entry(3, 0, Some(4), Some(Context::Meeting), "x")]),
    ];
    let app = App::new(workspace(), data, Date::new(TODAY));
    let scores: Vec<i32> = app.summaries.iter().map(|s| s.urgency_score).collect();
    assert_eq!(scores, vec![110, 30, 0]);
    let names: Vec<&str> = app.reports.iter().map(|r| r.profile.name.as_str()).collect();
    assert_eq!(names, vec!["Never Met", "Thirty", "Fine"]);

    // equal scores keep their load order
    let data = vec![
        loaded("B", "biweekly", vec![]),
        loaded("Calm", "biweekly", vec![entry(3, 0, Some(4), Some(Context::Meeting), "x")]),
        loaded("A", "biweekly", vec![]),
        loaded("Also Calm", "biweekly", vec![entry(2, 0, Some(5), Some(Context::Meeting), "x")]),
        loaded("C", "biweekly", vec![]),
    ];
    let app = App::new(workspace(), data, Date::new(TODAY));
    let names: Vec<&str> = app.reports.iter().map(|r| r.profile.name.as_str()).collect();
    assert_eq!(names, vec!["B", "A", "C", "Calm", "Also Calm"]);
    for (i, report) in app.reports.iter().enumerate() {
        assert_eq!(app.summaries[i].name, report.profile.name);
    }
}

#[test]
fn test_app_delete_entry_removes_file() {
    let mut app = fixture_app();
    let idx = index_of(&app, "Alex Chen");
    let initial_entry_count = app.entries_by_report[idx].len();
    assert!(initial_entry_count > 0, "No entries to delete");
    let entry_path = app.entries_by_report[idx][0].path.clone();

    app.delete_entry(idx, 0, Date::new(TODAY));

    assert_eq!(app.entries_by_report[idx].len(), initial_entry_count - 1);
    assert!(app.entries_by_report[idx].iter().all(|e| e.path != entry_path));
    assert_eq!(app.selected_entry_index, None);
}

#[test]
fn test_app_delete_entry_updates_summary() {
    let mut app = fixture_app();
    let idx = index_of(&app, "Alex Chen");
    let initial_days_since = app.summaries[idx].days_since_meeting;

    let last_meeting_idx = app.entries_by_report[idx]
        .iter()
        .enumerate()
        .filter(|(_, e)| e.is_meeting())
        .map(|(i, _)| i)
        .last()
        .expect("No meetings found");

    app.delete_entry(idx, last_meeting_idx, Date::new(TODAY));

    let new_days_since = app.summaries[idx].days_since_meeting;
    let remaining_meetings = app.entries_by_report[idx].iter().filter(|e| e.is_meeting()).count();
    if remaining_meetings > 0 {
        assert!(
            new_days_since > initial_days_since,
            "Days since meeting should increase after deleting most recent meeting"
        );
    }
    assert_eq!(initial_days_since, Some(7));
    assert_eq!(new_days_since, Some(14));
    assert!(app.summaries[idx].is_overdue);
}

#[test]
fn test_app_delete_all_meetings() {
    let mut app = fixture_app();
    let idx = index_of(&app, "Alex Chen");

    while !app.entries_by_report[idx].is_empty() {
        app.delete_entry(idx, 0, Date::new(TODAY));
    }

    assert!(app.entries_by_report[idx].is_empty());
    assert!(app.summaries[idx].days_since_meeting.is_none());
    assert_eq!(app.summaries[idx].urgency_score, 110);
    assert_eq!(app.workspace_summary.overdue_count, 1);
}

#[test]
fn test_status_message_expiry() {
    let mut app = fixture_app();
    app.set_status("Test message".to_string(), 5_000);

    assert_eq!(app.status_text(5_000), Some("Test message"));
    assert_eq!(app.status_text(7_999), Some("Test message"));
    assert_eq!(app.status_text(8_000), None);
    // a clock that runs backwards never expires a message
    assert_eq!(app.status_text(0), Some("Test message"));

    app.clear_expired_status(7_999);
    assert!(app.status_message.is_some());
    app.clear_expired_status(8_000);
    assert!(app.status_message.is_none());
    assert_eq!(app.status_text(8_000), None);
    app.clear_expired_status(9_000);
    assert!(app.status_message.is_none());
}

#[test]
fn test_entry_input_modal_workflow() {
    let mut app = fixture_app();
    let idx = index_of(&app, "Alex Chen");
    app.selected_report_index = Some(idx);
    app.view_mode = ViewMode::ReportDetail;
    let initial_entry_count = app.entries_by_report[idx].len();

    // Show entry input modal
    app.update(Msg::ShowEntryInput, clock());
    assert_eq!(app.view_mode, ViewMode::EntryInputModal);
    assert_eq!(app.pending_entry_mood, None);
    assert_eq!(app.pending_entry_context, Context::Standup); // Default

    // Set mood
    app.update(Msg::SetEntryMood(4), clock());
    assert_eq!(app.pending_entry_mood, Some(4));

    // Cycle context
    app.update(Msg::CycleEntryContext, clock());
    assert_eq!(app.pending_entry_context, Context::Slack);

    // Add some notes
    app.update(Msg::Input('H'), clock());
    app.update(Msg::Input('i'), clock());
    assert_eq!(app.pending_entry_notes, "Hi");

    // Save entry: the model asks for the file, and takes the entry in
    let effect = app.update(Msg::SaveEntry, clock());
    let (report_idx, created) = match effect {
        Effect::CreateEntry { report_idx, mood, context, notes } => {
            let now = Timestamp::new(Date::new(TODAY), 40_000, 0);
            let draft = draft_entry(now, mood, Some(context), notes);
            (report_idx, entry_from_draft(draft, PathBuf::from("journal/new.md")))
        }
        other => panic!("unexpected effect {:?}", other),
    };
    assert_eq!(report_idx, idx);
    assert_eq!(app.entries_by_report[idx].len(), initial_entry_count);
    let next = app.settle(Outcome::EntryCreated { report_idx, result: Ok(created) }, clock());
    assert!(matches!(next, Ok(Effect::Nothing)));
    assert_eq!(app.view_mode, ViewMode::ReportDetail);
    assert_eq!(app.entries_by_report[idx].len(), initial_entry_count + 1);

    // Verify the new entry
    let new_entry = app.entries_by_report[idx].last().unwrap();
    assert_eq!(new_entry.mood(), Some(4));
    assert_eq!(new_entry.frontmatter.context, Some(Context::Slack));
    assert_eq!(new_entry.content, "Hi");
    assert!(!new_entry.is_meeting()); // Slack context = not a meeting

    assert_eq!(status(&app), Some("Observation recorded".to_string()));
    assert_eq!(app.pending_entry_mood, None);
    assert_eq!(app.pending_entry_notes, "");
    // the summary takes the new mood in
    assert_eq!(app.summaries[idx].recent_mood, Some(4));
    assert_eq!(app.summaries[idx].days_since_meeting, Some(7));
}

#[test]
fn test_entry_input_modal_cancel() {
    let mut app = fixture_app();
    let idx = index_of(&app, "Alex Chen");
    app.selected_report_index = Some(idx);
    app.view_mode = ViewMode::ReportDetail;
    let initial_count = app.entries_by_report[idx].len();

    // Open modal and set some values
    app.update(Msg::ShowEntryInput, clock());
    app.update(Msg::SetEntryMood(3), clock());
    app.update(Msg::Input('x'), clock());

    // Cancel
    let effect = app.update(Msg::CancelModal, clock());
    assert!(matches!(effect, Effect::Nothing));

    // Should be back to detail view with no new entry
    assert_eq!(app.view_mode, ViewMode::ReportDetail);
    assert_eq!(app.entries_by_report[idx].len(), initial_count);
    // State should be cleared
    assert_eq!(app.pending_entry_mood, None);
    assert!(app.pending_entry_notes.is_empty());
}

#[test]
fn test_entry_creation_failure_is_shown() {
    let mut app = fixture_app();
    app.selected_report_index = Some(0);
    app.view_mode = ViewMode::EntryInputModal;
    app.pending_entry_mood = Some(2);
    app.pending_entry_notes = "x".to_string();
    let before = app.entries_by_report[0].len();
    let next = app.settle(
        Outcome::EntryCreated { report_idx: 0, result: Err("disk full".to_string()) },
        clock(),
    );
    assert!(matches!(next, Ok(Effect::Nothing)));
    assert_eq!(app.entries_by_report[0].len(), before);
    assert_eq!(status(&app), Some("Error: disk full".to_string()));
    assert_eq!(app.view_mode, ViewMode::ReportDetail);
    assert_eq!(app.pending_entry_mood, None);
    assert_eq!(app.pending_entry_notes, "");
    // an outcome for a report that is not there changes nothing
    let next = app.settle(
        Outcome::EntryCreated { report_idx: 9, result: Err("late".to_string()) },
        clock(),
    );
    assert!(matches!(next, Ok(Effect::Nothing)));
    assert_eq!(status(&app), Some("Error: disk full".to_string()));
}

#[test]
fn test_meeting_display_to_entry_index() {
    let mut app = fixture_app();
    let idx = index_of(&app, "Alex Chen");
    app.selected_report_index = Some(idx);

    let meeting_count = app.entries_by_report[idx].iter().filter(|e| e.is_meeting()).count();

    // Display index 0 = most recent meeting (last meeting in array when reversed)
    if meeting_count > 0 {
        let found = app.meeting_display_to_entry_index(0);
        assert!(found.is_some());
        let entry = &app.entries_by_report[idx][found.unwrap()];
        assert!(entry.is_meeting());
    }

    // Out of bounds should return None
    assert!(app.meeting_display_to_entry_index(1000).is_none());

    // the observations at 1 and 3 have no place in the list
    assert_eq!(app.meeting_display_to_entry_index(0), Some(2));
    assert_eq!(app.meeting_display_to_entry_index(1), Some(0));
    assert_eq!(app.meeting_display_to_entry_index(2), None);
    assert_eq!(app.meeting_display_to_entry_index(usize::MAX), None);

    app.selected_report_index = None;
    assert_eq!(app.meeting_display_to_entry_index(0), None);
    app.selected_report_index = Some(99);
    assert_eq!(app.meeting_display_to_entry_index(0), None);
}

#[test]
fn test_display_index_mapping_is_one_to_one() {
    let mut data = fixture_data();
    data[0].entries.push(entry(1, 0, None, Some(Context::Meeting), ""));
    data[0].entries.push(entry(0, 5, None, Some(Context::Other), "chat"));
    let mut app = App::new(workspace(), data, Date::new(TODAY));
    let idx = index_of(&app, "Alex Chen");
    app.selected_report_index = Some(idx);
    let count = app.selected_meeting_count();
    assert_eq!(count, 3);
    let mut targets: Vec<usize> = vec![];
    for d in 0..count {
        let found = app.meeting_display_to_entry_index(d).expect("a meeting at every place");
        assert!(app.entries_by_report[idx][found].is_meeting());
        assert!(!targets.contains(&found));
        targets.push(found);
    }
    // newest first
    assert_eq!(targets, vec![4, 2, 0]);
    assert_eq!(app.meeting_display_to_entry_index(count), None);
    let meetings = app.selected_meetings();
    assert_eq!(meetings.len(), 3);
    for (k, m) in meetings.iter().enumerate() {
        assert_eq!(m.path, app.entries_by_report[idx][targets[2 - k]].path);
    }
}

#[test]
fn test_selected_meeting_count_excludes_observations() {
    let mut app = fixture_app();
    let idx = index_of(&app, "Alex Chen");
    app.selected_report_index = Some(idx);

    let total_entries = app.entries_by_report[idx].len();
    let meeting_count = app.selected_meeting_count();

    assert!(
        total_entries >= meeting_count,
        "Total entries ({}) should be >= meeting count ({})",
        total_entries,
        meeting_count
    );
    assert_eq!(total_entries, 4);
    assert_eq!(meeting_count, 2);
    assert_eq!(app.selected_entries().map(|e| e.len()), Some(4));

    app.selected_report_index = None;
    assert_eq!(app.selected_meeting_count(), 0);
    assert!(app.selected_entries().is_none());
    assert!(app.selected_meetings().is_empty());
}

#[test]
fn test_navigation_wraps_around() {
    let mut app = fixture_app();
    assert_eq!(app.current_list_len(), 2);
    app.update(Msg::SelectNext, clock());
    assert_eq!(app.selected_index, 1);
    app.update(Msg::SelectNext, clock());
    assert_eq!(app.selected_index, 0);
    app.update(Msg::SelectPrev, clock());
    assert_eq!(app.selected_index, 1);
    app.update(Msg::SelectFirst, clock());
    assert_eq!(app.selected_index, 0);
    app.update(Msg::SelectLast, clock());
    assert_eq!(app.selected_index, 1);

    // an index far out of range still steps to a place in the list
    app.selected_index = usize::MAX;
    app.update(Msg::SelectNext, clock());
    assert_eq!(app.selected_index, ((usize::MAX as u128 + 1) % 2) as usize);

    // in the detail view the list is the meetings of the report
    app.selected_index = 0;
    app.update(Msg::ViewReport, clock());
    assert_eq!(app.view_mode, ViewMode::ReportDetail);
    assert_eq!(app.selected_report_index, Some(0));
    assert_eq!(app.current_list_len(), 2);
    app.update(Msg::SelectLast, clock());
    assert_eq!(app.selected_index, 1);
    app.update(Msg::SelectNext, clock());
    assert_eq!(app.selected_index, 0);

    // elsewhere the selection does not move
    app.view_mode = ViewMode::Help;
    app.selected_index = 1;
    assert_eq!(app.current_list_len(), 0);
    app.update(Msg::SelectNext, clock());
    app.update(Msg::SelectPrev, clock());
    app.update(Msg::SelectLast, clock());
    assert_eq!(app.selected_index, 1);
    app.update(Msg::SelectFirst, clock());
    assert_eq!(app.selected_index, 1);
}

#[test]
fn test_empty_workspace_ignores_navigation() {
    let mut app = App::new(workspace(), vec![], Date::new(TODAY));
    assert_eq!(app.workspace_summary.team_size, 0);
    for msg in [Msg::SelectNext, Msg::SelectPrev, Msg::SelectLast, Msg::ViewReport, Msg::Back] {
        let effect = app.update(msg, clock());
        assert!(matches!(effect, Effect::Nothing));
        assert_eq!(app.view_mode, ViewMode::Dashboard);
        assert_eq!(app.selected_index, 0);
        assert_eq!(app.selected_report_index, None);
    }
    assert!(matches!(app.update(Msg::NewMeeting, clock()), Effect::Nothing));
    assert!(matches!(app.update(Msg::SaveEntry, clock()), Effect::Nothing));
    assert!(matches!(app.update(Msg::ConfirmDelete, clock()), Effect::Nothing));
    assert!(matches!(app.update(Msg::ViewMeeting(0), clock()), Effect::Nothing));
    assert!(matches!(app.update(Msg::EditMeetingFromList(0), clock()), Effect::Nothing));
    assert!(matches!(app.update(Msg::ShowEntryInput, clock()), Effect::Nothing));
    assert_eq!(app.view_mode, ViewMode::Dashboard);
}

#[test]
fn test_view_and_back() {
    let mut app = fixture_app();
    app.selected_index = 1;
    app.update(Msg::ViewReport, clock());
    assert_eq!(app.view_mode, ViewMode::ReportDetail);
    assert_eq!(app.selected_report_index, Some(1));
    assert_eq!(app.selected_index, 0);

    app.update(Msg::ViewMeeting(0), clock());
    assert_eq!(app.view_mode, ViewMode::NoteViewer);
    assert_eq!(app.selected_entry_index, Some(0));
    assert_eq!(app.editor_content, "# 1-on-1\n\nAll good.");
    assert_eq!(app.editor_mood, Some(5));

    app.update(Msg::Back, clock());
    assert_eq!(app.view_mode, ViewMode::ReportDetail);
    assert_eq!(app.selected_entry_index, None);

    // a place without a meeting opens nothing
    app.update(Msg::ViewMeeting(1), clock());
    assert_eq!(app.view_mode, ViewMode::ReportDetail);
    assert_eq!(app.selected_entry_index, None);

    app.update(Msg::Back, clock());
    assert_eq!(app.view_mode, ViewMode::Dashboard);
    assert_eq!(app.selected_report_index, None);
    // the cursor is back on the report that was viewed
    assert_eq!(app.selected_index, 1);

    app.update(Msg::ShowHelp, clock());
    assert_eq!(app.view_mode, ViewMode::Help);
    app.update(Msg::Back, clock());
    assert_eq!(app.view_mode, ViewMode::Dashboard);
    app.update(Msg::ShowHelp, clock());
    app.update(Msg::HideHelp, clock());
    assert_eq!(app.view_mode, ViewMode::Dashboard);

    assert!(!app.should_quit);
    app.update(Msg::Quit, clock());
    assert!(app.should_quit);
}

#[test]
fn test_edit_meeting_from_list() {
    let mut app = fixture_app();
    app.selected_report_index = Some(0);
    app.view_mode = ViewMode::ReportDetail;
    let effect = app.update(Msg::EditMeetingFromList(1), clock());
    assert!(matches!(effect, Effect::SpawnEditor { is_new: false }));
    assert_eq!(app.view_mode, ViewMode::ReportDetail);
    assert_eq!(app.selected_entry_index, Some(0));
    assert_eq!(app.editor_mood, Some(4));
    assert!(app.editor_content.contains("roadmap"));
    let effect = app.update(Msg::EditMeetingFromList(5), clock());
    assert!(matches!(effect, Effect::Nothing));
    let effect = app.update(Msg::EditMeeting, clock());
    assert!(matches!(effect, Effect::SpawnEditor { is_new: false }));
}

#[test]
fn test_new_meeting() {
    let mut app = fixture_app();
    app.selected_report_index = Some(1);
    app.view_mode = ViewMode::ReportDetail;
    let effect = app.update(Msg::NewMeeting, clock());
    let report_idx = match effect {
        Effect::CreateMeeting { report_idx } => report_idx,
        other => panic!("unexpected effect {:?}", other),
    };
    assert_eq!(report_idx, 1);
    let draft = draft_meeting(None, Timestamp::new(Date::new(TODAY), 3_600, 0));
    let meeting = entry_from_draft(draft, PathBuf::from("journal/m.md"));
    let template = meeting.content.clone();
    let next = app.settle(Outcome::MeetingCreated { report_idx, result: Ok(meeting) }, clock());
    assert!(matches!(next, Ok(Effect::SpawnEditor { is_new: true })));
    assert_eq!(app.view_mode, ViewMode::NoteViewer);
    assert_eq!(app.entries_by_report[1].len(), 2);
    assert_eq!(app.selected_entry_index, Some(1));
    assert_eq!(app.editor_content, template);
    assert_eq!(app.editor_mood, None);
    // the summary knows of the new meeting at once
    assert_eq!(app.summaries[1].days_since_meeting, Some(0));
    assert!(!app.summaries[1].is_overdue);

    // a failure is shown and changes nothing else
    let next = app.settle(
        Outcome::MeetingCreated { report_idx: 1, result: Err("Meeting already exists".to_string()) },
        clock(),
    );
    assert!(matches!(next, Ok(Effect::Nothing)));
    assert_eq!(app.entries_by_report[1].len(), 2);
    assert_eq!(status(&app), Some("Error: Meeting already exists".to_string()));
}

#[test]
fn test_update_mood() {
    let mut app = fixture_app();
    app.selected_report_index = Some(0);
    app.selected_entry_index = Some(2);
    app.view_mode = ViewMode::NoteViewer;
    let effect = app.update(Msg::UpdateMood(5), clock());
    assert!(matches!(effect, Effect::SaveEntry { report_idx: 0, entry_idx: 2 }));
    assert_eq!(app.editor_mood, Some(5));
    assert_eq!(app.entries_by_report[0][2].frontmatter.mood, Some(5));
    assert_eq!(app.entries_by_report[0][1].frontmatter.mood, Some(3));
    // the summary follows: the newest mood is still 2, the oldest is 4
    assert_eq!(app.summaries[0].recent_mood, Some(2));
    assert_eq!(app.summaries[0].mood_trend, Some(MoodTrend::Falling));
    app.selected_entry_index = Some(3);
    let effect = app.update(Msg::UpdateMood(5), clock());
    assert!(matches!(effect, Effect::SaveEntry { report_idx: 0, entry_idx: 3 }));
    assert_eq!(app.summaries[0].recent_mood, Some(5));
    assert_eq!(app.summaries[0].mood_trend, Some(MoodTrend::Rising));
    assert_eq!(app.summaries[0].urgency_score, 5);
    assert_eq!(app.workspace_summary.average_mood.map(|a| (a.sum, a.count)), Some((10, 2)));
    app.selected_entry_index = Some(2);

    app.settle(Outcome::EntrySaved { saved: Ok(()) }, clock()).unwrap();
    assert_eq!(status(&app), Some("Mood updated".to_string()));
    app.settle(Outcome::EntrySaved { saved: Err("read-only".to_string()) }, clock()).unwrap();
    assert_eq!(status(&app), Some("Error saving mood: read-only".to_string()));

    // without a selected entry only the viewer's mood changes
    app.selected_entry_index = None;
    let effect = app.update(Msg::UpdateMood(1), clock());
    assert!(matches!(effect, Effect::Nothing));
    assert_eq!(app.editor_mood, Some(1));
    app.selected_entry_index = Some(40);
    let effect = app.update(Msg::UpdateMood(2), clock());
    assert!(matches!(effect, Effect::Nothing));
    assert_eq!(app.editor_mood, Some(2));
}

#[test]
fn test_delete_from_list_and_from_viewer() {
    let mut app = fixture_app();
    app.selected_report_index = Some(0);
    app.view_mode = ViewMode::ReportDetail;
    app.selected_index = 1;

    // from the list: the meeting under the cursor
    app.update(Msg::ShowDeleteConfirm, clock());
    assert_eq!(app.view_mode, ViewMode::DeleteConfirmModal);
    assert!(app.delete_from_list);
    assert_eq!(app.selected_entry_index, Some(0));
    app.update(Msg::CancelModal, clock());
    assert_eq!(app.view_mode, ViewMode::ReportDetail);
    assert_eq!(app.selected_entry_index, None);

    // no meeting under the cursor: nothing to confirm
    app.selected_index = 2;
    app.update(Msg::ShowDeleteConfirm, clock());
    assert_eq!(app.view_mode, ViewMode::ReportDetail);

    // from the viewer: the entry on screen
    app.update(Msg::ViewMeeting(0), clock());
    assert_eq!(app.selected_entry_index, Some(2));
    app.update(Msg::ShowDeleteConfirm, clock());
    assert_eq!(app.view_mode, ViewMode::DeleteConfirmModal);
    assert!(!app.delete_from_list);
    app.update(Msg::Back, clock());
    assert_eq!(app.view_mode, ViewMode::NoteViewer);
    assert_eq!(app.selected_entry_index, Some(2));

    app.update(Msg::ShowDeleteConfirm, clock());
    let effect = app.update(Msg::ConfirmDelete, clock());
    let (report_idx, entry_idx, cause) = match effect {
        Effect::DeleteEntry { report_idx, entry_idx, cause } => (report_idx, entry_idx, cause),
        other => panic!("unexpected effect {:?}", other),
    };
    assert_eq!((report_idx, entry_idx), (0, 2));
    assert!(matches!(cause, DeleteCause::Confirmed));
    // nothing is removed before the file is gone
    assert_eq!(app.entries_by_report[0].len(), 4);

    // a failed deletion is shown and leaves the model as it is
    let next = app.settle(
        Outcome::EntryDeleted {
            report_idx,
            entry_idx,
            cause: DeleteCause::Confirmed,
            deleted: Err("permission denied".to_string()),
        },
        clock(),
    );
    assert!(matches!(next, Ok(Effect::Nothing)));
    assert_eq!(app.entries_by_report[0].len(), 4);
    assert_eq!(app.view_mode, ViewMode::DeleteConfirmModal);
    assert_eq!(status(&app), Some("Error deleting entry: permission denied".to_string()));

    let next = app.settle(
        Outcome::EntryDeleted { report_idx, entry_idx, cause, deleted: Ok(()) },
        clock(),
    );
    assert!(matches!(next, Ok(Effect::Nothing)));
    assert_eq!(app.entries_by_report[0].len(), 3);
    assert_eq!(app.view_mode, ViewMode::ReportDetail);
    assert_eq!(app.selected_entry_index, None);
    assert_eq!(status(&app), Some("Entry deleted".to_string()));
    assert_eq!(app.summaries[0].days_since_meeting, Some(14));

    // indices that no longer exist change nothing
    let next = app.settle(
        Outcome::EntryDeleted {
            report_idx: 0,
            entry_idx: 3,
            cause: DeleteCause::Confirmed,
            deleted: Ok(()),
        },
        Clock { today: Date::new(TODAY), now_ms: 2_000 },
    );
    assert!(matches!(next, Ok(Effect::Nothing)));
    assert_eq!(app.entries_by_report[0].len(), 3);
}

#[test]
fn test_new_report_form() {
    let mut app = fixture_app();
    app.new_report_state.name = "left over".to_string();
    app.update(Msg::ShowNewReport, clock());
    assert_eq!(app.view_mode, ViewMode::NewReportModal);
    assert_eq!(app.new_report_state.name, "");
    assert_eq!(app.new_report_state.current_field, NewReportField::ReportType);

    // submitting an empty form is refused
    let effect = app.update(Msg::Enter, clock());
    assert!(matches!(effect, Effect::Nothing));
    assert_eq!(status(&app), Some("Name is required".to_string()));
    let effect = app.update(Msg::CreateReport, clock());
    assert!(matches!(effect, Effect::Nothing));
    assert_eq!(status(&app), Some("Name and Title are required".to_string()));
    assert_eq!(app.view_mode, ViewMode::NewReportModal);

    app.update(Msg::ModalRight, clock()); // manager
    app.update(Msg::ModalNextField, clock());
    for c in "Chris Wong".chars() {
        app.update(Msg::Input(c), clock());
    }
    app.update(Msg::Input('!'), clock());
    app.update(Msg::Backspace, clock());
    app.update(Msg::ModalNextField, clock());
    for c in "Lead".chars() {
        app.update(Msg::Input(c), clock());
    }
    app.update(Msg::ModalNextField, clock());
    app.update(Msg::ModalLeft, clock()); // M2
    app.update(Msg::ModalNextField, clock());
    app.update(Msg::ModalRight, clock()); // monthly
    app.update(Msg::ModalPrevField, clock());
    assert_eq!(app.new_report_state.current_field, NewReportField::Level);

    let effect = app.update(Msg::Enter, clock());
    let (name, profile) = match effect {
        Effect::CreateReport { name, profile } => (name, profile),
        other => panic!("unexpected effect {:?}", other),
    };
    assert_eq!(name, "Chris Wong");
    assert_eq!(profile.name, "Chris Wong");
    assert_eq!(profile.title, Some("Lead".to_string()));
    assert_eq!(profile.level, Some("M2".to_string()));
    assert_eq!(profile.meeting_frequency, "monthly");
    assert_eq!(profile.start_date, Some(Date::new(TODAY)));
    assert!(profile.active);
    assert_eq!(profile.report_type, ReportType::Manager);
    assert!(profile.manager_info.is_some());
    assert!(profile.manager_info.unwrap().team_name.is_none());
    assert!(profile.children.is_empty());
    assert!(profile.color.is_none());
    // the form stays open until the outcome is known
    assert_eq!(app.view_mode, ViewMode::NewReportModal);

    let mut data = fixture_data();
    data.push(loaded("Chris Wong", "monthly", vec![]));
    let next = app.settle(
        Outcome::ReportCreated {
            name,
            report_type: ReportType::Manager,
            recruitment: Recruitment::Recruited(data),
        },
        clock(),
    );
    assert!(matches!(next, Ok(Effect::Nothing)));
    assert_eq!(app.view_mode, ViewMode::Dashboard);
    assert_eq!(app.reports.len(), 3);
    assert_eq!(app.reports[0].profile.name, "Chris Wong");
    assert_eq!(status(&app), Some("Recruited Chris Wong (manager)".to_string()));
}

#[test]
fn test_report_creation_failures() {
    let mut app = fixture_app();
    app.view_mode = ViewMode::NewReportModal;
    let next = app.settle(
        Outcome::ReportCreated {
            name: "Alex Chen".to_string(),
            report_type: ReportType::Individual,
            recruitment: Recruitment::Failed("Report directory already exists: alex-chen".to_string()),
        },
        clock(),
    );
    assert!(matches!(next, Ok(Effect::Nothing)));
    assert_eq!(app.view_mode, ViewMode::Dashboard);
    assert_eq!(app.reports.len(), 2);
    assert_eq!(
        status(&app),
        Some("Error: Report directory already exists: alex-chen".to_string())
    );

    app.view_mode = ViewMode::NewReportModal;
    let next = app.settle(
        Outcome::ReportCreated {
            name: "Sam".to_string(),
            report_type: ReportType::Individual,
            recruitment: Recruitment::ReloadFailed("cannot list".to_string()),
        },
        clock(),
    );
    assert_eq!(next.err(), Some("cannot list".to_string()));
    assert_eq!(app.view_mode, ViewMode::NewReportModal);
    assert_eq!(app.reports.len(), 2);

    let next = app.settle(
        Outcome::ReportCreated {
            name: "Sam".to_string(),
            report_type: ReportType::Individual,
            recruitment: Recruitment::Recruited(vec![loaded("Sam", "weekly", vec![])]),
        },
        clock(),
    );
    assert!(next.is_ok());
    assert_eq!(status(&app), Some("Recruited Sam (IC)".to_string()));
    assert_eq!(app.reports.len(), 1);
}

#[test]
fn test_refresh_data() {
    let mut app = fixture_app();
    app.selected_index = 1;
    let effect = app.update(Msg::RefreshData, clock());
    assert!(matches!(effect, Effect::LoadData));
    assert_eq!(app.reports.len(), 2);

    let next = app.settle(Outcome::DataLoaded { loaded: Err("gone".to_string()) }, clock());
    assert_eq!(next.err(), Some("gone".to_string()));
    assert_eq!(app.reports.len(), 2);

    // fewer reports: the cursor moves to the last one
    let next = app.settle(
        Outcome::DataLoaded { loaded: Ok(vec![loaded("Only One", "weekly", vec![])]) },
        clock(),
    );
    assert!(matches!(next, Ok(Effect::Nothing)));
    assert_eq!(app.reports.len(), 1);
    assert_eq!(app.entries_by_report.len(), 1);
    assert_eq!(app.summaries.len(), 1);
    assert_eq!(app.selected_index, 0);
    assert_eq!(app.workspace_summary.team_size, 1);

    // no reports at all: the cursor stays
    app.selected_index = 3;
    app.settle(Outcome::DataLoaded { loaded: Ok(vec![]) }, clock()).unwrap();
    assert_eq!(app.reports.len(), 0);
    assert_eq!(app.selected_index, 3);
}

#[test]
fn test_editor_outcomes() {
    let mut app = fixture_app();
    app.selected_report_index = Some(0);
    app.selected_entry_index = Some(2);
    app.view_mode = ViewMode::NoteViewer;
    app.editor_mood = Some(3);

    // not modified
    let edited = Edited {
        modified: false,
        raw_content: "---\nmood: 3\n---\n\nCareer goals.".to_string(),
        frontmatter: Some(JournalEntryFrontmatter { mood: Some(3), context: None }),
    };
    let next = app.settle(Outcome::EditorClosed { is_new: false, edited: Ok(edited) }, clock());
    assert!(matches!(next, Ok(Effect::Nothing)));
    assert_eq!(status(&app), Some("No changes".to_string()));
    assert!(app.entries_by_report[0][2].content.contains("Career goals."));

    // modified, with a header that could be read
    let edited = Edited {
        modified: true,
        raw_content: "---\nmood: 5\ncontext: meeting\n---\n\n  New text.\n".to_string(),
        frontmatter: Some(JournalEntryFrontmatter { mood: Some(5), context: Some(Context::Meeting) }),
    };
    let next = app.settle(Outcome::EditorClosed { is_new: false, edited: Ok(edited) }, clock());
    assert!(matches!(next, Ok(Effect::Nothing)));
    assert_eq!(status(&app), Some("Note updated".to_string()));
    // the body is taken character for character
    assert_eq!(app.entries_by_report[0][2].content, "  New text.\n");
    assert_eq!(app.entries_by_report[0][2].frontmatter.mood, Some(5));
    assert_eq!(app.editor_content, "  New text.\n");
    assert_eq!(app.editor_mood, Some(5));
    // the summary is computed anew: the window of moods is now 2, 5, 3, 4
    assert_eq!(app.summaries[0].recent_mood, Some(2));
    assert_eq!(app.summaries[0].mood_trend, Some(MoodTrend::Falling));

    // modified, without a readable header: the header stays
    let edited =
        Edited { modified: true, raw_content: "Just text".to_string(), frontmatter: None };
    app.settle(Outcome::EditorClosed { is_new: false, edited: Ok(edited) }, clock()).unwrap();
    assert_eq!(app.entries_by_report[0][2].content, "Just text");
    assert_eq!(app.entries_by_report[0][2].frontmatter.mood, Some(5));
    assert_eq!(app.editor_mood, Some(5));

    // left with nothing but the template: the entry is to be deleted
    let edited = Edited {
        modified: true,
        raw_content: "---\n---\n\n# 1-on-1\n\n## Notes\n- [ ] \n".to_string(),
        frontmatter: None,
    };
    let next = app.settle(Outcome::EditorClosed { is_new: true, edited: Ok(edited) }, clock());
    let cause = match next {
        Ok(Effect::DeleteEntry { report_idx: 0, entry_idx: 2, cause }) => cause,
        other => panic!("unexpected {:?}", other),
    };
    assert!(matches!(cause, DeleteCause::EditorEmptied { is_new: true }));
    assert_eq!(app.entries_by_report[0].len(), 4);
    let next = app.settle(
        Outcome::EntryDeleted { report_idx: 0, entry_idx: 2, cause, deleted: Ok(()) },
        clock(),
    );
    assert!(matches!(next, Ok(Effect::Nothing)));
    assert_eq!(app.entries_by_report[0].len(), 3);
    assert_eq!(app.view_mode, ViewMode::ReportDetail);
    assert_eq!(status(&app), Some("Entry creation canceled".to_string()));

    // no entry selected any more
    let edited = Edited { modified: true, raw_content: "x".to_string(), frontmatter: None };
    let next = app.settle(Outcome::EditorClosed { is_new: false, edited: Ok(edited) }, clock());
    assert!(matches!(next, Ok(Effect::Nothing)));
    assert_eq!(status(&app), Some("No entry selected".to_string()));
}

#[test]
fn test_editor_failures() {
    let mut app = fixture_app();
    app.selected_report_index = Some(0);
    app.selected_entry_index = Some(3);
    app.view_mode = ViewMode::NoteViewer;

    // on an existing entry the failure is only shown
    let next = app.settle(
        Outcome::EditorClosed { is_new: false, edited: Err("no editor".to_string()) },
        clock(),
    );
    assert!(matches!(next, Ok(Effect::Nothing)));
    assert_eq!(status(&app), Some("Editor error: no editor".to_string()));
    assert_eq!(app.view_mode, ViewMode::NoteViewer);

    // a new entry is taken back
    let next = app.settle(
        Outcome::EditorClosed { is_new: true, edited: Err("no editor".to_string()) },
        clock(),
    );
    let cause = match next {
        Ok(Effect::DeleteEntry { report_idx: 0, entry_idx: 3, cause }) => cause,
        other => panic!("unexpected {:?}", other),
    };
    // even where the file cannot be deleted, the detail view comes back
    let next = app.settle(
        Outcome::EntryDeleted {
            report_idx: 0,
            entry_idx: 3,
            cause: cause.clone(),
            deleted: Err("busy".to_string()),
        },
        clock(),
    );
    assert!(matches!(next, Ok(Effect::Nothing)));
    assert_eq!(app.entries_by_report[0].len(), 4);
    assert_eq!(app.view_mode, ViewMode::ReportDetail);
    assert_eq!(status(&app), Some("Editor error: no editor".to_string()));

    app.view_mode = ViewMode::NoteViewer;
    app.settle(
        Outcome::EntryDeleted { report_idx: 0, entry_idx: 3, cause, deleted: Ok(()) },
        clock(),
    )
    .unwrap();
    assert_eq!(app.entries_by_report[0].len(), 3);
    assert_eq!(app.view_mode, ViewMode::ReportDetail);
    assert_eq!(status(&app), Some("Editor error: no editor".to_string()));

    // a blank file empties an old entry too
    app.selected_entry_index = Some(0);
    let edited = Edited { modified: false, raw_content: " \n ".to_string(), frontmatter: None };
    let next = app.settle(Outcome::EditorClosed { is_new: false, edited: Ok(edited) }, clock());
    let cause = match next {
        Ok(Effect::DeleteEntry { report_idx: 0, entry_idx: 0, cause }) => cause,
        other => panic!("unexpected {:?}", other),
    };
    let next = app.settle(
        Outcome::EntryDeleted {
            report_idx: 0,
            entry_idx: 0,
            cause: cause.clone(),
            deleted: Err("busy".to_string()),
        },
        clock(),
    );
    assert!(next.is_ok());
    assert_eq!(status(&app), Some("Error deleting file: busy".to_string()));
    app.settle(
        Outcome::EntryDeleted { report_idx: 0, entry_idx: 0, cause, deleted: Ok(()) },
        clock(),
    )
    .unwrap();
    assert_eq!(status(&app), Some("Entry deleted".to_string()));
    assert_eq!(app.entries_by_report[0].len(), 2);
}

#[test]
fn test_messages_out_of_place_change_nothing() {
    let mut app = fixture_app();
    // form messages on the dashboard
    for msg in [
        Msg::ModalLeft,
        Msg::ModalRight,
        Msg::ModalNextField,
        Msg::ModalPrevField,
        Msg::Input('x'),
        Msg::Backspace,
        Msg::Enter,
        Msg::SetEntryMood(3),
        Msg::CycleEntryContext,
        Msg::CancelModal,
        Msg::ShowDeleteConfirm,
    ] {
        let effect = app.update(msg, clock());
        assert!(matches!(effect, Effect::Nothing));
        assert_eq!(app.view_mode, ViewMode::Dashboard);
        assert_eq!(app.new_report_state.name, "");
        assert_eq!(app.new_report_state.level_index, 2);
        assert_eq!(app.new_report_state.current_field, NewReportField::ReportType);
        assert_eq!(app.pending_entry_mood, None);
        assert_eq!(app.pending_entry_context, Context::Standup);
        assert_eq!(app.pending_entry_notes, "");
        assert!(app.status_message.is_none());
    }
    // notes are typed and erased in the observation form
    app.selected_report_index = Some(0);
    app.update(Msg::ShowEntryInput, clock());
    app.update(Msg::Input('o'), clock());
    app.update(Msg::Input('k'), clock());
    app.update(Msg::Backspace, clock());
    assert_eq!(app.pending_entry_notes, "o");
    app.update(Msg::Backspace, clock());
    app.update(Msg::Backspace, clock());
    assert_eq!(app.pending_entry_notes, "");
    app.update(Msg::Back, clock());
    assert_eq!(app.view_mode, ViewMode::ReportDetail);
}

#[test]
fn test_entries_are_kept_in_order_of_time() {
    // loaded out of order: the model puts them in order
    let data = vec![loaded(
        "Alex Chen",
        "weekly",
        vec![
            entry(2, 0, Some(1), Some(Context::Meeting), "newest"),
            entry(9, 0, Some(5), Some(Context::Meeting), "oldest"),
            entry(5, 100, Some(3), Some(Context::Meeting), "middle"),
        ],
    )];
    let mut app = App::new(workspace(), data, Date::new(TODAY));
    let contents: Vec<&str> = app.entries_by_report[0].iter().map(|e| e.content.as_str()).collect();
    assert_eq!(contents, vec!["oldest", "middle", "newest"]);
    // so the newest mood is 1 and the trend falls from 5
    assert_eq!(app.summaries[0].recent_mood, Some(1));
    assert_eq!(app.summaries[0].mood_trend, Some(MoodTrend::Falling));
    assert_eq!(app.summaries[0].days_since_meeting, Some(2));

    // an entry stamped in between goes in between, and is the one selected
    let meeting = entry(4, 0, None, Some(Context::Meeting), "late record");
    let next = app.settle(Outcome::MeetingCreated { report_idx: 0, result: Ok(meeting) }, clock());
    assert!(matches!(next, Ok(Effect::SpawnEditor { is_new: true })));
    let contents: Vec<&str> = app.entries_by_report[0].iter().map(|e| e.content.as_str()).collect();
    assert_eq!(contents, vec!["oldest", "middle", "late record", "newest"]);
    assert_eq!(app.selected_entry_index, Some(2));
    assert_eq!(app.editor_content, "late record");

    // an entry with the timestamp of another goes behind it
    let twin = entry(5, 100, Some(4), Some(Context::Other), "twin");
    app.settle(Outcome::EntryCreated { report_idx: 0, result: Ok(twin) }, clock()).unwrap();
    let contents: Vec<&str> = app.entries_by_report[0].iter().map(|e| e.content.as_str()).collect();
    assert_eq!(contents, vec!["oldest", "middle", "twin", "late record", "newest"]);
    for pair in app.entries_by_report[0].windows(2) {
        assert!(!pair[1].timestamp.before(pair[0].timestamp));
    }
}

#[test]
fn test_cursor_stays_within_the_list() {
    let mut app = fixture_app();
    app.selected_report_index = Some(0);
    app.view_mode = ViewMode::ReportDetail;

    // stepping back from a cursor beyond the list lands within the list
    app.selected_index = 7;
    app.update(Msg::SelectPrev, clock());
    assert!(app.selected_index < 2);
    assert_eq!(app.selected_index, 0); // (7 - 1) modulo 2
    app.selected_index = usize::MAX;
    app.update(Msg::SelectPrev, clock());
    assert_eq!(app.selected_index, ((usize::MAX - 1) % 2));

    // any message brings a stray cursor into the list
    app.selected_index = 9;
    app.update(Msg::SetEntryMood(3), clock());
    assert_eq!(app.selected_index, 1);

    // deleting the meeting under the cursor leaves the cursor on a meeting
    app.selected_index = 1;
    app.update(Msg::ShowDeleteConfirm, clock());
    assert_eq!(app.selected_entry_index, Some(0));
    let effect = app.update(Msg::ConfirmDelete, clock());
    let (report_idx, entry_idx, cause) = match effect {
        Effect::DeleteEntry { report_idx, entry_idx, cause } => (report_idx, entry_idx, cause),
        other => panic!("unexpected effect {:?}", other),
    };
    app.settle(Outcome::EntryDeleted { report_idx, entry_idx, cause, deleted: Ok(()) }, clock())
        .unwrap();
    assert_eq!(app.view_mode, ViewMode::ReportDetail);
    assert_eq!(app.selected_meeting_count(), 1);
    assert_eq!(app.selected_index, 0);
    assert_eq!(app.meeting_display_to_entry_index(app.selected_index), Some(1));

    // with no meeting left the list is empty and the cursor stays
    app.update(Msg::ShowDeleteConfirm, clock());
    let effect = app.update(Msg::ConfirmDelete, clock());
    let (report_idx, entry_idx, cause) = match effect {
        Effect::DeleteEntry { report_idx, entry_idx, cause } => (report_idx, entry_idx, cause),
        other => panic!("unexpected effect {:?}", other),
    };
    app.settle(Outcome::EntryDeleted { report_idx, entry_idx, cause, deleted: Ok(()) }, clock())
        .unwrap();
    assert_eq!(app.selected_meeting_count(), 0);
    assert_eq!(app.selected_index, 0);

    // the same through the model's own functions
    let mut app = fixture_app();
    app.selected_report_index = Some(0);
    app.view_mode = ViewMode::ReportDetail;
    app.selected_index = 1;
    app.delete_entry(0, 0, Date::new(TODAY));
    assert_eq!(app.selected_index, 0);
}

#[test]
fn test_reload_in_the_detail_view_keeps_the_cursor_on_a_meeting() {
    let mut app = fixture_app();
    app.selected_report_index = Some(1);
    app.view_mode = ViewMode::ReportDetail;
    app.selected_index = 0;
    // Alex Chen alone, with three meetings: the cursor of the second report
    // now points beyond the reports, and the list of the detail view is empty
    let next = app.settle(
        Outcome::DataLoaded {
            loaded: Ok(vec![loaded(
                "Alex Chen",
                "weekly",
                vec![
                    entry(9, 0, None, Some(Context::Meeting), "a"),
                    entry(8, 0, None, Some(Context::Meeting), "b"),
                    entry(7, 0, None, Some(Context::Meeting), "c"),
                ],
            )]),
        },
        clock(),
    );
    assert!(next.is_ok());
    assert_eq!(app.current_list_len(), 0);

    // with the report selected, a cursor beyond its meetings comes back
    app.selected_report_index = Some(0);
    app.selected_index = 5;
    app.settle(
        Outcome::DataLoaded {
            loaded: Ok(vec![
                loaded("Zed", "weekly", vec![]),
                loaded("Yan", "weekly", vec![]),
                loaded("Xi", "weekly", vec![]),
                loaded("Wu", "weekly", vec![]),
                loaded("Vy", "weekly", vec![]),
                loaded("Uma", "weekly", vec![]),
                loaded(
                    "Alex Chen",
                    "weekly",
                    vec![
                        entry(30, 0, None, Some(Context::Meeting), "a"),
                        entry(29, 0, None, Some(Context::Meeting), "b"),
                    ],
                ),
            ]),
        },
        clock(),
    )
    .unwrap();
    // never met comes first; Alex Chen, 22 days overdue, is at the end
    let idx = index_of(&app, "Alex Chen");
    app.selected_report_index = Some(idx);
    app.selected_index = 5;
    app.load_data(
        vec![loaded(
            "Alex Chen",
            "weekly",
            vec![
                entry(30, 0, None, Some(Context::Meeting), "a"),
                entry(29, 0, None, Some(Context::Meeting), "b"),
            ],
        )],
        Date::new(TODAY),
    );
    // six reports became one: the selected report is gone, the list is empty
    assert_eq!(app.current_list_len(), 0);
    app.selected_report_index = Some(0);
    app.selected_index = 5;
    app.load_data(
        vec![loaded(
            "Alex Chen",
            "weekly",
            vec![
                entry(30, 0, None, Some(Context::Meeting), "a"),
                entry(29, 0, None, Some(Context::Meeting), "b"),
            ],
        )],
        Date::new(TODAY),
    );
    assert_eq!(app.current_list_len(), 2);
    assert!(app.selected_index < 2);
    assert_eq!(app.selected_index, 0);

    // an error leaves everything as it was, the cursor too
    app.selected_index = 40;
    let next = app.settle(Outcome::DataLoaded { loaded: Err("gone".to_string()) }, clock());
    assert!(next.is_err());
    assert_eq!(app.selected_index, 40);
}
