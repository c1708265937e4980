//! Key mapping: which message a key press stands for in each view mode.
//!
//! Keys arrive as plain values; reading them from the terminal is the
//! caller's part.

use crate::app::{App, Msg, ViewMode};
use crate::components::modal::NewReportField;
use vstd::prelude::*;

verus! {

/// The key that was pressed.
#[derive(Debug, Clone, Copy, PartialEq, Eq, Structural)]
pub enum KeyCode {
    Backspace,
    Enter,
    Left,
    Right,
    Up,
    Down,
    Tab,
    Delete,
    Esc,
    /// A function key, by its number
    F(u8),
    /// A character key
    Char(char),
    /// Any other key
    Other,
}

/// A key press: the key, and whether Control was held.
#[derive(Debug, Clone, Copy, PartialEq, Eq, Structural)]
pub struct Key {
    pub code: KeyCode,
    pub control: bool,
}

/// The lowercase form of an ASCII capital letter; any other character as
/// it is.
pub open spec fn ascii_lowercase(c: char) -> char {
    if 'A' <= c <= 'Z' {
        ((c as u8 + 32) as u8) as char
    } else {
        c
    }
}

/// The lowercase form of an ASCII capital letter; any other character as
/// it is.
pub fn to_ascii_lowercase(c: char) -> (r: char)
    ensures
        r == ascii_lowercase(c),
{
    if 'A' <= c && c <= 'Z' {
        ((c as u8) + 32) as char
    } else {
        c
    }
}

/// Shortcuts with Control held, the same in every view mode.
pub open spec fn global_shortcut(key: Key) -> Option<Msg> {
    match key.code {
        KeyCode::Char(c) => if !key.control {
            None
        } else if ascii_lowercase(c) == 'c' || ascii_lowercase(c) == 'q' {
            Some(Msg::Quit)
        } else if ascii_lowercase(c) == 'r' {
            Some(Msg::RefreshData)
        } else {
            None
        },
        _ => None,
    }
}

/// Keys on the dashboard.
pub open spec fn dashboard_key(code: KeyCode) -> Option<Msg> {
    match code {
        KeyCode::Left => Some(Msg::SelectPrev),
        KeyCode::Right => Some(Msg::SelectNext),
        KeyCode::Down => Some(Msg::SelectNext),
        KeyCode::Up => Some(Msg::SelectPrev),
        KeyCode::Enter => Some(Msg::ViewReport),
        KeyCode::Char(c) => if c == 'g' {
            Some(Msg::SelectFirst)
        } else if c == 'G' {
            Some(Msg::SelectLast)
        } else if ascii_lowercase(c) == 'q' {
            Some(Msg::Quit)
        } else if ascii_lowercase(c) == 'h' || ascii_lowercase(c) == 'k' {
            Some(Msg::SelectPrev)
        } else if ascii_lowercase(c) == 'l' || ascii_lowercase(c) == 'j' {
            Some(Msg::SelectNext)
        } else if c == ' ' {
            Some(Msg::ViewReport)
        } else if ascii_lowercase(c) == 'n' {
            Some(Msg::ShowNewReport)
        } else if c == '?' {
            Some(Msg::ShowHelp)
        } else if ascii_lowercase(c) == 'r' {
            Some(Msg::RefreshData)
        } else {
            None
        },
        _ => None,
    }
}

/// The message that opens or edits the meeting under the cursor, if the
/// cursor is on one.
pub open spec fn on_meeting(cursor: usize, meetings: nat, msg: Msg) -> Option<Msg> {
    if cursor < meetings {
        Some(msg)
    } else {
        None
    }
}

/// Keys in the detail view of a report, with the cursor at `cursor` in a
/// list of `meetings` meetings.
pub open spec fn report_detail_key(code: KeyCode, cursor: usize, meetings: nat) -> Option<Msg> {
    match code {
        KeyCode::Esc => Some(Msg::Back),
        KeyCode::Backspace => Some(Msg::Back),
        KeyCode::Left => Some(Msg::Back),
        KeyCode::Down => Some(Msg::SelectNext),
        KeyCode::Up => Some(Msg::SelectPrev),
        KeyCode::Right => on_meeting(cursor, meetings, Msg::ViewMeeting(cursor)),
        KeyCode::Enter => on_meeting(cursor, meetings, Msg::ViewMeeting(cursor)),
        KeyCode::Delete => Some(Msg::ShowDeleteConfirm),
        KeyCode::Char(c) => if c == 'g' {
            Some(Msg::SelectFirst)
        } else if c == 'G' {
            Some(Msg::SelectLast)
        } else if ascii_lowercase(c) == 'q' {
            Some(Msg::Quit)
        } else if ascii_lowercase(c) == 'h' {
            Some(Msg::Back)
        } else if ascii_lowercase(c) == 'j' {
            Some(Msg::SelectNext)
        } else if ascii_lowercase(c) == 'k' {
            Some(Msg::SelectPrev)
        } else if ascii_lowercase(c) == 'l' {
            on_meeting(cursor, meetings, Msg::ViewMeeting(cursor))
        } else if ascii_lowercase(c) == 'e' {
            on_meeting(cursor, meetings, Msg::EditMeetingFromList(cursor))
        } else if ascii_lowercase(c) == 'n' {
            Some(Msg::NewMeeting)
        } else if ascii_lowercase(c) == 'm' {
            Some(Msg::ShowEntryInput)
        } else if c == '?' {
            Some(Msg::ShowHelp)
        } else {
            None
        },
        _ => None,
    }
}

/// Keys in the note viewer.
pub open spec fn note_viewer_key(code: KeyCode) -> Option<Msg> {
    match code {
        KeyCode::Esc => Some(Msg::Back),
        KeyCode::Backspace => Some(Msg::Back),
        KeyCode::Delete => Some(Msg::ShowDeleteConfirm),
        KeyCode::F(n) => if 1 <= n <= 5 {
            Some(Msg::UpdateMood(n))
        } else {
            None
        },
        KeyCode::Char(c) => if ascii_lowercase(c) == 'q' {
            Some(Msg::Quit)
        } else if ascii_lowercase(c) == 'e' {
            Some(Msg::EditMeeting)
        } else {
            None
        },
        _ => None,
    }
}

/// Keys in the delete confirmation.
pub open spec fn delete_confirm_key(code: KeyCode) -> Option<Msg> {
    match code {
        KeyCode::Enter => Some(Msg::ConfirmDelete),
        KeyCode::Esc => Some(Msg::CancelModal),
        KeyCode::Char(c) => if ascii_lowercase(c) == 'y' {
            Some(Msg::ConfirmDelete)
        } else if ascii_lowercase(c) == 'n' {
            Some(Msg::CancelModal)
        } else {
            None
        },
        _ => None,
    }
}

/// Keys in the new report form. In the name and title fields every
/// character is input; in the other fields h, j, k and l move about.
pub open spec fn new_report_key(code: KeyCode, in_text_field: bool) -> Option<Msg> {
    match code {
        KeyCode::Esc => Some(Msg::CancelModal),
        KeyCode::Left => Some(Msg::ModalLeft),
        KeyCode::Right => Some(Msg::ModalRight),
        KeyCode::Up => Some(Msg::ModalPrevField),
        KeyCode::Down => Some(Msg::ModalNextField),
        KeyCode::Tab => Some(Msg::ModalNextField),
        KeyCode::Enter => Some(Msg::Enter),
        KeyCode::Backspace => Some(Msg::Backspace),
        KeyCode::Char(c) => if in_text_field {
            Some(Msg::Input(c))
        } else if c == 'h' {
            Some(Msg::ModalLeft)
        } else if c == 'l' {
            Some(Msg::ModalRight)
        } else if c == 'k' {
            Some(Msg::ModalPrevField)
        } else if c == 'j' {
            Some(Msg::ModalNextField)
        } else {
            Some(Msg::Input(c))
        },
        _ => None,
    }
}

/// Keys in the observation form.
pub open spec fn entry_input_key(code: KeyCode) -> Option<Msg> {
    match code {
        KeyCode::Esc => Some(Msg::CancelModal),
        KeyCode::Tab => Some(Msg::CycleEntryContext),
        KeyCode::Enter => Some(Msg::SaveEntry),
        KeyCode::Backspace => Some(Msg::Backspace),
        KeyCode::Char(c) => if c == '1' {
            Some(Msg::SetEntryMood(1))
        } else if c == '2' {
            Some(Msg::SetEntryMood(2))
        } else if c == '3' {
            Some(Msg::SetEntryMood(3))
        } else if c == '4' {
            Some(Msg::SetEntryMood(4))
        } else if c == '5' {
            Some(Msg::SetEntryMood(5))
        } else {
            Some(Msg::Input(c))
        },
        _ => None,
    }
}

/// Keys in the help overlay.
pub open spec fn help_key(code: KeyCode) -> Option<Msg> {
    match code {
        KeyCode::Esc => Some(Msg::HideHelp),
        KeyCode::Char(c) => if ascii_lowercase(c) == 'q' || c == '?' {
            Some(Msg::HideHelp)
        } else {
            None
        },
        _ => None,
    }
}

/// Whether the focus of the new report form is on a text field.
pub open spec fn in_text_field(app: App) -> bool {
    app.new_report_state.current_field == NewReportField::Name
        || app.new_report_state.current_field == NewReportField::Title
}

/// The message that a key press stands for: a global shortcut, or else
/// what the key means in the current view mode.
pub open spec fn key_message(app: App, key: Key) -> Option<Msg> {
    match global_shortcut(key) {
        Some(msg) => Some(msg),
        None => match app.view_mode {
            ViewMode::Dashboard => dashboard_key(key.code),
            ViewMode::ReportDetail => report_detail_key(
                key.code,
                app.selected_index,
                match app.selected_entries_spec() {
                    Some(entries) => crate::app::state::meeting_count(entries),
                    None => 0,
                },
            ),
            ViewMode::NoteViewer => note_viewer_key(key.code),
            ViewMode::DeleteConfirmModal => delete_confirm_key(key.code),
            ViewMode::NewReportModal => new_report_key(key.code, in_text_field(app)),
            ViewMode::EntryInputModal => entry_input_key(key.code),
            ViewMode::Help => help_key(key.code),
        },
    }
}

/// Map keyboard event to message
pub fn handle_key_event(app: &App, key: Key) -> (r: Option<Msg>)
    ensures
        r == key_message(*app, key),
{
    if key.control {
        match key.code {
            KeyCode::Char(c) => {
                let lower: char = to_ascii_lowercase(c);
                if lower == 'c' || lower == 'q' {
                    return Some(Msg::Quit);
                } else if lower == 'r' {
                    return Some(Msg::RefreshData);
                }
            },
            _ => {},
        }
    }
    match app.view_mode {
        ViewMode::Dashboard => handle_dashboard_key(key),
        ViewMode::ReportDetail => handle_report_detail_key(app, key),
        ViewMode::NoteViewer => handle_note_viewer_key(key),
        ViewMode::DeleteConfirmModal => handle_delete_confirm_key(key),
        ViewMode::NewReportModal => handle_new_report_modal_key(app, key),
        ViewMode::EntryInputModal => handle_entry_input_modal_key(key),
        ViewMode::Help => handle_help_key(key),
    }
}

/// Handle keys in Dashboard view
fn handle_dashboard_key(key: Key) -> (r: Option<Msg>)
    ensures
        r == dashboard_key(key.code),
{
    match key.code {
        KeyCode::Left => Some(Msg::SelectPrev),
        KeyCode::Right => Some(Msg::SelectNext),
        KeyCode::Down => Some(Msg::SelectNext),
        KeyCode::Up => Some(Msg::SelectPrev),
        KeyCode::Enter => Some(Msg::ViewReport),
        KeyCode::Char(c) => {
            let lower: char = to_ascii_lowercase(c);
            if c == 'g' {
                Some(Msg::SelectFirst)
            } else if c == 'G' {
                Some(Msg::SelectLast)
            } else if lower == 'q' {
                Some(Msg::Quit)
            } else if lower == 'h' || lower == 'k' {
                Some(Msg::SelectPrev)
            } else if lower == 'l' || lower == 'j' {
                Some(Msg::SelectNext)
            } else if c == ' ' {
                Some(Msg::ViewReport)
            } else if lower == 'n' {
                Some(Msg::ShowNewReport)
            } else if c == '?' {
                Some(Msg::ShowHelp)
            } else if lower == 'r' {
                Some(Msg::RefreshData)
            } else {
                None
            }
        },
        _ => None,
    }
}

/// Handle keys in ReportDetail view
fn handle_report_detail_key(app: &App, key: Key) -> (r: Option<Msg>)
    ensures
        r == report_detail_key(
            key.code,
            app.selected_index,
            match app.selected_entries_spec() {
                Some(entries) => crate::app::state::meeting_count(entries),
                None => 0,
            },
        ),
{
    let cursor: usize = app.selected_index;
    match key.code {
        KeyCode::Esc => Some(Msg::Back),
        KeyCode::Backspace => Some(Msg::Back),
        KeyCode::Left => Some(Msg::Back),
        KeyCode::Down => Some(Msg::SelectNext),
        KeyCode::Up => Some(Msg::SelectPrev),
        KeyCode::Right => if cursor < app.selected_meeting_count() {
            Some(Msg::ViewMeeting(cursor))
        } else {
            None
        },
        KeyCode::Enter => if cursor < app.selected_meeting_count() {
            Some(Msg::ViewMeeting(cursor))
        } else {
            None
        },
        KeyCode::Delete => Some(Msg::ShowDeleteConfirm),
        KeyCode::Char(c) => {
            let lower: char = to_ascii_lowercase(c);
            if c == 'g' {
                Some(Msg::SelectFirst)
            } else if c == 'G' {
                Some(Msg::SelectLast)
            } else if lower == 'q' {
                Some(Msg::Quit)
            } else if lower == 'h' {
                Some(Msg::Back)
            } else if lower == 'j' {
                Some(Msg::SelectNext)
            } else if lower == 'k' {
                Some(Msg::SelectPrev)
            } else if lower == 'l' {
                if cursor < app.selected_meeting_count() {
                    Some(Msg::ViewMeeting(cursor))
                } else {
                    None
                }
            } else if lower == 'e' {
                if cursor < app.selected_meeting_count() {
                    Some(Msg::EditMeetingFromList(cursor))
                } else {
                    None
                }
            } else if lower == 'n' {
                Some(Msg::NewMeeting)
            } else if lower == 'm' {
                Some(Msg::ShowEntryInput)
            } else if c == '?' {
                Some(Msg::ShowHelp)
            } else {
                None
            }
        },
        _ => None,
    }
}

/// Handle keys in NoteViewer view
fn handle_note_viewer_key(key: Key) -> (r: Option<Msg>)
    ensures
        r == note_viewer_key(key.code),
{
    match key.code {
        KeyCode::Esc => Some(Msg::Back),
        KeyCode::Backspace => Some(Msg::Back),
        KeyCode::Delete => Some(Msg::ShowDeleteConfirm),
        KeyCode::F(n) => if 1 <= n && n <= 5 {
            Some(Msg::UpdateMood(n))
        } else {
            None
        },
        KeyCode::Char(c) => {
            let lower: char = to_ascii_lowercase(c);
            if lower == 'q' {
                Some(Msg::Quit)
            } else if lower == 'e' {
                Some(Msg::EditMeeting)
            } else {
                None
            }
        },
        _ => None,
    }
}

/// Handle keys in DeleteConfirmModal view
fn handle_delete_confirm_key(key: Key) -> (r: Option<Msg>)
    ensures
        r == delete_confirm_key(key.code),
{
    match key.code {
        KeyCode::Enter => Some(Msg::ConfirmDelete),
        KeyCode::Esc => Some(Msg::CancelModal),
        KeyCode::Char(c) => {
            let lower: char = to_ascii_lowercase(c);
            if lower == 'y' {
                Some(Msg::ConfirmDelete)
            } else if lower == 'n' {
                Some(Msg::CancelModal)
            } else {
                None
            }
        },
        _ => None,
    }
}

/// Handle keys in NewReportModal view
fn handle_new_report_modal_key(app: &App, key: Key) -> (r: Option<Msg>)
    ensures
        r == new_report_key(key.code, in_text_field(*app)),
{
    let in_text: bool = match app.new_report_state.current_field {
        NewReportField::Name => true,
        NewReportField::Title => true,
        _ => false,
    };
    match key.code {
        KeyCode::Esc => Some(Msg::CancelModal),
        KeyCode::Left => Some(Msg::ModalLeft),
        KeyCode::Right => Some(Msg::ModalRight),
        KeyCode::Up => Some(Msg::ModalPrevField),
        KeyCode::Down => Some(Msg::ModalNextField),
        KeyCode::Tab => Some(Msg::ModalNextField),
        KeyCode::Enter => Some(Msg::Enter),
        KeyCode::Backspace => Some(Msg::Backspace),
        KeyCode::Char(c) => {
            if in_text {
                Some(Msg::Input(c))
            } else if c == 'h' {
                Some(Msg::ModalLeft)
            } else if c == 'l' {
                Some(Msg::ModalRight)
            } else if c == 'k' {
                Some(Msg::ModalPrevField)
            } else if c == 'j' {
                Some(Msg::ModalNextField)
            } else {
                Some(Msg::Input(c))
            }
        },
        _ => None,
    }
}

/// Handle keys in EntryInputModal view
fn handle_entry_input_modal_key(key: Key) -> (r: Option<Msg>)
    ensures
        r == entry_input_key(key.code),
{
    match key.code {
        KeyCode::Esc => Some(Msg::CancelModal),
        KeyCode::Tab => Some(Msg::CycleEntryContext),
        KeyCode::Enter => Some(Msg::SaveEntry),
        KeyCode::Backspace => Some(Msg::Backspace),
        KeyCode::Char(c) => {
            if c == '1' {
                Some(Msg::SetEntryMood(1))
            } else if c == '2' {
                Some(Msg::SetEntryMood(2))
            } else if c == '3' {
                Some(Msg::SetEntryMood(3))
            } else if c == '4' {
                Some(Msg::SetEntryMood(4))
            } else if c == '5' {
                Some(Msg::SetEntryMood(5))
            } else {
                Some(Msg::Input(c))
            }
        },
        _ => None,
    }
}

/// Handle keys in Help view
fn handle_help_key(key: Key) -> (r: Option<Msg>)
    ensures
        r == help_key(key.code),
{
    match key.code {
        KeyCode::Esc => Some(Msg::HideHelp),
        KeyCode::Char(c) => {
            let lower: char = to_ascii_lowercase(c);
            if lower == 'q' || c == '?' {
                Some(Msg::HideHelp)
            } else {
                None
            }
        },
        _ => None,
    }
}

} // verus!
