//! What the status bar says of each view mode.

use crate::app::ViewMode;
use vstd::prelude::*;

verus! {

/// The name under which a view mode is shown. The observation form shows
/// the report behind it, the delete confirmation the note.
pub open spec fn mode_label_text(mode: ViewMode) -> Seq<char> {
    match mode {
        ViewMode::Dashboard => "DASHBOARD"@,
        ViewMode::ReportDetail => "REPORT"@,
        ViewMode::EntryInputModal => "REPORT"@,
        ViewMode::NoteViewer => "NOTE"@,
        ViewMode::DeleteConfirmModal => "NOTE"@,
        ViewMode::NewReportModal => "NEW REPORT"@,
        ViewMode::Help => "HELP"@,
    }
}

/// The keys that a view mode offers, as shown at the right of the bar.
pub open spec fn key_hints_text(mode: ViewMode) -> Seq<char> {
    match mode {
        ViewMode::Dashboard => "h/l:nav  Enter:view  n:new  ?:help  q:quit"@,
        ViewMode::ReportDetail => "e:edit  n:new  m:mood  Del:delete  Enter:view  Bksp:back"@,
        ViewMode::NoteViewer => "e:edit  Del:delete  F1-F5:mood  Bksp:back"@,
        ViewMode::DeleteConfirmModal => "e:edit  Del:delete  F1-F5:mood  Bksp:back"@,
        ViewMode::EntryInputModal => "1-5:mood  Tab:context  Enter:save  Esc:cancel"@,
        ViewMode::Help => "?/Esc:close"@,
        ViewMode::NewReportModal => "Esc:cancel  Enter:confirm"@,
    }
}

/// The name under which a view mode is shown
pub fn mode_label(mode: ViewMode) -> (s: &'static str)
    ensures
        s@ == mode_label_text(mode),
{
    match mode {
        ViewMode::Dashboard => "DASHBOARD",
        ViewMode::ReportDetail => "REPORT",
        ViewMode::EntryInputModal => "REPORT",
        ViewMode::NoteViewer => "NOTE",
        ViewMode::DeleteConfirmModal => "NOTE",
        ViewMode::NewReportModal => "NEW REPORT",
        ViewMode::Help => "HELP",
    }
}

/// The keys that a view mode offers
pub fn key_hints(mode: ViewMode) -> (s: &'static str)
    ensures
        s@ == key_hints_text(mode),
{
    match mode {
        ViewMode::Dashboard => "h/l:nav  Enter:view  n:new  ?:help  q:quit",
        ViewMode::ReportDetail => "e:edit  n:new  m:mood  Del:delete  Enter:view  Bksp:back",
        ViewMode::NoteViewer => "e:edit  Del:delete  F1-F5:mood  Bksp:back",
        ViewMode::DeleteConfirmModal => "e:edit  Del:delete  F1-F5:mood  Bksp:back",
        ViewMode::EntryInputModal => "1-5:mood  Tab:context  Enter:save  Esc:cancel",
        ViewMode::Help => "?/Esc:close",
        ViewMode::NewReportModal => "Esc:cancel  Enter:confirm",
    }
}

} // verus!
