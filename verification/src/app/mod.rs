//! Application state and its update function.
//!
//! The model is changed by one message at a time. Work that needs the disk
//! or another program is not done here: the update function returns an
//! [`Effect`] that asks for it, and what came of it is handed back as an
//! [`Outcome`].

pub mod input;
pub mod settle;
pub mod state;
pub mod update;

pub use input::{handle_key_event, Key, KeyCode};

use crate::components::modal::NewReportState;
use crate::model::computed::{ReportSummary, WorkspaceSummary};
use crate::model::meeting::{Context, JournalEntry, JournalEntryFrontmatter};
use crate::model::report::{Report, ReportProfile, ReportType};
use crate::model::time::Date;
use crate::model::workspace::Workspace;
use vstd::prelude::*;

verus! {

/// How long a status message stays visible, in milliseconds.
pub const STATUS_MESSAGE_DURATION_MS: u64 = 3000;

/// The day and the time at which a message is handled. The time counts
/// milliseconds from a start that the caller chooses.
#[derive(Debug, Clone, Copy, PartialEq, Eq, Structural)]
pub struct Clock {
    pub today: Date,
    pub now_ms: u64,
}

/// Why an entry's file is to be deleted.
#[derive(Debug, Clone)]
pub enum DeleteCause {
    /// The user confirmed the deletion
    Confirmed,
    /// The editor left the note without content
    EditorEmptied { is_new: bool },
    /// The editor failed on a newly created entry
    EditorFailed { message: String },
}

/// Side effects that the update function can request.
#[derive(Debug, Clone)]
pub enum Effect {
    /// No side effect needed
    Nothing,
    /// Spawn external editor for current meeting
    SpawnEditor { is_new: bool },
    /// Create the file of a new meeting for a report
    CreateMeeting { report_idx: usize },
    /// Write an entry, as the model now holds it, to its file
    SaveEntry { report_idx: usize, entry_idx: usize },
    /// Delete an entry's file
    DeleteEntry { report_idx: usize, entry_idx: usize, cause: DeleteCause },
    /// Create the file of a new observation for a report
    CreateEntry { report_idx: usize, mood: Option<u8>, context: Context, notes: String },
    /// Create the directory and profile of a new report, then load all data
    CreateReport { name: String, profile: ReportProfile },
    /// Load all data from disk
    LoadData,
}

/// Application view modes
#[derive(Debug, Clone, Copy, PartialEq, Eq, Structural)]
pub enum ViewMode {
    /// Main dashboard showing all reports
    Dashboard,
    /// Detailed view of a single report
    ReportDetail,
    /// Viewing meeting notes
    NoteViewer,
    /// Modal for creating a new report
    NewReportModal,
    /// Modal for confirming deletion
    DeleteConfirmModal,
    /// Modal for quick entry input (mood observation)
    EntryInputModal,
    /// Help overlay
    Help,
}

/// Messages that can be sent to update application state
#[derive(Debug, Clone, Copy, PartialEq, Eq, Structural)]
pub enum Msg {
    /// Quit the application
    Quit,
    /// Go back to previous view
    Back,
    /// Show help overlay
    ShowHelp,
    /// Hide help overlay
    HideHelp,
    /// Select next item in list
    SelectNext,
    /// Select previous item in list
    SelectPrev,
    /// Jump to first item
    SelectFirst,
    /// Jump to last item
    SelectLast,
    /// View the selected report
    ViewReport,
    /// View a specific meeting by display index
    ViewMeeting(usize),
    /// Create a new meeting
    NewMeeting,
    /// Edit the current meeting in external editor
    EditMeeting,
    /// Edit meeting directly from list (index is display index, newest first)
    EditMeetingFromList(usize),
    /// Update mood rating (1-5)
    UpdateMood(u8),
    /// Show delete confirmation modal
    ShowDeleteConfirm,
    /// Confirm and execute deletion
    ConfirmDelete,
    /// Show new report modal
    ShowNewReport,
    /// Create the report from modal state
    CreateReport,
    /// Cancel and close the current modal
    CancelModal,
    /// Navigate left in modal
    ModalLeft,
    /// Navigate right in modal
    ModalRight,
    /// Move to next field in modal
    ModalNextField,
    /// Move to previous field in modal
    ModalPrevField,
    /// Show entry input modal
    ShowEntryInput,
    /// Set mood for the entry being created
    SetEntryMood(u8),
    /// Cycle through entry context options
    CycleEntryContext,
    /// Save the current entry
    SaveEntry,
    /// Reload all data from disk
    RefreshData,
    /// Character input
    Input(char),
    /// Backspace key
    Backspace,
    /// Enter key
    Enter,
}

/// One report as read from disk, with its journal entries in any order.
#[derive(Debug)]
pub struct LoadedReport {
    pub report: Report,
    pub entries: Vec<JournalEntry>,
}

/// What the editor left behind.
#[derive(Debug, Clone)]
pub struct Edited {
    /// Whether the file was modified
    pub modified: bool,
    /// The file's text after editing
    pub raw_content: String,
    /// The header block of that text, where it has one that can be read
    pub frontmatter: Option<JournalEntryFrontmatter>,
}

/// What came of creating a report.
#[derive(Debug)]
pub enum Recruitment {
    /// The report could not be created
    Failed(String),
    /// The report was created, but the data could not be loaded again
    ReloadFailed(String),
    /// The report was created; this is all data as loaded afterwards
    Recruited(Vec<LoadedReport>),
}

/// What came of the work that an [`Effect`] asked for.
#[derive(Debug)]
pub enum Outcome {
    /// Of `Effect::CreateMeeting`
    MeetingCreated { report_idx: usize, result: Result<JournalEntry, String> },
    /// Of `Effect::SaveEntry`
    EntrySaved { saved: Result<(), String> },
    /// Of `Effect::DeleteEntry`
    EntryDeleted {
        report_idx: usize,
        entry_idx: usize,
        cause: DeleteCause,
        deleted: Result<(), String>,
    },
    /// Of `Effect::CreateEntry`
    EntryCreated { report_idx: usize, result: Result<JournalEntry, String> },
    /// Of `Effect::CreateReport`
    ReportCreated { name: String, report_type: ReportType, recruitment: Recruitment },
    /// Of `Effect::LoadData`
    DataLoaded { loaded: Result<Vec<LoadedReport>, String> },
    /// Of `Effect::SpawnEditor`
    EditorClosed { is_new: bool, edited: Result<Edited, String> },
}

/// Main application state
#[derive(Debug)]
pub struct App {
    /// The loaded workspace
    pub workspace: Workspace,
    /// All reports in the workspace
    pub reports: Vec<Report>,
    /// Journal entries indexed by report
    pub entries_by_report: Vec<Vec<JournalEntry>>,
    /// Computed summaries for each report
    pub summaries: Vec<ReportSummary>,
    /// Aggregate workspace summary
    pub workspace_summary: WorkspaceSummary,
    /// Current view mode
    pub view_mode: ViewMode,
    /// Currently selected index in the active list
    pub selected_index: usize,
    /// Index of the currently viewed report (when in detail view)
    pub selected_report_index: Option<usize>,
    /// Index of the currently viewed entry
    pub selected_entry_index: Option<usize>,
    /// Content being viewed/edited
    pub editor_content: String,
    /// Current mood rating
    pub editor_mood: Option<u8>,
    /// State for the new report modal form
    pub new_report_state: NewReportState,
    /// Mood for the entry being created
    pub pending_entry_mood: Option<u8>,
    /// Context for the entry being created
    pub pending_entry_context: Context,
    /// Notes for the entry being created
    pub pending_entry_notes: String,
    /// Flag to signal the app should quit
    pub should_quit: bool,
    /// Current status message with the time at which it was set
    pub status_message: Option<(String, u64)>,
    /// Track if delete was initiated from entry list
    pub delete_from_list: bool,
}

} // verus!
