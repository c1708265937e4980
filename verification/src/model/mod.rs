//! Data model: journal entries, reports, the workspace and the summaries
//! derived from them.

pub mod computed;
pub mod meeting;
pub mod report;
pub mod time;
pub mod workspace;

pub use computed::{
    calculate_mood_trend, calculate_urgency_score, compute_extended_workspace_summary,
    compute_report_summary, compute_team_metrics, compute_workspace_summary, Average, MoodTrend,
    ReportSummary, TeamMetrics, WorkspaceSummary,
};
pub use meeting::{
    format_entry_filename, parse_entry_timestamp, Context, JournalEntry, JournalEntryFrontmatter,
};
pub use report::{Level, ManagerInfo, MeetingFrequency, Report, ReportProfile, ReportType, Skills};
pub use time::{Date, Timestamp};
pub use workspace::{Workspace, WorkspaceConfig, WorkspaceSettings};
