//! Workspace configuration model
//!
//! A workspace is a directory of team data with a small settings file.

use std::path::PathBuf;
use vstd::prelude::*;
use vstd::string::StringExecFns;

verus! {

/// Configurable workspace settings
#[derive(Debug, Clone)]
pub struct WorkspaceSettings {
    /// Default meeting frequency for new reports
    pub default_meeting_frequency: String,
    /// Days past due before marking as overdue
    pub overdue_threshold_days: u32,
    /// Default frequency for skip-level (2nd-level) meetings
    pub default_2nd_level_frequency: String,
}

/// Workspace configuration
#[derive(Debug, Clone)]
pub struct WorkspaceConfig {
    /// Config file format version
    pub version: u32,
    /// Workspace settings
    pub settings: WorkspaceSettings,
}

/// A loaded workspace with path and configuration
#[derive(Debug, Clone)]
pub struct Workspace {
    /// Filesystem path to the workspace directory
    pub path: PathBuf,
    /// Parsed configuration
    pub config: WorkspaceConfig,
}

/// Frequency of skip-level meetings when the settings name none.
pub fn default_2nd_level_frequency() -> (s: String)
    ensures
        s@ == "monthly"@,
{
    String::from_str("monthly")
}

/// Meeting frequency when the settings name none.
pub fn default_meeting_frequency() -> (s: String)
    ensures
        s@ == "biweekly"@,
{
    String::from_str("biweekly")
}

/// Days past due before a report counts as overdue, when the settings name
/// none.
pub fn default_overdue_threshold() -> (n: u32)
    ensures
        n == 3,
{
    3
}

impl Default for WorkspaceSettings {
    /// All-empty settings: empty frequency names and a threshold of zero.
    fn default() -> (s: WorkspaceSettings)
        ensures
            s.default_meeting_frequency@ == Seq::<char>::empty(),
            s.overdue_threshold_days == 0,
            s.default_2nd_level_frequency@ == Seq::<char>::empty(),
    {
        WorkspaceSettings {
            default_meeting_frequency: String::new(),
            overdue_threshold_days: 0,
            default_2nd_level_frequency: String::new(),
        }
    }
}

impl Default for WorkspaceConfig {
    fn default() -> (c: WorkspaceConfig)
        ensures
            c.version == 1,
            c.settings.default_meeting_frequency@ == Seq::<char>::empty(),
            c.settings.overdue_threshold_days == 0,
            c.settings.default_2nd_level_frequency@ == Seq::<char>::empty(),
    {
        WorkspaceConfig { version: 1, settings: WorkspaceSettings::default() }
    }
}

impl Workspace {
    /// Create a new workspace with the given path and config
    pub fn new(path: PathBuf, config: WorkspaceConfig) -> (w: Workspace)
        ensures
            w == (Workspace { path, config }),
    {
        Workspace { path, config }
    }
}

} // verus!
