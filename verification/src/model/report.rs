//! Report data model
//!
//! A report is a tracked person with a profile, career information and, for
//! managers, a team of second-level reports.

use crate::model::time::Date;
use crate::text::{same_text, unicode_lowercase, unicode_uppercase};
use std::collections::HashMap;
use std::path::PathBuf;
use vstd::prelude::*;
use vstd::string::StringExecFns;

verus! {

/// Type of report - individual contributor or manager
#[derive(Debug, Clone, Copy, PartialEq, Eq, Structural)]
pub enum ReportType {
    Individual,
    Manager,
}

impl Default for ReportType {
    fn default() -> (t: ReportType)
        ensures
            t == ReportType::Individual,
    {
        ReportType::Individual
    }
}

impl ReportType {
    /// Whether this is the manager type.
    pub fn is_manager(&self) -> (r: bool)
        ensures
            r == (*self == ReportType::Manager),
    {
        match self {
            ReportType::Manager => true,
            ReportType::Individual => false,
        }
    }

    /// Whether this is the individual contributor type.
    pub fn is_individual(&self) -> (r: bool)
        ensures
            r == (*self == ReportType::Individual),
    {
        match self {
            ReportType::Individual => true,
            ReportType::Manager => false,
        }
    }
}

/// Manager-specific information
#[derive(Debug, Clone)]
pub struct ManagerInfo {
    /// Optional team name (e.g., "Platform Team")
    pub team_name: Option<String>,
}

impl Default for ManagerInfo {
    fn default() -> (m: ManagerInfo)
        ensures
            m.team_name is None,
    {
        ManagerInfo { team_name: None }
    }
}

/// Skill assessments organized by category; each maps a skill to a level
/// or a note.
#[derive(Debug, Clone)]
pub struct Skills {
    pub technical: HashMap<String, String>,
    pub delivery: HashMap<String, String>,
    pub collaboration: HashMap<String, String>,
    pub leadership: HashMap<String, String>,
}

/// Profile information for a report (team member)
#[derive(Debug, Clone)]
pub struct ReportProfile {
    /// Full name of the report
    pub name: String,
    /// Job title (e.g., "Software Engineer")
    pub title: Option<String>,
    /// Start date at company
    pub start_date: Option<Date>,
    /// Career level (P1-P5 for ICs, M1-M5 for managers)
    pub level: Option<String>,
    /// How often to meet (weekly, biweekly, monthly)
    pub meeting_frequency: String,
    /// Whether the report is currently active
    pub active: bool,
    /// Type of report - IC or Manager
    pub report_type: ReportType,
    /// Manager-specific info
    pub manager_info: Option<ManagerInfo>,
    /// Birthday
    pub birthday: Option<Date>,
    /// Partner's name
    pub partner: Option<String>,
    /// Children's names
    pub children: Vec<String>,
    /// Skill assessments by category
    pub skills: Option<Skills>,
    /// When skills were last updated
    pub skills_updated: Option<Date>,
    /// Display color as "#RRGGBB" (derived from the name if not set)
    pub color: Option<String>,
}

/// Meeting frequency of a profile that names none.
pub fn default_meeting_frequency() -> (s: String)
    ensures
        s@ == "biweekly"@,
{
    String::from_str("biweekly")
}

/// Whether a profile that does not say so is active.
pub fn default_active() -> (b: bool)
    ensures
        b,
{
    true
}

/// Days between meetings for a frequency name: 7 for "weekly", 30 for
/// "monthly", 14 for "biweekly" and for every other text.
pub open spec fn cadence_days(frequency: Seq<char>) -> int {
    if frequency == "weekly"@ {
        7
    } else if frequency == "monthly"@ {
        30
    } else {
        14
    }
}

/// A loaded report with profile and filesystem location
#[derive(Debug)]
pub struct Report {
    /// URL-safe identifier derived from name (e.g., "alex-chen")
    pub slug: String,
    /// Filesystem path to the report directory
    pub path: PathBuf,
    /// Profile data
    pub profile: ReportProfile,
    /// Free-text notes kept with the profile
    pub notes_content: String,
    /// For 2nd-level reports, the slug of their manager
    pub manager_slug: Option<String>,
    /// For managers, their 2nd-level reports
    pub team: Vec<Report>,
}

impl Report {
    /// Only a manager has team members.
    pub open spec fn wf(&self) -> bool {
        self.team@.len() > 0 ==> self.profile.report_type == ReportType::Manager
    }

    /// A direct report, without team members.
    pub fn new(slug: String, path: PathBuf, profile: ReportProfile, notes_content: String) -> (r:
        Report)
        ensures
            r.slug == slug,
            r.path == path,
            r.profile == profile,
            r.notes_content == notes_content,
            r.manager_slug is None,
            r.team@.len() == 0,
            r.wf(),
    {
        Report { slug, path, profile, notes_content, manager_slug: None, team: Vec::new() }
    }

    /// A second-level report under the manager with the given slug.
    pub fn new_with_manager(
        slug: String,
        path: PathBuf,
        profile: ReportProfile,
        notes_content: String,
        manager_slug: String,
    ) -> (r: Report)
        ensures
            r.slug == slug,
            r.path == path,
            r.profile == profile,
            r.notes_content == notes_content,
            r.manager_slug == Some(manager_slug),
            r.team@.len() == 0,
            r.wf(),
    {
        Report {
            slug,
            path,
            profile,
            notes_content,
            manager_slug: Some(manager_slug),
            team: Vec::new(),
        }
    }

    /// Archive the report: it is no longer active. Nothing else changes.
    pub fn archive(&mut self)
        ensures
            !final(self).profile.active,
            *final(self) == (Report {
                profile: ReportProfile { active: false, ..old(self).profile },
                ..*old(self)
            }),
            old(self).wf() ==> final(self).wf(),
    {
        self.profile.active = false;
    }

    /// Days between meetings for this report's frequency.
    pub fn meeting_frequency_days(&self) -> (d: u32)
        ensures
            d == cadence_days(self.profile.meeting_frequency@),
    {
        let f: &str = self.profile.meeting_frequency.as_str();
        if same_text(f, "weekly") {
            7
        } else if same_text(f, "monthly") {
            30
        } else {
            14
        }
    }

    /// Check if this report is a manager
    pub fn is_manager(&self) -> (r: bool)
        ensures
            r == (self.profile.report_type == ReportType::Manager),
    {
        self.profile.report_type.is_manager()
    }

    /// Check if this is a 2nd-level report (has a manager in your org)
    pub fn is_second_level(&self) -> (r: bool)
        ensures
            r == self.manager_slug is Some,
    {
        self.manager_slug.is_some()
    }

    /// Get the team size (only meaningful for managers)
    pub fn team_size(&self) -> (n: usize)
        ensures
            n == self.team@.len(),
    {
        self.team.len()
    }
}

/// Career level for IC (P-track) and Manager (M-track)
#[derive(Debug, Clone, Copy, PartialEq, Eq, Structural)]
pub enum Level {
    P1,
    P2,
    P3,
    P4,
    P5,
    M1,
    M2,
    M3,
    M4,
    M5,
}

/// The level whose name is exactly `t`, if any.
pub open spec fn level_named(t: Seq<char>) -> Option<Level> {
    if t == "P1"@ {
        Some(Level::P1)
    } else if t == "P2"@ {
        Some(Level::P2)
    } else if t == "P3"@ {
        Some(Level::P3)
    } else if t == "P4"@ {
        Some(Level::P4)
    } else if t == "P5"@ {
        Some(Level::P5)
    } else if t == "M1"@ {
        Some(Level::M1)
    } else if t == "M2"@ {
        Some(Level::M2)
    } else if t == "M3"@ {
        Some(Level::M3)
    } else if t == "M4"@ {
        Some(Level::M4)
    } else if t == "M5"@ {
        Some(Level::M5)
    } else {
        None
    }
}

impl Level {
    /// The name of the level: its track letter and its number.
    pub open spec fn name(self) -> Seq<char> {
        match self {
            Level::P1 => "P1"@,
            Level::P2 => "P2"@,
            Level::P3 => "P3"@,
            Level::P4 => "P4"@,
            Level::P5 => "P5"@,
            Level::M1 => "M1"@,
            Level::M2 => "M2"@,
            Level::M3 => "M3"@,
            Level::M4 => "M4"@,
            Level::M5 => "M5"@,
        }
    }

    /// Whether the level is on the manager track.
    pub open spec fn is_manager_spec(self) -> bool {
        self == Level::M1 || self == Level::M2 || self == Level::M3 || self == Level::M4 || self
            == Level::M5
    }

    /// The number of the level within its track, 1 to 5.
    pub open spec fn number_spec(self) -> int {
        match self {
            Level::P1 | Level::M1 => 1,
            Level::P2 | Level::M2 => 2,
            Level::P3 | Level::M3 => 3,
            Level::P4 | Level::M4 => 4,
            Level::P5 | Level::M5 => 5,
        }
    }

    /// The level named by `s`, whatever its letter case.
    pub fn parse(s: &str) -> (r: Option<Level>)
        ensures
            r == level_named(unicode_uppercase(s@)),
    {
        let upper: String = s.to_uppercase();
        Level::from_uppercase(upper.as_str())
    }

    /// The level whose name is exactly `t` ("P1" to "P5", "M1" to "M5").
    pub fn from_uppercase(t: &str) -> (r: Option<Level>)
        ensures
            r == level_named(t@),
    {
        if same_text(t, "P1") {
            Some(Level::P1)
        } else if same_text(t, "P2") {
            Some(Level::P2)
        } else if same_text(t, "P3") {
            Some(Level::P3)
        } else if same_text(t, "P4") {
            Some(Level::P4)
        } else if same_text(t, "P5") {
            Some(Level::P5)
        } else if same_text(t, "M1") {
            Some(Level::M1)
        } else if same_text(t, "M2") {
            Some(Level::M2)
        } else if same_text(t, "M3") {
            Some(Level::M3)
        } else if same_text(t, "M4") {
            Some(Level::M4)
        } else if same_text(t, "M5") {
            Some(Level::M5)
        } else {
            None
        }
    }

    /// The name of the level.
    pub fn as_str(&self) -> (s: &'static str)
        ensures
            s@ == self.name(),
    {
        match self {
            Level::P1 => "P1",
            Level::P2 => "P2",
            Level::P3 => "P3",
            Level::P4 => "P4",
            Level::P5 => "P5",
            Level::M1 => "M1",
            Level::M2 => "M2",
            Level::M3 => "M3",
            Level::M4 => "M4",
            Level::M5 => "M5",
        }
    }

    /// Check if this is a manager level (M-track)
    pub fn is_manager(&self) -> (r: bool)
        ensures
            r == self.is_manager_spec(),
    {
        match self {
            Level::M1 | Level::M2 | Level::M3 | Level::M4 | Level::M5 => true,
            _ => false,
        }
    }

    /// Check if this is an IC level (P-track)
    pub fn is_ic(&self) -> (r: bool)
        ensures
            r == !self.is_manager_spec(),
    {
        !self.is_manager()
    }

    /// Get the track prefix (P or M)
    pub fn track(&self) -> (s: &'static str)
        ensures
            s@ == if self.is_manager_spec() {
                "M"@
            } else {
                "P"@
            },
    {
        if self.is_manager() {
            "M"
        } else {
            "P"
        }
    }

    /// Get the numeric level (1-5)
    pub fn number(&self) -> (n: u8)
        ensures
            n == self.number_spec(),
            1 <= n <= 5,
    {
        match self {
            Level::P1 | Level::M1 => 1,
            Level::P2 | Level::M2 => 2,
            Level::P3 | Level::M3 => 3,
            Level::P4 | Level::M4 => 4,
            Level::P5 | Level::M5 => 5,
        }
    }
}

/// How often 1-on-1 meetings should occur
#[derive(Debug, Clone, Copy, PartialEq, Eq, Structural)]
pub enum MeetingFrequency {
    /// Every week (7 days)
    Weekly,
    /// Every two weeks (14 days)
    Biweekly,
    /// Once a month (30 days)
    Monthly,
}

/// The frequency whose name is exactly `t`, if any.
pub open spec fn frequency_named(t: Seq<char>) -> Option<MeetingFrequency> {
    if t == "weekly"@ {
        Some(MeetingFrequency::Weekly)
    } else if t == "biweekly"@ {
        Some(MeetingFrequency::Biweekly)
    } else if t == "monthly"@ {
        Some(MeetingFrequency::Monthly)
    } else {
        None
    }
}

impl MeetingFrequency {
    /// The name of the frequency, in lowercase.
    pub open spec fn name(self) -> Seq<char> {
        match self {
            MeetingFrequency::Weekly => "weekly"@,
            MeetingFrequency::Biweekly => "biweekly"@,
            MeetingFrequency::Monthly => "monthly"@,
        }
    }

    /// Days between meetings at this frequency.
    pub open spec fn days_spec(self) -> int {
        match self {
            MeetingFrequency::Weekly => 7,
            MeetingFrequency::Biweekly => 14,
            MeetingFrequency::Monthly => 30,
        }
    }

    /// The frequency named by `s`, whatever its letter case.
    pub fn parse(s: &str) -> (r: Option<MeetingFrequency>)
        ensures
            r == frequency_named(unicode_lowercase(s@)),
    {
        let lower: String = s.to_lowercase();
        MeetingFrequency::from_lowercase(lower.as_str())
    }

    /// The frequency whose name is exactly `t`.
    pub fn from_lowercase(t: &str) -> (r: Option<MeetingFrequency>)
        ensures
            r == frequency_named(t@),
    {
        if same_text(t, "weekly") {
            Some(MeetingFrequency::Weekly)
        } else if same_text(t, "biweekly") {
            Some(MeetingFrequency::Biweekly)
        } else if same_text(t, "monthly") {
            Some(MeetingFrequency::Monthly)
        } else {
            None
        }
    }

    /// The name of the frequency, in lowercase.
    pub fn as_str(&self) -> (s: &'static str)
        ensures
            s@ == self.name(),
    {
        match self {
            MeetingFrequency::Weekly => "weekly",
            MeetingFrequency::Biweekly => "biweekly",
            MeetingFrequency::Monthly => "monthly",
        }
    }

    /// Days between meetings at this frequency.
    pub fn days(&self) -> (d: u32)
        ensures
            d == self.days_spec(),
    {
        match self {
            MeetingFrequency::Weekly => 7,
            MeetingFrequency::Biweekly => 14,
            MeetingFrequency::Monthly => 30,
        }
    }
}

} // verus!
