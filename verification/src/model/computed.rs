//! Summaries derived from reports and their journal entries: days since the
//! last meeting, overdue flag, recent mood and its trend, and the urgency
//! score that ranks the dashboard.

use crate::model::meeting::JournalEntry;
use crate::model::report::{cadence_days, Report, ReportType};
use crate::model::time::Date;
use crate::utils::{report_color, report_color_spec, Color};
use vstd::prelude::*;
use vstd::string::StringExecFns;
use vstd::string::StringSliceAdditionalSpecFns;

verus! {

/// Direction of a mood series.
#[derive(Debug, Clone, Copy, PartialEq, Eq, Structural)]
pub enum MoodTrend {
    Rising,
    Stable,
    Falling,
}

impl MoodTrend {
    /// The arrow that stands for the trend.
    pub open spec fn arrow(self) -> Seq<char> {
        match self {
            MoodTrend::Rising => "↗"@,
            MoodTrend::Falling => "↘"@,
            MoodTrend::Stable => " "@,
        }
    }

    /// The arrow that stands for the trend.
    pub fn as_str(&self) -> (s: &'static str)
        ensures
            s@ == self.arrow(),
    {
        match self {
            MoodTrend::Rising => "↗",
            MoodTrend::Falling => "↘",
            MoodTrend::Stable => " ",
        }
    }
}

/// A mean kept exact: the sum of the samples and their number.
#[derive(Debug, Clone, Copy, PartialEq, Eq, Structural)]
pub struct Average {
    /// Sum of the samples
    pub sum: u128,
    /// Number of samples, at least one
    pub count: usize,
}

/// Team metrics computed for managers
#[derive(Debug, Clone, Copy, PartialEq, Eq, Structural)]
pub struct TeamMetrics {
    /// Number of 2nd-level reports
    pub team_size: usize,
    /// Average mood across the active members that have one
    pub team_average_mood: Option<Average>,
    /// Team mood trend direction
    pub team_mood_trend: Option<MoodTrend>,
    /// Number of active team members overdue for meetings
    pub team_overdue_count: usize,
    /// Composite team health score (0-100)
    pub team_health_score: u8,
}

/// What the dashboard shows of one report.
#[derive(Debug, Clone)]
pub struct ReportSummary {
    pub name: String,
    pub level: String,
    pub meeting_frequency: String,
    pub active: bool,
    pub days_since_meeting: Option<i64>,
    pub is_overdue: bool,
    pub mood_trend: Option<MoodTrend>,
    pub recent_mood: Option<u8>,
    /// Display color for the report (its own, or derived from the name)
    pub color: Color,
    /// Urgency score for sorting (higher = needs more attention)
    pub urgency_score: i32,
    /// Report type (IC or Manager)
    pub report_type: ReportType,
    /// For managers: team metrics
    pub team_metrics: Option<TeamMetrics>,
}

/// Aggregate over all direct reports.
#[derive(Debug, Clone, Copy, PartialEq, Eq, Structural)]
pub struct WorkspaceSummary {
    pub team_size: usize,
    pub active_count: usize,
    pub overdue_count: usize,
    pub average_mood: Option<Average>,
    /// Total count including 2nd-level reports
    pub total_report_count: usize,
}

// ---------------------------------------------------------------------------
// Per-report summary
// ---------------------------------------------------------------------------

/// Some entry counts as a meeting.
pub open spec fn has_meeting(entries: Seq<JournalEntry>) -> bool {
    exists|i: int| 0 <= i < entries.len() && (#[trigger] entries[i]).is_meeting_spec()
}

/// Day number of the latest date among the entries that count as meetings.
pub open spec fn latest_meeting_day(entries: Seq<JournalEntry>) -> Option<int>
    decreases entries.len(),
{
    if entries.len() == 0 {
        None
    } else {
        let rest = latest_meeting_day(entries.drop_last());
        let e = entries.last();
        if e.is_meeting_spec() {
            match rest {
                Some(d) => if d >= e.timestamp.date.days {
                    Some(d)
                } else {
                    Some(e.timestamp.date.days as int)
                },
                None => Some(e.timestamp.date.days as int),
            }
        } else {
            rest
        }
    }
}

/// Days from the latest meeting to `today`, absent without any meeting.
pub open spec fn days_since_meeting(entries: Seq<JournalEntry>, today: Date) -> Option<int> {
    match latest_meeting_day(entries) {
        Some(d) => Some(today.days - d),
        None => None,
    }
}

/// The valid moods of the entries, newest entry first.
pub open spec fn moods_newest_first(entries: Seq<JournalEntry>) -> Seq<u8>
    decreases entries.len(),
{
    if entries.len() == 0 {
        Seq::empty()
    } else {
        let newer = moods_newest_first(entries.drop_first());
        match entries[0].mood_spec() {
            Some(m) => newer.push(m),
            None => newer,
        }
    }
}

/// Number of mood samples that the trend looks at.
pub open spec fn mood_window() -> nat {
    5
}

/// The newest valid moods, at most `mood_window()` of them, newest first.
pub open spec fn recent_moods(entries: Seq<JournalEntry>) -> Seq<u8> {
    let all = moods_newest_first(entries);
    if all.len() <= mood_window() {
        all
    } else {
        all.take(mood_window() as int)
    }
}

/// The newest mood of a window, if it holds any.
pub open spec fn newest_mood(moods: Seq<u8>) -> Option<u8> {
    if moods.len() > 0 {
        Some(moods[0])
    } else {
        None
    }
}

/// Trend of a window of moods given newest first: with fewer than two
/// samples none; else the newest against the oldest.
pub open spec fn mood_trend_of(moods: Seq<u8>) -> Option<MoodTrend> {
    if moods.len() < 2 {
        None
    } else if moods[0] > moods.last() {
        Some(MoodTrend::Rising)
    } else if moods[0] < moods.last() {
        Some(MoodTrend::Falling)
    } else {
        Some(MoodTrend::Stable)
    }
}

/// Overdue: never met, or the last meeting is further back than the cadence
/// plus the threshold.
pub open spec fn overdue(days_since: Option<int>, cadence: int, threshold: int) -> bool {
    match days_since {
        None => true,
        Some(d) => d > cadence + threshold,
    }
}

/// Urgency from the meeting schedule: 100 if never met; 10 per day past the
/// cadence plus threshold, at most 80; 5 when due within two days.
pub open spec fn meeting_urgency(days_since: Option<int>, cadence: int, threshold: int) -> int {
    match days_since {
        None => 100,
        Some(d) => {
            let days_overdue = d - cadence - threshold;
            if days_overdue > 0 {
                if days_overdue * 10 < 80 {
                    days_overdue * 10
                } else {
                    80
                }
            } else if cadence - d <= 2 {
                5
            } else {
                0
            }
        },
    }
}

/// Urgency from the mood: 10 without any mood, 20 for a mood of 2 or less.
pub open spec fn mood_urgency(mood: Option<u8>) -> int {
    match mood {
        None => 10,
        Some(m) => if m <= 2 {
            20
        } else {
            0
        },
    }
}

/// Urgency from the trend: 15 when falling.
pub open spec fn trend_urgency(trend: Option<MoodTrend>) -> int {
    if trend == Some(MoodTrend::Falling) {
        15
    } else {
        0
    }
}

/// The urgency score: higher means more in need of attention.
pub open spec fn urgency(
    days_since: Option<int>,
    cadence: int,
    threshold: int,
    mood: Option<u8>,
    trend: Option<MoodTrend>,
) -> int {
    meeting_urgency(days_since, cadence, threshold) + mood_urgency(mood) + trend_urgency(trend)
}

/// The days as an unbounded number.
pub open spec fn widen(days: Option<i64>) -> Option<int> {
    match days {
        Some(d) => Some(d as int),
        None => None,
    }
}

/// Calculate urgency score for sorting reports by attention needed.
/// Higher score = more urgent attention required.
pub fn calculate_urgency_score(
    days_since: Option<i64>,
    frequency_days: i64,
    overdue_threshold: i64,
    mood: Option<u8>,
    trend: Option<MoodTrend>,
) -> (score: i32)
    ensures
        score == urgency(
            widen(days_since),
            frequency_days as int,
            overdue_threshold as int,
            mood,
            trend,
        ),
        0 <= score <= 135,
{
    let mut score: i32 = 0;
    match days_since {
        None => {
            score += 100;
        },
        Some(days) => {
            let days_until_due: i128 = frequency_days as i128 - days as i128;
            let days_overdue: i128 = days as i128 - frequency_days as i128
                - overdue_threshold as i128;
            if days_overdue > 0 {
                if days_overdue < 8 {
                    score += (days_overdue * 10) as i32;
                } else {
                    score += 80;
                }
            } else if days_until_due <= 2 {
                score += 5;
            }
        },
    }
    match mood {
        None => {
            score += 10;
        },
        Some(m) => {
            if m <= 2 {
                score += 20;
            }
        },
    }
    match trend {
        Some(MoodTrend::Falling) => {
            score += 15;
        },
        _ => {},
    }
    score
}

/// Trend of a window of moods given newest first.
pub fn calculate_mood_trend(moods: &[u8]) -> (trend: Option<MoodTrend>)
    ensures
        trend == mood_trend_of(moods@),
{
    if moods.len() < 2 {
        return None;
    }
    let newest: u8 = moods[0];
    let oldest: u8 = moods[moods.len() - 1];
    if newest > oldest {
        Some(MoodTrend::Rising)
    } else if newest < oldest {
        Some(MoodTrend::Falling)
    } else {
        Some(MoodTrend::Stable)
    }
}

/// The latest meeting day is absent exactly when no entry is a meeting;
/// otherwise it is the day of some meeting and no meeting is later.
pub proof fn lemma_latest_meeting_day(entries: Seq<JournalEntry>)
    ensures
        latest_meeting_day(entries) is None <==> !has_meeting(entries),
        latest_meeting_day(entries) matches Some(d) ==> {
            &&& exists|i: int|
                0 <= i < entries.len() && (#[trigger] entries[i]).is_meeting_spec()
                    && entries[i].timestamp.date.days == d
            &&& forall|j: int|
                0 <= j < entries.len() && (#[trigger] entries[j]).is_meeting_spec()
                    ==> entries[j].timestamp.date.days <= d
        },
    decreases entries.len(),
{
    if entries.len() > 0 {
        let rest = entries.drop_last();
        let e = entries.last();
        lemma_latest_meeting_day(rest);
        assert forall|j: int| 0 <= j < rest.len() implies rest[j] == entries[j] by {}
        if has_meeting(rest) {
            let i = choose|i: int| 0 <= i < rest.len() && (#[trigger] rest[i]).is_meeting_spec();
            assert(entries[i].is_meeting_spec());
        }
        if e.is_meeting_spec() {
            assert(entries[entries.len() - 1].is_meeting_spec());
        }
        if has_meeting(entries) && !e.is_meeting_spec() {
            let i = choose|i: int|
                0 <= i < entries.len() && (#[trigger] entries[i]).is_meeting_spec();
            assert(rest[i].is_meeting_spec());
        }
        match latest_meeting_day(entries) {
            Some(d) => {
                if e.is_meeting_spec() && e.timestamp.date.days == d {
                    assert(entries[entries.len() - 1].timestamp.date.days == d);
                } else {
                    let i = choose|i: int|
                        0 <= i < rest.len() && (#[trigger] rest[i]).is_meeting_spec()
                            && rest[i].timestamp.date.days == d;
                    assert(entries[i].is_meeting_spec() && entries[i].timestamp.date.days == d);
                }
                assert forall|j: int|
                    0 <= j < entries.len() && (
                    #[trigger] entries[j]).is_meeting_spec() implies entries[j].timestamp.date.days
                    <= d by {
                    if j < rest.len() {
                        assert(rest[j].is_meeting_spec());
                    }
                }
            },
            None => {},
        }
    }
}

/// The moods of a suffix of the entries are the first moods of the whole.
pub proof fn lemma_moods_of_suffix(entries: Seq<JournalEntry>, from: int)
    requires
        0 <= from <= entries.len(),
    ensures
        moods_newest_first(entries.skip(from)).len() <= moods_newest_first(entries).len(),
        moods_newest_first(entries).take(moods_newest_first(entries.skip(from)).len() as int)
            == moods_newest_first(entries.skip(from)),
    decreases from,
{
    if from == 0 {
        assert(entries.skip(0) =~= entries);
        assert(moods_newest_first(entries).take(moods_newest_first(entries).len() as int)
            =~= moods_newest_first(entries));
    } else {
        lemma_moods_of_suffix(entries, from - 1);
        let outer = entries.skip(from - 1);
        assert(outer.drop_first() =~= entries.skip(from));
        let inner = moods_newest_first(entries.skip(from));
        let whole = moods_newest_first(entries);
        assert(whole.take(inner.len() as int) =~= whole.take(
            moods_newest_first(outer).len() as int,
        ).take(inner.len() as int));
        assert(moods_newest_first(outer).take(inner.len() as int) =~= inner);
    }
}

/// Without any valid mood among the entries the window is empty, and so
/// there is neither a recent mood nor a trend.
pub proof fn lemma_no_moods(entries: Seq<JournalEntry>)
    requires
        forall|i: int| 0 <= i < entries.len() ==> (#[trigger] entries[i]).mood_spec() is None,
    ensures
        moods_newest_first(entries).len() == 0,
        recent_moods(entries).len() == 0,
    decreases entries.len(),
{
    if entries.len() > 0 {
        let rest = entries.drop_first();
        assert forall|i: int| 0 <= i < rest.len() implies (#[trigger] rest[i]).mood_spec()
            is None by {
            assert(rest[i] == entries[i + 1]);
        }
        lemma_no_moods(rest);
        assert(entries[0].mood_spec() is None);
    }
}

fn last_meeting_day(entries: &[JournalEntry]) -> (r: Option<i32>)
    ensures
        match r {
            Some(d) => latest_meeting_day(entries@) == Some(d as int),
            None => latest_meeting_day(entries@) is None,
        },
{
    let mut best: Option<i32> = None;
    let mut i: usize = 0;
    while i < entries.len()
        invariant
            i <= entries.len(),
            match best {
                Some(d) => latest_meeting_day(entries@.take(i as int)) == Some(d as int),
                None => latest_meeting_day(entries@.take(i as int)) is None,
            },
        decreases entries.len() - i,
    {
        proof {
            assert(entries@.take(i + 1).drop_last() =~= entries@.take(i as int));
            assert(entries@.take(i + 1).last() == entries@[i as int]);
        }
        if entries[i].is_meeting() {
            let day: i32 = entries[i].timestamp.date.days;
            best =
            match best {
                Some(d) => if d >= day {
                    Some(d)
                } else {
                    Some(day)
                },
                None => Some(day),
            };
        }
        i += 1;
    }
    proof {
        assert(entries@.take(i as int) =~= entries@);
    }
    best
}

fn collect_recent_moods(entries: &[JournalEntry]) -> (moods: Vec<u8>)
    ensures
        moods@ == recent_moods(entries@),
{
    let mut moods: Vec<u8> = Vec::new();
    let mut i: usize = entries.len();
    while i > 0 && moods.len() < 5
        invariant
            i <= entries.len(),
            moods@ == moods_newest_first(entries@.skip(i as int)),
            moods@.len() <= 5,
        decreases i,
    {
        proof {
            assert(entries@.skip(i - 1).drop_first() =~= entries@.skip(i as int));
            assert(entries@.skip(i - 1)[0] == entries@[i - 1]);
        }
        i -= 1;
        match entries[i].mood() {
            Some(m) => {
                moods.push(m);
            },
            None => {},
        }
    }
    proof {
        lemma_moods_of_suffix(entries@, i as int);
        let all = moods_newest_first(entries@);
        if i == 0 {
            assert(entries@.skip(0) =~= entries@);
            if all.len() > 5 {
                assert(false);
            }
        } else {
            assert(moods@.len() == 5);
            if all.len() == 5 {
                assert(all.take(5) =~= all);
            }
        }
    }
    moods
}

/// `s` is the summary of `report` with `entries` as seen on `today`.
pub open spec fn summarizes(
    s: ReportSummary,
    report: Report,
    entries: Seq<JournalEntry>,
    overdue_threshold: u32,
    today: Date,
) -> bool {
    let cadence = cadence_days(report.profile.meeting_frequency@);
    let since = days_since_meeting(entries, today);
    let moods = recent_moods(entries);
    &&& s.name@ == report.profile.name@
    &&& s.level@ == match report.profile.level {
        Some(l) => l@,
        None => "-"@,
    }
    &&& s.meeting_frequency@ == report.profile.meeting_frequency@
    &&& s.active == report.profile.active
    &&& widen(s.days_since_meeting) == since
    &&& s.is_overdue == overdue(since, cadence, overdue_threshold as int)
    &&& s.recent_mood == newest_mood(moods)
    &&& s.mood_trend == mood_trend_of(moods)
    &&& s.color == report_color_spec(
        match report.profile.color {
            Some(c) => Some(c@),
            None => None,
        },
        vstd::utf8::encode_utf8(report.profile.name@),
    )
    &&& s.urgency_score == urgency(
        since,
        cadence,
        overdue_threshold as int,
        newest_mood(moods),
        mood_trend_of(moods),
    )
    &&& s.report_type == report.profile.report_type
    &&& s.team_metrics is None
}

/// Summary of one report from its journal entries, as seen on `today`.
pub fn compute_report_summary(
    report: &Report,
    entries: &[JournalEntry],
    overdue_threshold: u32,
    today: Date,
) -> (s: ReportSummary)
    ensures
        summarizes(s, *report, entries@, overdue_threshold, today),
{
    let last: Option<i32> = last_meeting_day(entries);
    let days_since_meeting: Option<i64> = match last {
        Some(d) => Some(today.days_since(Date { days: d })),
        None => None,
    };
    let frequency_days: i64 = report.meeting_frequency_days() as i64;
    let is_overdue: bool = match days_since_meeting {
        Some(days) => days > frequency_days + overdue_threshold as i64,
        None => true,
    };
    let recent: Vec<u8> = collect_recent_moods(entries);
    let recent_mood: Option<u8> = if recent.len() > 0 {
        Some(recent[0])
    } else {
        None
    };
    let mood_trend: Option<MoodTrend> = calculate_mood_trend(recent.as_slice());
    let color: Color = match &report.profile.color {
        Some(c) => report_color(Some(c.as_str()), report.profile.name.as_str()),
        None => report_color(None, report.profile.name.as_str()),
    };
    let urgency_score: i32 = calculate_urgency_score(
        days_since_meeting,
        frequency_days,
        overdue_threshold as i64,
        recent_mood,
        mood_trend,
    );
    let level: String = match &report.profile.level {
        Some(l) => l.clone(),
        None => String::from_str("-"),
    };
    ReportSummary {
        name: report.profile.name.clone(),
        level,
        meeting_frequency: report.profile.meeting_frequency.clone(),
        active: report.profile.active,
        days_since_meeting,
        is_overdue,
        mood_trend,
        recent_mood,
        color,
        urgency_score,
        report_type: report.profile.report_type,
        team_metrics: None,
    }
}

impl ReportSummary {
    /// Two summaries show the same: equal texts and equal values.
    pub open spec fn same_as(self, other: ReportSummary) -> bool {
        &&& self.name@ == other.name@
        &&& self.level@ == other.level@
        &&& self.meeting_frequency@ == other.meeting_frequency@
        &&& self.active == other.active
        &&& self.days_since_meeting == other.days_since_meeting
        &&& self.is_overdue == other.is_overdue
        &&& self.mood_trend == other.mood_trend
        &&& self.recent_mood == other.recent_mood
        &&& self.color == other.color
        &&& self.urgency_score == other.urgency_score
        &&& self.report_type == other.report_type
        &&& self.team_metrics == other.team_metrics
    }
}

/// Computing the summary again from the same report, entries, threshold and
/// day gives the same summary.
pub proof fn lemma_summary_is_determined(
    a: ReportSummary,
    b: ReportSummary,
    report: Report,
    entries: Seq<JournalEntry>,
    overdue_threshold: u32,
    today: Date,
)
    requires
        summarizes(a, report, entries, overdue_threshold, today),
        summarizes(b, report, entries, overdue_threshold, today),
    ensures
        a.same_as(b),
{
}

/// A report without any meeting scores at least 100 and is overdue; with no
/// valid mood among its entries either, it scores exactly 110.
pub proof fn lemma_never_met_urgency(
    s: ReportSummary,
    report: Report,
    entries: Seq<JournalEntry>,
    overdue_threshold: u32,
    today: Date,
)
    requires
        summarizes(s, report, entries, overdue_threshold, today),
        !has_meeting(entries),
    ensures
        s.days_since_meeting is None,
        s.is_overdue,
        s.urgency_score >= 100,
        (forall|i: int| 0 <= i < entries.len() ==> (#[trigger] entries[i]).mood_spec() is None)
            ==> s.urgency_score == 110,
{
    lemma_latest_meeting_day(entries);
    if forall|i: int| 0 <= i < entries.len() ==> (#[trigger] entries[i]).mood_spec() is None {
        lemma_no_moods(entries);
    }
}

// ---------------------------------------------------------------------------
// Team and workspace aggregates
// ---------------------------------------------------------------------------

/// Number of summaries in `s` that satisfy `p`.
pub open spec fn count_where(s: Seq<ReportSummary>, p: spec_fn(ReportSummary) -> bool) -> nat
    decreases s.len(),
{
    if s.len() == 0 {
        0
    } else {
        count_where(s.drop_last(), p) + if p(s.last()) {
            1nat
        } else {
            0nat
        }
    }
}

/// Active members.
pub open spec fn is_active() -> spec_fn(ReportSummary) -> bool {
    |s: ReportSummary| s.active
}

/// Active members that are overdue.
pub open spec fn is_active_overdue() -> spec_fn(ReportSummary) -> bool {
    |s: ReportSummary| s.active && s.is_overdue
}

/// Active members whose mood rises.
pub open spec fn is_active_rising() -> spec_fn(ReportSummary) -> bool {
    |s: ReportSummary| s.active && s.mood_trend == Some(MoodTrend::Rising)
}

/// Active members whose mood falls.
pub open spec fn is_active_falling() -> spec_fn(ReportSummary) -> bool {
    |s: ReportSummary| s.active && s.mood_trend == Some(MoodTrend::Falling)
}

/// Active members with a recent mood.
pub open spec fn is_active_with_mood() -> spec_fn(ReportSummary) -> bool {
    |s: ReportSummary| s.active && s.recent_mood is Some
}

/// Sum of the recent moods of the active members that have one.
pub open spec fn mood_sum(s: Seq<ReportSummary>) -> nat
    decreases s.len(),
{
    if s.len() == 0 {
        0
    } else {
        mood_sum(s.drop_last()) + match s.last().recent_mood {
            Some(m) => if s.last().active {
                m as nat
            } else {
                0nat
            },
            None => 0nat,
        }
    }
}

/// Mean of the recent moods of the active members, absent if none has one.
pub open spec fn mood_average(s: Seq<ReportSummary>) -> Option<Average> {
    if count_where(s, is_active_with_mood()) == 0 {
        None
    } else {
        Some(
            Average {
                sum: mood_sum(s) as u128,
                count: count_where(s, is_active_with_mood()) as usize,
            },
        )
    }
}

/// Trend of a team from the numbers of members rising and falling: the one
/// that outnumbers the other more than twice over; Stable where neither
/// does and either is present; absent where both are zero.
pub open spec fn team_trend(rising: nat, falling: nat) -> Option<MoodTrend> {
    if rising > falling * 2 {
        Some(MoodTrend::Rising)
    } else if falling > rising * 2 {
        Some(MoodTrend::Falling)
    } else if rising > 0 || falling > 0 {
        Some(MoodTrend::Stable)
    } else {
        None
    }
}

/// Health of a team, 0 to 100. From 100 are taken: ten times the amount by
/// which the average mood falls short of 4 (10 flat without any mood), 40
/// times the overdue share of the team, and 20 times the falling share. The
/// result is cut to 0..=100 and rounded down. A team without members
/// scores 0.
pub open spec fn team_health(size: nat, average: Option<Average>, overdue: nat, falling: nat) -> int {
    if size == 0 {
        0
    } else {
        let mood_parts: (int, int) = match average {
            None => (10, 1),
            Some(a) => (
                if 4 * a.count > a.sum {
                    (4 * a.count - a.sum) * 10
                } else {
                    0
                },
                a.count as int,
            ),
        };
        let penalty = mood_parts.0;
        let samples = mood_parts.1;
        let shares = overdue * 40 + falling * 20;
        let raw = (100 * size * samples - penalty * size - shares * samples) / (size * samples);
        if raw < 0 {
            0
        } else if raw > 100 {
            100
        } else {
            raw
        }
    }
}

/// The metrics of a team with these member summaries.
pub open spec fn team_metrics_of(s: Seq<ReportSummary>) -> TeamMetrics {
    TeamMetrics {
        team_size: s.len() as usize,
        team_average_mood: mood_average(s),
        team_mood_trend: team_trend(
            count_where(s, is_active_rising()),
            count_where(s, is_active_falling()),
        ),
        team_overdue_count: count_where(s, is_active_overdue()) as usize,
        team_health_score: team_health(
            s.len(),
            mood_average(s),
            count_where(s, is_active_overdue()),
            count_where(s, is_active_falling()),
        ) as u8,
    }
}

/// The rollup of the direct reports' summaries.
pub open spec fn workspace_summary_of(s: Seq<ReportSummary>) -> WorkspaceSummary {
    WorkspaceSummary {
        team_size: s.len() as usize,
        active_count: count_where(s, is_active()) as usize,
        overdue_count: count_where(s, is_active_overdue()) as usize,
        average_mood: mood_average(s),
        total_report_count: s.len() as usize,
    }
}

/// The sum of the moods is at most 255 for each member that has one.
pub proof fn lemma_mood_sum_bound(s: Seq<ReportSummary>)
    ensures
        mood_sum(s) <= 255 * count_where(s, is_active_with_mood()),
    decreases s.len(),
{
    if s.len() > 0 {
        lemma_mood_sum_bound(s.drop_last());
    }
}

/// Counts of the members of a team, gathered in one pass.
struct Tally {
    active: usize,
    overdue: usize,
    rising: usize,
    falling: usize,
    with_mood: usize,
    mood_sum: u128,
}

impl Tally {
    spec fn counts(self, s: Seq<ReportSummary>) -> bool {
        &&& self.active == count_where(s, is_active())
        &&& self.overdue == count_where(s, is_active_overdue())
        &&& self.rising == count_where(s, is_active_rising())
        &&& self.falling == count_where(s, is_active_falling())
        &&& self.with_mood == count_where(s, is_active_with_mood())
        &&& self.mood_sum == mood_sum(s)
    }

    spec fn average(self) -> Option<Average> {
        if self.with_mood == 0 {
            None
        } else {
            Some(Average { sum: self.mood_sum, count: self.with_mood })
        }
    }
}

fn tally(summaries: &[ReportSummary]) -> (t: Tally)
    ensures
        t.counts(summaries@),
        t.average() == mood_average(summaries@),
{
    let mut t = Tally { active: 0, overdue: 0, rising: 0, falling: 0, with_mood: 0, mood_sum: 0 };
    let mut i: usize = 0;
    while i < summaries.len()
        invariant
            i <= summaries.len(),
            t.counts(summaries@.take(i as int)),
            t.active <= i,
            t.overdue <= i,
            t.rising <= i,
            t.falling <= i,
            t.with_mood <= i,
            t.mood_sum <= 255 * i,
        decreases summaries.len() - i,
    {
        proof {
            assert(summaries@.take(i + 1).drop_last() =~= summaries@.take(i as int));
            assert(summaries@.take(i + 1).last() == summaries@[i as int]);
        }
        let s: &ReportSummary = &summaries[i];
        if s.active {
            t.active += 1;
            if s.is_overdue {
                t.overdue += 1;
            }
            match s.mood_trend {
                Some(MoodTrend::Rising) => {
                    t.rising += 1;
                },
                Some(MoodTrend::Falling) => {
                    t.falling += 1;
                },
                _ => {},
            }
            match s.recent_mood {
                Some(m) => {
                    t.with_mood += 1;
                    t.mood_sum += m as u128;
                },
                None => {},
            }
        }
        i += 1;
    }
    proof {
        assert(summaries@.take(i as int) =~= summaries@);
    }
    t
}

fn aggregate_mood_trends(rising: usize, falling: usize) -> (trend: Option<MoodTrend>)
    ensures
        trend == team_trend(rising as nat, falling as nat),
{
    let r: u128 = rising as u128;
    let f: u128 = falling as u128;
    if r > f * 2 {
        Some(MoodTrend::Rising)
    } else if f > r * 2 {
        Some(MoodTrend::Falling)
    } else if r > 0 || f > 0 {
        Some(MoodTrend::Stable)
    } else {
        None
    }
}

/// Rounding down `100 - P/C - Q/S` only needs the whole parts of the two
/// fractions and how their remainders add up: not at all, to at most one,
/// or to more than one.
proof fn lemma_health_quotient(s: int, c: int, p: int, q: int, carry: int)
    requires
        s > 0,
        c > 0,
        p >= 0,
        q >= 0,
        carry == if p % c == 0 && q % s == 0 {
            0int
        } else if (p % c) * s > (s - q % s) * c {
            2int
        } else {
            1int
        },
    ensures
        s * c > 0,
        (100 * s * c - p * s - q * c) / (s * c) == 100 - (p / c + q / s + carry),
{
    let pi = p / c;
    let pr = p % c;
    let qi = q / s;
    let qr = q % s;
    vstd::arithmetic::div_mod::lemma_fundamental_div_mod(p, c);
    vstd::arithmetic::div_mod::lemma_fundamental_div_mod(q, s);
    vstd::arithmetic::div_mod::lemma_mod_bound(p, c);
    vstd::arithmetic::div_mod::lemma_mod_bound(q, s);
    let d = s * c;
    let n = 100 * s * c - p * s - q * c;
    let r = pr * s + qr * c;
    assert(d > 0) by (nonlinear_arith)
        requires
            s > 0,
            c > 0,
            d == s * c,
    ;
    assert(n == (100 - pi - qi) * d - r) by (nonlinear_arith)
        requires
            p == c * pi + pr,
            q == s * qi + qr,
            d == s * c,
            n == 100 * s * c - p * s - q * c,
            r == pr * s + qr * c,
    ;
    assert(0 <= pr * s < d) by (nonlinear_arith)
        requires
            0 <= pr < c,
            s > 0,
            d == s * c,
    ;
    assert(0 <= qr * c < d) by (nonlinear_arith)
        requires
            0 <= qr < s,
            c > 0,
            d == s * c,
    ;
    assert((s - qr) * c == d - qr * c) by (nonlinear_arith)
        requires
            d == s * c,
    ;
    if pr == 0 && qr == 0 {
        assert(r == 0) by (nonlinear_arith)
            requires
                pr == 0,
                qr == 0,
                r == pr * s + qr * c,
        ;
        vstd::arithmetic::div_mod::lemma_fundamental_div_mod_converse(n, d, 100 - pi - qi, 0);
    } else if pr * s > (s - qr) * c {
        assert(n == (100 - pi - qi - 2) * d + (2 * d - r)) by (nonlinear_arith)
            requires
                n == (100 - pi - qi) * d - r,
        ;
        vstd::arithmetic::div_mod::lemma_fundamental_div_mod_converse(
            n,
            d,
            100 - pi - qi - 2,
            2 * d - r,
        );
    } else {
        assert(r > 0) by (nonlinear_arith)
            requires
                pr > 0 || qr > 0,
                pr >= 0,
                qr >= 0,
                s > 0,
                c > 0,
                r == pr * s + qr * c,
        ;
        assert(n == (100 - pi - qi - 1) * d + (d - r)) by (nonlinear_arith)
            requires
                n == (100 - pi - qi) * d - r,
        ;
        vstd::arithmetic::div_mod::lemma_fundamental_div_mod_converse(
            n,
            d,
            100 - pi - qi - 1,
            d - r,
        );
    }
}

/// Calculate a composite team health score (0-100); higher is healthier.
fn calculate_team_health_score(
    team_size: usize,
    average: Option<Average>,
    overdue_count: usize,
    falling_count: usize,
) -> (score: u8)
    requires
        average matches Some(a) ==> a.count > 0 && a.sum <= 255 * a.count,
    ensures
        score == team_health(team_size as nat, average, overdue_count as nat, falling_count as nat),
        score <= 100,
{
    if team_size == 0 {
        return 0;
    }
    let s: u128 = team_size as u128;
    let (p, c): (u128, u128) = match average {
        None => (10, 1),
        Some(a) => {
            let target: u128 = 4 * (a.count as u128);
            if target > a.sum {
                ((target - a.sum) * 10, a.count as u128)
            } else {
                (0, a.count as u128)
            }
        },
    };
    let q: u128 = (overdue_count as u128) * 40 + (falling_count as u128) * 20;
    let pi: u128 = p / c;
    let pr: u128 = p % c;
    let qi: u128 = q / s;
    let qr: u128 = q % s;
    assert(pr * s <= 0xFFFF_FFFF_FFFF_FFFF * 0xFFFF_FFFF_FFFF_FFFF) by (nonlinear_arith)
        requires
            0 <= pr <= 0xFFFF_FFFF_FFFF_FFFF,
            0 <= s <= 0xFFFF_FFFF_FFFF_FFFF,
    ;
    assert((s - qr) * c <= 0xFFFF_FFFF_FFFF_FFFF * 0xFFFF_FFFF_FFFF_FFFF) by (nonlinear_arith)
        requires
            0 <= s - qr <= 0xFFFF_FFFF_FFFF_FFFF,
            0 <= c <= 0xFFFF_FFFF_FFFF_FFFF,
    ;
    let carry: u128 = if pr == 0 && qr == 0 {
        0
    } else if pr * s > (s - qr) * c {
        2
    } else {
        1
    };
    proof {
        lemma_health_quotient(s as int, c as int, p as int, q as int, carry as int);
        assert(100 * (team_size as nat) * (c as int) == 100 * (s as int) * (c as int));
    }
    let total: u128 = pi + qi + carry;
    if total >= 100 {
        0
    } else {
        (100 - total) as u8
    }
}

/// Compute team metrics for a manager from their 2nd-level report summaries
pub fn compute_team_metrics(team_summaries: &[ReportSummary]) -> (m: TeamMetrics)
    ensures
        m == team_metrics_of(team_summaries@),
        m.team_health_score <= 100,
{
    let t: Tally = tally(team_summaries);
    let team_average_mood: Option<Average> = if t.with_mood == 0 {
        None
    } else {
        Some(Average { sum: t.mood_sum, count: t.with_mood })
    };
    proof {
        lemma_mood_sum_bound(team_summaries@);
    }
    let team_mood_trend: Option<MoodTrend> = aggregate_mood_trends(t.rising, t.falling);
    let team_health_score: u8 = calculate_team_health_score(
        team_summaries.len(),
        team_average_mood,
        t.overdue,
        t.falling,
    );
    TeamMetrics {
        team_size: team_summaries.len(),
        team_average_mood,
        team_mood_trend,
        team_overdue_count: t.overdue,
        team_health_score,
    }
}

/// Rollup of the direct reports' summaries.
pub fn compute_workspace_summary(summaries: &[ReportSummary]) -> (w: WorkspaceSummary)
    ensures
        w == workspace_summary_of(summaries@),
{
    let t: Tally = tally(summaries);
    let average_mood: Option<Average> = if t.with_mood == 0 {
        None
    } else {
        Some(Average { sum: t.mood_sum, count: t.with_mood })
    };
    WorkspaceSummary {
        team_size: summaries.len(),
        active_count: t.active,
        overdue_count: t.overdue,
        average_mood,
        total_report_count: summaries.len(),
    }
}

/// Extended workspace summary including 2nd-level reports
pub fn compute_extended_workspace_summary(
    direct_summaries: &[ReportSummary],
    second_level_count: usize,
) -> (w: WorkspaceSummary)
    requires
        direct_summaries@.len() + second_level_count <= usize::MAX,
    ensures
        w == (WorkspaceSummary {
            total_report_count: (direct_summaries@.len() + second_level_count) as usize,
            ..workspace_summary_of(direct_summaries@)
        }),
{
    let mut summary: WorkspaceSummary = compute_workspace_summary(direct_summaries);
    summary.total_report_count = direct_summaries.len() + second_level_count;
    summary
}

} // verus!
