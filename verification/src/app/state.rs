//! The application model: what it holds, how it is filled from loaded data,
//! and how the selection maps to entries.

use crate::ranking::{placed_scores, rank_position, ranked_order};
use crate::app::update::clamp_index;
use crate::app::{App, LoadedReport, ViewMode, STATUS_MESSAGE_DURATION_MS};
use crate::components::modal::NewReportState;
use crate::model::computed::{
    compute_report_summary, compute_workspace_summary, days_since_meeting, has_meeting,
    latest_meeting_day, lemma_latest_meeting_day, mood_trend_of, newest_mood, recent_moods,
    summarizes, urgency, workspace_summary_of, ReportSummary, WorkspaceSummary,
};
use crate::model::meeting::{Context, JournalEntry};
use crate::model::report::{cadence_days, Report};
use crate::model::time::Date;
use crate::model::workspace::Workspace;
use crate::storage::meeting::{is_time_ordered, sort_entries, sorted_entries};
use vstd::prelude::*;

verus! {

// ---------------------------------------------------------------------------
// Meetings among the entries, and the display order
// ---------------------------------------------------------------------------

/// Number of entries that count as meetings.
pub open spec fn meeting_count(entries: Seq<JournalEntry>) -> nat
    decreases entries.len(),
{
    if entries.len() == 0 {
        0
    } else {
        meeting_count(entries.drop_last()) + if entries.last().is_meeting_spec() {
            1nat
        } else {
            0nat
        }
    }
}

/// The entries that count as meetings, in their stored order.
pub open spec fn meetings_of(entries: Seq<JournalEntry>) -> Seq<JournalEntry>
    decreases entries.len(),
{
    if entries.len() == 0 {
        Seq::empty()
    } else if entries.last().is_meeting_spec() {
        meetings_of(entries.drop_last()).push(entries.last())
    } else {
        meetings_of(entries.drop_last())
    }
}

/// Number of meetings stored behind the entry at `i`: its place in the list
/// of meetings shown newest first.
pub open spec fn meetings_after(entries: Seq<JournalEntry>, i: int) -> nat {
    meeting_count(entries.skip(i + 1))
}

/// The entry shown at place `display` of the meeting list: the meeting that
/// has `display` meetings stored behind it. Entries that are no meetings
/// are not counted.
pub open spec fn display_target(entries: Seq<JournalEntry>, display: nat) -> Option<int>
    decreases entries.len(),
{
    if entries.len() == 0 {
        None
    } else if entries.last().is_meeting_spec() {
        if display == 0 {
            Some(entries.len() - 1)
        } else {
            display_target(entries.drop_last(), (display - 1) as nat)
        }
    } else {
        display_target(entries.drop_last(), display)
    }
}

/// The meetings among the entries are as many as are counted, no more than
/// there are entries, and at least one exactly when some entry is a meeting.
pub proof fn lemma_meeting_count_bound(entries: Seq<JournalEntry>)
    ensures
        meeting_count(entries) <= entries.len(),
        meetings_of(entries).len() == meeting_count(entries),
        meeting_count(entries) > 0 <==> has_meeting(entries),
    decreases entries.len(),
{
    if entries.len() > 0 {
        let rest = entries.drop_last();
        lemma_meeting_count_bound(rest);
        if has_meeting(rest) {
            let i = choose|i: int| 0 <= i < rest.len() && (#[trigger] rest[i]).is_meeting_spec();
            assert(entries[i].is_meeting_spec());
        }
        if entries.last().is_meeting_spec() {
            assert(entries[entries.len() - 1].is_meeting_spec());
        }
        if has_meeting(entries) && !entries.last().is_meeting_spec() {
            let i = choose|i: int|
                0 <= i < entries.len() && (#[trigger] entries[i]).is_meeting_spec();
            assert(rest[i].is_meeting_spec());
        }
    }
}

/// A place in the meeting list leads to an entry exactly when it is below
/// the number of meetings; the entry is then a meeting, and the number of
/// meetings stored behind it is the place.
pub proof fn lemma_display_target(entries: Seq<JournalEntry>, display: nat)
    ensures
        display_target(entries, display) is None <==> display >= meeting_count(entries),
        display_target(entries, display) matches Some(i) ==> {
            &&& 0 <= i < entries.len()
            &&& entries[i].is_meeting_spec()
            &&& meetings_after(entries, i) == display
        },
    decreases entries.len(),
{
    if entries.len() > 0 {
        let rest = entries.drop_last();
        let n = entries.len() as int;
        if entries.last().is_meeting_spec() && display == 0 {
            assert(entries.skip(n) =~= Seq::<JournalEntry>::empty());
        } else {
            let inner = if entries.last().is_meeting_spec() {
                (display - 1) as nat
            } else {
                display
            };
            lemma_display_target(rest, inner);
            match display_target(rest, inner) {
                Some(i) => {
                    assert(entries.skip(i + 1).drop_last() =~= rest.skip(i + 1));
                    assert(entries.skip(i + 1).last() == entries.last());
                },
                None => {},
            }
        }
    }
}

/// Every meeting is shown at the place given by the number of meetings
/// stored behind it.
pub proof fn lemma_display_reaches(entries: Seq<JournalEntry>, i: int)
    requires
        0 <= i < entries.len(),
        entries[i].is_meeting_spec(),
    ensures
        display_target(entries, meetings_after(entries, i)) == Some(i),
        meetings_after(entries, i) < meeting_count(entries),
    decreases entries.len(),
{
    let n = entries.len() as int;
    let rest = entries.drop_last();
    if i == n - 1 {
        assert(entries.skip(n) =~= Seq::<JournalEntry>::empty());
    } else {
        lemma_display_reaches(rest, i);
        assert(entries.skip(i + 1).drop_last() =~= rest.skip(i + 1));
        assert(entries.skip(i + 1).last() == entries.last());
    }
    lemma_display_target(entries, meetings_after(entries, i));
}

/// The place shows an entry, and that entry is a meeting.
pub open spec fn shows_meeting(entries: Seq<JournalEntry>, target: Option<int>) -> bool {
    match target {
        Some(i) => 0 <= i < entries.len() && entries[i].is_meeting_spec(),
        None => false,
    }
}

/// The meeting list and the meetings among the entries correspond one to
/// one: each place below the number of meetings shows a meeting, different
/// places show different meetings, every meeting is shown at some place,
/// and a place at or beyond the number of meetings shows nothing.
pub proof fn lemma_display_is_bijection(entries: Seq<JournalEntry>)
    ensures
        forall|d: nat|
            d < meeting_count(entries) ==> shows_meeting(entries, #[trigger] display_target(entries, d)),
        forall|d: nat| d >= meeting_count(entries) ==> (#[trigger] display_target(entries, d)) is None,
        forall|d1: nat, d2: nat|
            d1 < meeting_count(entries) && d2 < meeting_count(entries) && d1 != d2
                ==> #[trigger] display_target(entries, d1) != #[trigger] display_target(entries, d2),
        forall|i: int|
            0 <= i < entries.len() && (#[trigger] entries[i]).is_meeting_spec() ==> exists|d: nat|
                d < meeting_count(entries) && #[trigger] display_target(entries, d) == Some(i),
{
    assert forall|d: nat| d < meeting_count(entries) implies shows_meeting(
        entries,
        #[trigger] display_target(entries, d),
    ) by {
        lemma_display_target(entries, d);
    }
    assert forall|d: nat| d >= meeting_count(entries) implies (#[trigger] display_target(
        entries,
        d,
    )) is None by {
        lemma_display_target(entries, d);
    }
    assert forall|d1: nat, d2: nat|
        d1 < meeting_count(entries) && d2 < meeting_count(entries) && d1
            != d2 implies #[trigger] display_target(entries, d1) != #[trigger] display_target(
        entries,
        d2,
    ) by {
        lemma_display_target(entries, d1);
        lemma_display_target(entries, d2);
    }
    assert forall|i: int|
        0 <= i < entries.len() && (#[trigger] entries[i]).is_meeting_spec() implies exists|d: nat|
        d < meeting_count(entries) && #[trigger] display_target(entries, d) == Some(i) by {
        lemma_display_reaches(entries, i);
        let d = meetings_after(entries, i);
        assert(d < meeting_count(entries) && display_target(entries, d) == Some(i));
    }
}

// ---------------------------------------------------------------------------
// Loaded data in dashboard order
// ---------------------------------------------------------------------------

/// The urgency score of a loaded report as seen on `today`, with its
/// entries taken in order of time.
pub open spec fn urgency_of(item: LoadedReport, threshold: u32, today: Date) -> int {
    let moods = recent_moods(sorted_entries(item.entries@));
    urgency(
        days_since_meeting(sorted_entries(item.entries@), today),
        cadence_days(item.report.profile.meeting_frequency@),
        threshold as int,
        newest_mood(moods),
        mood_trend_of(moods),
    )
}

/// The urgency scores of the loaded reports, in load order.
pub open spec fn load_scores(loaded: Seq<LoadedReport>, threshold: u32, today: Date) -> Seq<int> {
    Seq::new(loaded.len(), |i: int| urgency_of(loaded[i], threshold, today))
}

/// The three lists hold the first `count` loaded reports in dashboard
/// order, each with its entries in order of time and with its summary.
pub open spec fn ranked(
    reports: Seq<Report>,
    entries: Seq<Vec<JournalEntry>>,
    summaries: Seq<ReportSummary>,
    loaded: Seq<LoadedReport>,
    count: int,
    threshold: u32,
    today: Date,
) -> bool {
    let order = ranked_order(load_scores(loaded, threshold, today).take(count));
    &&& reports.len() == count
    &&& entries.len() == count
    &&& summaries.len() == count
    &&& order.len() == count
    &&& forall|k: int|
        0 <= k < count ==> {
            &&& 0 <= #[trigger] order[k] < count
            &&& reports[k] == loaded[order[k]].report
            &&& entries[k]@ == sorted_entries(loaded[order[k]].entries@)
            &&& is_time_ordered(entries[k]@)
            &&& summarizes(summaries[k], loaded[order[k]].report, entries[k]@, threshold, today)
        }
}

fn rank_loaded(loaded: Vec<LoadedReport>, threshold: u32, today: Date) -> (r: (
    Vec<Report>,
    Vec<Vec<JournalEntry>>,
    Vec<ReportSummary>,
))
    ensures
        ranked(r.0@, r.1@, r.2@, loaded@, loaded@.len() as int, threshold, today),
{
    let ghost all = loaded@;
    let ghost scores = load_scores(all, threshold, today);
    let mut rest: Vec<LoadedReport> = loaded;
    let mut reports: Vec<Report> = Vec::new();
    let mut entries: Vec<Vec<JournalEntry>> = Vec::new();
    let mut summaries: Vec<ReportSummary> = Vec::new();
    let ghost mut done: int = 0;
    proof {
        assert(all.skip(0) =~= all);
        assert(scores.take(0) =~= Seq::<int>::empty());
    }
    while rest.len() > 0
        invariant
            0 <= done <= all.len(),
            rest@ == all.skip(done),
            scores == load_scores(all, threshold, today),
            ranked(reports@, entries@, summaries@, all, done, threshold, today),
        decreases rest.len(),
    {
        let ghost before = ranked_order(scores.take(done));
        let ghost old_reports = reports@;
        let ghost old_entries = entries@;
        let ghost old_summaries = summaries@;
        let item: LoadedReport = rest.remove(0);
        proof {
            assert(item == all[done]);
            assert(rest@ =~= all.skip(done + 1));
        }
        let sorted: Vec<JournalEntry> = sort_entries(item.entries);
        let summary: ReportSummary = compute_report_summary(
            &item.report,
            sorted.as_slice(),
            threshold,
            today,
        );
        let at: usize = rank_position(&summaries, summary.urgency_score);
        proof {
            let longer = scores.take(done + 1);
            assert(longer.drop_last() =~= scores.take(done));
            assert(longer.last() == scores[done]);
            assert(summary.urgency_score == scores[done]);
            let shown = Seq::new(old_summaries.len(), |j: int| old_summaries[j].urgency_score as int);
            assert(shown =~= placed_scores(before, longer)) by {
                assert forall|j: int| 0 <= j < before.len() implies shown[j] == longer[before[j]] by {
                    assert(0 <= before[j] < done);
                    assert(old_summaries[j].urgency_score == scores[before[j]]);
                }
            }
            assert(ranked_order(longer) == before.insert(at as int, done));
        }
        reports.insert(at, item.report);
        entries.insert(at, sorted);
        summaries.insert(at, summary);
        proof {
            let after = ranked_order(scores.take(done + 1));
            assert forall|k: int| 0 <= k < done + 1 implies {
                &&& 0 <= #[trigger] after[k] < done + 1
                &&& reports@[k] == all[after[k]].report
                &&& entries@[k]@ == sorted_entries(all[after[k]].entries@)
                &&& is_time_ordered(entries@[k]@)
                &&& summarizes(summaries@[k], all[after[k]].report, entries@[k]@, threshold, today)
            } by {
                if k < at {
                    assert(after[k] == before[k]);
                } else if k > at {
                    assert(after[k] == before[k - 1]);
                    assert(reports@[k] == old_reports[k - 1]);
                    assert(entries@[k] == old_entries[k - 1]);
                } else {
                    assert(after[k] == done);
                }
            }
            done = done + 1;
        }
    }
    proof {
        assert(all.skip(done).len() == 0);
        assert(scores.take(done) =~= scores);
    }
    (reports, entries, summaries)
}

impl App {
    /// The three lists of reports, entries and summaries are index-aligned.
    pub open spec fn wf(&self) -> bool {
        &&& self.reports@.len() == self.entries_by_report@.len()
        &&& self.reports@.len() == self.summaries@.len()
    }

    /// Days past due before a report counts as overdue.
    pub open spec fn threshold(&self) -> u32 {
        self.workspace.config.settings.overdue_threshold_days
    }

    /// The entries of the selected report, if a report is selected.
    pub open spec fn selected_entries_spec(&self) -> Option<Seq<JournalEntry>> {
        match self.selected_report_index {
            Some(i) => if i < self.entries_by_report@.len() {
                Some(self.entries_by_report@[i as int]@)
            } else {
                None
            },
            None => None,
        }
    }

    /// The selected report and entry, where both are selected and exist.
    pub open spec fn selected_pair(&self) -> Option<(int, int)> {
        match (self.selected_report_index, self.selected_entry_index) {
            (Some(r), Some(e)) => if r < self.entries_by_report@.len() && e
                < self.entries_by_report@[r as int]@.len() {
                Some((r as int, e as int))
            } else {
                None
            },
            _ => None,
        }
    }

    /// The entry index behind place `display` of the selected report's
    /// meeting list.
    pub open spec fn display_target_spec(&self, display: usize) -> Option<usize> {
        match self.selected_entries_spec() {
            Some(entries) => match display_target(entries, display as nat) {
                Some(i) => Some(i as usize),
                None => None,
            },
            None => None,
        }
    }

    /// Length of the list that the selection moves in: the reports on the
    /// dashboard, the selected report's meetings in the detail view, and
    /// nothing elsewhere.
    pub open spec fn list_len(&self) -> nat {
        match self.view_mode {
            ViewMode::Dashboard => self.reports@.len(),
            ViewMode::ReportDetail => match self.selected_entries_spec() {
                Some(entries) => meeting_count(entries),
                None => 0,
            },
            _ => 0,
        }
    }

    /// The status line shows `text`, set at `now`.
    pub open spec fn shows(&self, text: Seq<char>, now: u64) -> bool {
        self.status_message matches Some(m) && m.0@ == text && m.1 == now
    }

    /// The status text visible at `now`: the message, until its display
    /// time has passed.
    pub open spec fn visible_status(&self, now: u64) -> Option<Seq<char>> {
        match self.status_message {
            Some(m) => if status_expired(m.1, now) {
                None
            } else {
                Some(m.0@)
            },
            None => None,
        }
    }

    /// The model shows `loaded` in dashboard order, ranked on `today`.
    pub open spec fn shows_loaded(&self, loaded: Seq<LoadedReport>, today: Date) -> bool {
        &&& ranked(
            self.reports@,
            self.entries_by_report@,
            self.summaries@,
            loaded,
            loaded.len() as int,
            self.threshold(),
            today,
        )
        &&& self.workspace_summary == workspace_summary_of(self.summaries@)
    }

    /// `post` is `self` after the entries of report `r` became `entries`:
    /// everything else is as before, but for the summaries.
    pub open spec fn with_entries(self, post: App, r: int, entries: Seq<JournalEntry>) -> bool {
        &&& post.entries_by_report@.len() == self.entries_by_report@.len()
        &&& post.entries_by_report@[r]@ == entries
        &&& forall|j: int|
            0 <= j < self.entries_by_report@.len() && j != r ==> post.entries_by_report@[j]
                == self.entries_by_report@[j]
        &&& post.reports == self.reports
        &&& post.workspace == self.workspace
    }

    /// `post` has the summary of report `r` computed anew on `today`, the
    /// other summaries as in `self`, and the workspace summary that goes
    /// with them.
    pub open spec fn with_fresh_summary(self, post: App, r: int, today: Date) -> bool {
        &&& post.summaries@.len() == self.summaries@.len()
        &&& summarizes(
            post.summaries@[r],
            post.reports@[r],
            post.entries_by_report@[r]@,
            post.threshold(),
            today,
        )
        &&& forall|j: int|
            0 <= j < self.summaries@.len() && j != r ==> post.summaries@[j] == self.summaries@[j]
        &&& post.workspace_summary == workspace_summary_of(post.summaries@)
    }

    /// The entries of every report stand in ascending order of time.
    pub open spec fn entries_in_order(&self) -> bool {
        forall|i: int|
            0 <= i < self.entries_by_report@.len() ==> is_time_ordered(
                (#[trigger] self.entries_by_report@[i])@,
            )
    }

    /// No summary is stale: each is the summary of its report and entries as
    /// seen on `today`, and the workspace summary is the rollup of them.
    pub open spec fn is_fresh(&self, today: Date) -> bool {
        &&& self.wf()
        &&& forall|i: int|
            0 <= i < self.reports@.len() ==> summarizes(
                #[trigger] self.summaries@[i],
                self.reports@[i],
                self.entries_by_report@[i]@,
                self.threshold(),
                today,
            )
        &&& self.workspace_summary == workspace_summary_of(self.summaries@)
    }

    /// Create the application model from a workspace and its loaded data.
    pub fn new(workspace: Workspace, loaded: Vec<LoadedReport>, today: Date) -> (app: App)
        ensures
            app.wf(),
            app.workspace == workspace,
            app.shows_loaded(loaded@, today),
            app.view_mode == ViewMode::Dashboard,
            app.selected_index == 0,
            app.selected_report_index is None,
            app.selected_entry_index is None,
            app.editor_content@.len() == 0,
            app.editor_mood is None,
            app.new_report_state.is_initial(),
            app.pending_entry_mood is None,
            app.pending_entry_context == Context::Standup,
            app.pending_entry_notes@.len() == 0,
            !app.should_quit,
            app.status_message is None,
            !app.delete_from_list,
    {
        let mut app = App {
            workspace,
            reports: Vec::new(),
            entries_by_report: Vec::new(),
            summaries: Vec::new(),
            workspace_summary: WorkspaceSummary {
                team_size: 0,
                active_count: 0,
                overdue_count: 0,
                average_mood: None,
                total_report_count: 0,
            },
            view_mode: ViewMode::Dashboard,
            selected_index: 0,
            selected_report_index: None,
            selected_entry_index: None,
            editor_content: String::new(),
            editor_mood: None,
            new_report_state: NewReportState::default(),
            pending_entry_mood: None,
            pending_entry_context: Context::Standup,
            pending_entry_notes: String::new(),
            should_quit: false,
            status_message: None,
            delete_from_list: false,
        };
        app.load_data(loaded, today);
        app
    }

    /// Replace all data by what was loaded: the reports sorted by urgency,
    /// highest first, reports of equal urgency in load order, and the entries
    /// of each report in order of time. A cursor beyond the reports goes to
    /// the last report, and is then brought into the list that it moves in.
    pub fn load_data(&mut self, loaded: Vec<LoadedReport>, today: Date)
        ensures
            final(self).wf(),
            final(self).shows_loaded(loaded@, today),
            final(self).selected_index == clamp_index(
                if old(self).selected_index >= loaded@.len() && loaded@.len() > 0 {
                    (loaded@.len() - 1) as usize
                } else {
                    old(self).selected_index
                },
                final(self).list_len(),
            ),
            final(self).list_len() > 0 ==> final(self).selected_index < final(self).list_len(),
            *final(self) == (App {
                reports: final(self).reports,
                entries_by_report: final(self).entries_by_report,
                summaries: final(self).summaries,
                workspace_summary: final(self).workspace_summary,
                selected_index: final(self).selected_index,
                ..*old(self)
            }),
    {
        self.fill(loaded, today);
        self.keep_cursor_in_list();
    }

    /// Replace all data by what was loaded; a cursor beyond the reports goes
    /// to the last report.
    pub(crate) fn fill(&mut self, loaded: Vec<LoadedReport>, today: Date)
        ensures
            final(self).wf(),
            final(self).shows_loaded(loaded@, today),
            final(self).selected_index == if old(self).selected_index >= loaded@.len()
                && loaded@.len() > 0 {
                (loaded@.len() - 1) as usize
            } else {
                old(self).selected_index
            },
            *final(self) == (App {
                reports: final(self).reports,
                entries_by_report: final(self).entries_by_report,
                summaries: final(self).summaries,
                workspace_summary: final(self).workspace_summary,
                selected_index: final(self).selected_index,
                ..*old(self)
            }),
    {
        let threshold: u32 = self.workspace.config.settings.overdue_threshold_days;
        let (reports, entries, summaries) = rank_loaded(loaded, threshold, today);
        self.reports = reports;
        self.entries_by_report = entries;
        self.summaries = summaries;
        self.workspace_summary = compute_workspace_summary(self.summaries.as_slice());
        if self.selected_index >= self.reports.len() && !self.reports.is_empty() {
            self.selected_index = self.reports.len() - 1;
        }
    }

    /// Set a status message, stamped with the time at which it was set
    pub fn set_status(&mut self, message: String, now_ms: u64)
        ensures
            final(self).status_message == Some((message, now_ms)),
            *final(self) == (App { status_message: final(self).status_message, ..*old(self) }),
    {
        self.status_message = Some((message, now_ms));
    }

    /// Clear status message if it has expired
    pub fn clear_expired_status(&mut self, now_ms: u64)
        ensures
            final(self).status_message == match old(self).status_message {
                Some(m) => if status_expired(m.1, now_ms) {
                    None
                } else {
                    old(self).status_message
                },
                None => None,
            },
            *final(self) == (App { status_message: final(self).status_message, ..*old(self) }),
    {
        let expired: bool = match &self.status_message {
            Some(m) => is_status_expired(m.1, now_ms),
            None => false,
        };
        if expired {
            self.status_message = None;
        }
    }

    /// Get current status message text (if not expired)
    pub fn status_text(&self, now_ms: u64) -> (r: Option<&str>)
        ensures
            match r {
                Some(t) => self.visible_status(now_ms) == Some(t@),
                None => self.visible_status(now_ms) is None,
            },
    {
        match &self.status_message {
            Some(m) => if is_status_expired(m.1, now_ms) {
                None
            } else {
                Some(m.0.as_str())
            },
            None => None,
        }
    }

    /// Remove an entry from the model, once its file is gone: the report has
    /// one entry less, no entry is selected any more, the report's summary
    /// and the workspace summary are computed anew, and the cursor is brought
    /// into the list that it moves in.
    pub fn delete_entry(&mut self, report_idx: usize, entry_idx: usize, today: Date)
        requires
            old(self).wf(),
            report_idx < old(self).reports@.len(),
            entry_idx < old(self).entries_by_report@[report_idx as int]@.len(),
        ensures
            final(self).wf(),
            old(self).with_entries(
                *final(self),
                report_idx as int,
                old(self).entries_by_report@[report_idx as int]@.remove(entry_idx as int),
            ),
            final(self).entries_by_report@[report_idx as int]@.len() == old(
                self,
            ).entries_by_report@[report_idx as int]@.len() - 1,
            old(self).with_fresh_summary(*final(self), report_idx as int, today),
            final(self).selected_entry_index is None,
            final(self).list_len() > 0 ==> final(self).selected_index < final(self).list_len(),
            *final(self) == (App {
                entries_by_report: final(self).entries_by_report,
                summaries: final(self).summaries,
                workspace_summary: final(self).workspace_summary,
                selected_entry_index: None,
                selected_index: clamp_index(old(self).selected_index, final(self).list_len()),
                ..*old(self)
            }),
    {
        self.remove_entry(report_idx, entry_idx, today);
        self.keep_cursor_in_list();
    }

    /// Remove an entry from the model and compute the summaries anew.
    pub(crate) fn remove_entry(&mut self, report_idx: usize, entry_idx: usize, today: Date)
        requires
            old(self).wf(),
            report_idx < old(self).reports@.len(),
            entry_idx < old(self).entries_by_report@[report_idx as int]@.len(),
        ensures
            final(self).wf(),
            old(self).with_entries(
                *final(self),
                report_idx as int,
                old(self).entries_by_report@[report_idx as int]@.remove(entry_idx as int),
            ),
            final(self).entries_by_report@[report_idx as int]@.len() == old(
                self,
            ).entries_by_report@[report_idx as int]@.len() - 1,
            old(self).with_fresh_summary(*final(self), report_idx as int, today),
            final(self).selected_entry_index is None,
            *final(self) == (App {
                entries_by_report: final(self).entries_by_report,
                summaries: final(self).summaries,
                workspace_summary: final(self).workspace_summary,
                selected_entry_index: None,
                ..*old(self)
            }),
    {
        let _ = self.entries_by_report[report_idx].remove(entry_idx);
        self.selected_entry_index = None;
        self.refresh_summary(report_idx, today);
    }

    /// Compute the summary of one report and the workspace summary anew.
    pub fn refresh_summary(&mut self, report_idx: usize, today: Date)
        requires
            old(self).wf(),
            report_idx < old(self).reports@.len(),
        ensures
            final(self).wf(),
            old(self).with_fresh_summary(*final(self), report_idx as int, today),
            *final(self) == (App {
                summaries: final(self).summaries,
                workspace_summary: final(self).workspace_summary,
                ..*old(self)
            }),
    {
        let summary: ReportSummary = compute_report_summary(
            &self.reports[report_idx],
            self.entries_by_report[report_idx].as_slice(),
            self.workspace.config.settings.overdue_threshold_days,
            today,
        );
        self.summaries[report_idx] = summary;
        self.workspace_summary = compute_workspace_summary(self.summaries.as_slice());
    }

    /// Get entries for currently selected report
    pub fn selected_entries(&self) -> (r: Option<&Vec<JournalEntry>>)
        ensures
            match r {
                Some(entries) => {
                    &&& self.selected_entries_spec() == Some(entries@)
                    &&& self.selected_report_index is Some
                    &&& self.selected_report_index->0 < self.entries_by_report@.len()
                    &&& *entries == self.entries_by_report@[self.selected_report_index->0 as int]
                },
                None => self.selected_entries_spec() is None,
            },
    {
        match self.selected_report_index {
            Some(i) => if i < self.entries_by_report.len() {
                Some(&self.entries_by_report[i])
            } else {
                None
            },
            None => None,
        }
    }

    /// Get only meetings for currently selected report, in stored order
    pub fn selected_meetings(&self) -> (r: Vec<&JournalEntry>)
        ensures
            match self.selected_entries_spec() {
                Some(entries) => r@.len() == meetings_of(entries).len() && forall|k: int|
                    0 <= k < r@.len() ==> *(#[trigger] r@[k]) == meetings_of(entries)[k],
                None => r@.len() == 0,
            },
    {
        let mut meetings: Vec<&JournalEntry> = Vec::new();
        match self.selected_entries() {
            Some(entries) => {
                let mut i: usize = 0;
                while i < entries.len()
                    invariant
                        i <= entries.len(),
                        meetings@.len() == meetings_of(entries@.take(i as int)).len(),
                        forall|k: int|
                            0 <= k < meetings@.len() ==> *(#[trigger] meetings@[k]) == meetings_of(
                                entries@.take(i as int),
                            )[k],
                    decreases entries.len() - i,
                {
                    proof {
                        assert(entries@.take(i + 1).drop_last() =~= entries@.take(i as int));
                        assert(entries@.take(i + 1).last() == entries@[i as int]);
                    }
                    if entries[i].is_meeting() {
                        meetings.push(&entries[i]);
                    }
                    i += 1;
                }
                proof {
                    assert(entries@.take(i as int) =~= entries@);
                }
            },
            None => {},
        }
        meetings
    }

    /// Get the number of meetings for currently selected report
    pub fn selected_meeting_count(&self) -> (n: usize)
        ensures
            n == match self.selected_entries_spec() {
                Some(entries) => meeting_count(entries),
                None => 0,
            },
    {
        match self.selected_entries() {
            Some(entries) => {
                let mut count: usize = 0;
                let mut i: usize = 0;
                while i < entries.len()
                    invariant
                        i <= entries.len(),
                        count <= i,
                        count == meeting_count(entries@.take(i as int)),
                    decreases entries.len() - i,
                {
                    proof {
                        assert(entries@.take(i + 1).drop_last() =~= entries@.take(i as int));
                        assert(entries@.take(i + 1).last() == entries@[i as int]);
                    }
                    if entries[i].is_meeting() {
                        count += 1;
                    }
                    i += 1;
                }
                proof {
                    assert(entries@.take(i as int) =~= entries@);
                }
                count
            },
            None => 0,
        }
    }

    /// Convert a display index (in the meetings list) to the actual entry
    /// index. The list shows meetings newest first; entries that are no
    /// meetings have no place in it.
    pub fn meeting_display_to_entry_index(&self, display_index: usize) -> (r: Option<usize>)
        ensures
            r == self.display_target_spec(display_index),
            r matches Some(i) ==> {
                &&& self.selected_report_index is Some
                &&& self.selected_report_index->0 < self.entries_by_report@.len()
                &&& i < self.entries_by_report@[self.selected_report_index->0 as int]@.len()
                &&& self.entries_by_report@[self.selected_report_index->0 as int]@[i as int].is_meeting_spec()
            },
    {
        match self.selected_entries() {
            Some(entries) => {
                let mut i: usize = entries.len();
                let mut remaining: usize = display_index;
                proof {
                    assert(entries@.take(i as int) =~= entries@);
                }
                while i > 0
                    invariant
                        i <= entries.len(),
                        self.selected_entries_spec() == Some(entries@),
                        self.selected_report_index is Some,
                        self.selected_report_index->0 < self.entries_by_report@.len(),
                        *entries == self.entries_by_report@[self.selected_report_index->0 as int],
                        display_target(entries@, display_index as nat) == display_target(
                            entries@.take(i as int),
                            remaining as nat,
                        ),
                    decreases i,
                {
                    proof {
                        assert(entries@.take(i as int).drop_last() =~= entries@.take(i - 1));
                        assert(entries@.take(i as int).last() == entries@[i - 1]);
                    }
                    i -= 1;
                    if entries[i].is_meeting() {
                        if remaining == 0 {
                            proof {
                                lemma_display_target(entries@, display_index as nat);
                            }
                            return Some(i);
                        }
                        remaining -= 1;
                    }
                }
                None
            },
            None => None,
        }
    }

    /// Get the length of the currently navigable list based on view mode
    pub fn current_list_len(&self) -> (n: usize)
        ensures
            n == self.list_len(),
    {
        match self.view_mode {
            ViewMode::Dashboard => self.reports.len(),
            ViewMode::ReportDetail => self.selected_meeting_count(),
            _ => 0,
        }
    }
}

/// A status message set at `set_at` is no longer shown at `now`: the
/// display time has passed since it was set.
pub open spec fn status_expired(set_at: u64, now: u64) -> bool {
    now >= set_at && now - set_at >= STATUS_MESSAGE_DURATION_MS
}

fn is_status_expired(set_at: u64, now: u64) -> (r: bool)
    ensures
        r == status_expired(set_at, now),
{
    now >= set_at && now - set_at >= STATUS_MESSAGE_DURATION_MS
}

/// After an entry of a report has been deleted, the report's summary counts
/// the days since the latest of the meetings that are left, and none if no
/// meeting is left.
pub proof fn lemma_summary_after_delete(pre: App, post: App, r: int, e: int, today: Date)
    requires
        0 <= r < pre.entries_by_report@.len(),
        0 <= e < pre.entries_by_report@[r]@.len(),
        pre.with_entries(post, r, pre.entries_by_report@[r]@.remove(e)),
        pre.with_fresh_summary(post, r, today),
    ensures
        post.entries_by_report@[r]@.len() == pre.entries_by_report@[r]@.len() - 1,
        match post.summaries@[r].days_since_meeting {
            Some(days) => latest_meeting_day(post.entries_by_report@[r]@) == Some(today.days - days),
            None => !has_meeting(post.entries_by_report@[r]@),
        },
{
    lemma_latest_meeting_day(post.entries_by_report@[r]@);
}

/// Freshly loaded data comes with fresh summaries and with entries in
/// order of time.
pub proof fn lemma_loaded_is_fresh(app: App, loaded: Seq<LoadedReport>, today: Date)
    requires
        app.shows_loaded(loaded, today),
    ensures
        app.is_fresh(today),
        app.entries_in_order(),
{
    let order = ranked_order(load_scores(loaded, app.threshold(), today).take(loaded.len() as int));
    assert forall|i: int| 0 <= i < app.entries_by_report@.len() implies is_time_ordered(
        (#[trigger] app.entries_by_report@[i])@,
    ) by {
        assert(0 <= order[i] < loaded.len());
    }
    assert forall|i: int| 0 <= i < app.reports@.len() implies summarizes(
        #[trigger] app.summaries@[i],
        app.reports@[i],
        app.entries_by_report@[i]@,
        app.threshold(),
        today,
    ) by {
        assert(0 <= order[i] < loaded.len());
    }
}

/// Fresh summaries stay fresh where the entries of one report change and
/// its summary is computed anew.
pub proof fn lemma_refresh_keeps_fresh(
    pre: App,
    post: App,
    r: int,
    entries: Seq<JournalEntry>,
    today: Date,
)
    requires
        pre.is_fresh(today),
        0 <= r < pre.reports@.len(),
        pre.with_entries(post, r, entries),
        pre.with_fresh_summary(post, r, today),
    ensures
        post.is_fresh(today),
{
    assert forall|i: int| 0 <= i < post.reports@.len() implies summarizes(
        #[trigger] post.summaries@[i],
        post.reports@[i],
        post.entries_by_report@[i]@,
        post.threshold(),
        today,
    ) by {
        if i != r {
            assert(post.summaries@[i] == pre.summaries@[i]);
            assert(post.entries_by_report@[i] == pre.entries_by_report@[i]);
        }
    }
}

/// Entries in order stay in order where the entries of one report become
/// entries that are in order.
pub proof fn lemma_entries_stay_in_order(pre: App, post: App, r: int, entries: Seq<JournalEntry>)
    requires
        pre.entries_in_order(),
        0 <= r < pre.entries_by_report@.len(),
        pre.with_entries(post, r, entries),
        is_time_ordered(entries),
    ensures
        post.entries_in_order(),
{
    assert forall|i: int| 0 <= i < post.entries_by_report@.len() implies is_time_ordered(
        (#[trigger] post.entries_by_report@[i])@,
    ) by {
        if i != r {
            assert(post.entries_by_report@[i] == pre.entries_by_report@[i]);
        }
    }
}

} // verus!
