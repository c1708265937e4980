//! What the model makes of the work it asked for.
//!
//! `App::settle` takes the outcome of an effect and brings the model up to
//! date. A failure is shown in the status line and leaves the data as it
//! was; only data that cannot be loaded is handed on as an error. After
//! every outcome that is taken in, the cursor is brought into the list that
//! it moves in.

use crate::app::state::{
    lemma_entries_stay_in_order, lemma_loaded_is_fresh, lemma_refresh_keeps_fresh,
};
use crate::app::update::clamp_index;
use crate::app::{
    App, Clock, DeleteCause, Edited, Effect, LoadedReport, Outcome, Recruitment, ViewMode,
};
use crate::model::meeting::JournalEntry;
use crate::model::report::ReportType;
use crate::model::time::Date;
use crate::storage::meeting::{
    content_is_empty, insert_entry, is_content_empty, is_time_ordered, lemma_change_keeps_order,
    lemma_insert_keeps_order, time_place,
};
use crate::storage::{parse_frontmatter, split_frontmatter};
use crate::text::{blank, is_blank};
use vstd::prelude::*;
use vstd::string::StringExecFns;

verus! {

/// The status text after an entry's file was deleted for `cause`.
pub open spec fn deleted_text(cause: DeleteCause) -> Seq<char> {
    match cause {
        DeleteCause::Confirmed => "Entry deleted"@,
        DeleteCause::EditorEmptied { is_new } => if is_new {
            "Entry creation canceled"@
        } else {
            "Entry deleted"@
        },
        DeleteCause::EditorFailed { message } => "Editor error: "@ + message@,
    }
}

/// The status text after deleting an entry's file for `cause` failed with
/// `error`.
pub open spec fn delete_failed_text(cause: DeleteCause, error: Seq<char>) -> Seq<char> {
    match cause {
        DeleteCause::Confirmed => "Error deleting entry: "@ + error,
        DeleteCause::EditorEmptied { is_new } => "Error deleting file: "@ + error,
        DeleteCause::EditorFailed { message } => "Editor error: "@ + message@,
    }
}

/// The status text after a report was recruited.
pub open spec fn recruited_text(name: Seq<char>, report_type: ReportType) -> Seq<char> {
    "Recruited "@ + name + " ("@ + (if report_type == ReportType::Manager {
        "manager"@
    } else {
        "IC"@
    }) + ")"@
}

/// The entry after the editor changed its file: the body of the file's
/// text as content, and the header block where one could be read.
pub open spec fn entry_edited(before: JournalEntry, edited: Edited, after: JournalEntry) -> bool {
    &&& after.content@ == split_frontmatter(edited.raw_content@).1
    &&& after == (JournalEntry {
        frontmatter: match edited.frontmatter {
            Some(fm) => fm,
            None => before.frontmatter,
        },
        content: after.content,
        ..before
    })
}

impl App {
    /// `post` is `self` with the data replaced by `loaded`; `rest` is `post`
    /// but for the data and the selected index.
    pub open spec fn reloaded(self, post: App, loaded: Seq<LoadedReport>, today: Date) -> bool {
        &&& post.shows_loaded(loaded, today)
        &&& post.selected_index == if self.selected_index >= loaded.len() && loaded.len() > 0 {
            (loaded.len() - 1) as usize
        } else {
            self.selected_index
        }
        &&& post.workspace == self.workspace
    }

    /// After `MeetingCreated`: the meeting stands among the report's entries
    /// at its place in time, is selected and on screen in the note viewer,
    /// and the editor is to be opened for it.
    pub open spec fn after_meeting_created(
        self,
        post: App,
        report_idx: usize,
        result: Result<JournalEntry, String>,
        clock: Clock,
        effect: Effect,
    ) -> bool {
        if report_idx >= self.reports@.len() {
            post == self && effect == Effect::Nothing
        } else {
            match result {
                Ok(meeting) => {
                    &&& self.with_entries(
                        post,
                        report_idx as int,
                        self.entries_by_report@[report_idx as int]@.insert(
                            time_place(
                                self.entries_by_report@[report_idx as int]@,
                                meeting.timestamp,
                            ) as int,
                            meeting,
                        ),
                    )
                    &&& self.with_fresh_summary(post, report_idx as int, clock.today)
                    &&& post == (App {
                        entries_by_report: post.entries_by_report,
                        summaries: post.summaries,
                        workspace_summary: post.workspace_summary,
                        editor_content: meeting.content,
                        editor_mood: None,
                        selected_entry_index: Some(
                            time_place(
                                self.entries_by_report@[report_idx as int]@,
                                meeting.timestamp,
                            ) as usize,
                        ),
                        view_mode: ViewMode::NoteViewer,
                        ..self
                    })
                    &&& effect == (Effect::SpawnEditor { is_new: true })
                },
                Err(e) => self.with_status(post, "Error: "@ + e@, clock.now_ms) && effect
                    == Effect::Nothing,
            }
        }
    }

    /// After `EntryDeleted`.
    pub open spec fn after_entry_deleted(
        self,
        post: App,
        report_idx: usize,
        entry_idx: usize,
        cause: DeleteCause,
        deleted: Result<(), String>,
        clock: Clock,
    ) -> bool {
        if report_idx >= self.reports@.len() || entry_idx
            >= self.entries_by_report@[report_idx as int]@.len() {
            post == self
        } else {
            match deleted {
                Ok(_) => {
                    &&& self.with_entries(
                        post,
                        report_idx as int,
                        self.entries_by_report@[report_idx as int]@.remove(entry_idx as int),
                    )
                    &&& self.with_fresh_summary(post, report_idx as int, clock.today)
                    &&& post.shows(deleted_text(cause), clock.now_ms)
                    &&& post == (App {
                        entries_by_report: post.entries_by_report,
                        summaries: post.summaries,
                        workspace_summary: post.workspace_summary,
                        selected_entry_index: None,
                        view_mode: ViewMode::ReportDetail,
                        status_message: post.status_message,
                        ..self
                    })
                },
                Err(e) => {
                    &&& post.shows(delete_failed_text(cause, e@), clock.now_ms)
                    &&& post == (App {
                        view_mode: if cause is EditorFailed {
                            ViewMode::ReportDetail
                        } else {
                            self.view_mode
                        },
                        status_message: post.status_message,
                        ..self
                    })
                },
            }
        }
    }

    /// After `EntryCreated`: the entry stands among the report's entries at
    /// its place in time, the form is cleared and closed.
    pub open spec fn after_entry_created(
        self,
        post: App,
        report_idx: usize,
        result: Result<JournalEntry, String>,
        clock: Clock,
    ) -> bool {
        if report_idx >= self.reports@.len() {
            post == self
        } else {
            &&& post.pending_entry_notes@.len() == 0
            &&& match result {
                Ok(entry) => {
                    &&& self.with_entries(
                        post,
                        report_idx as int,
                        self.entries_by_report@[report_idx as int]@.insert(
                            time_place(self.entries_by_report@[report_idx as int]@, entry.timestamp)
                                as int,
                            entry,
                        ),
                    )
                    &&& self.with_fresh_summary(post, report_idx as int, clock.today)
                    &&& post.shows("Observation recorded"@, clock.now_ms)
                    &&& post == (App {
                        entries_by_report: post.entries_by_report,
                        summaries: post.summaries,
                        workspace_summary: post.workspace_summary,
                        pending_entry_mood: None,
                        pending_entry_notes: post.pending_entry_notes,
                        view_mode: ViewMode::ReportDetail,
                        status_message: post.status_message,
                        ..self
                    })
                },
                Err(e) => {
                    &&& post.shows("Error: "@ + e@, clock.now_ms)
                    &&& post == (App {
                        pending_entry_mood: None,
                        pending_entry_notes: post.pending_entry_notes,
                        view_mode: ViewMode::ReportDetail,
                        status_message: post.status_message,
                        ..self
                    })
                },
            }
        }
    }

    /// After `ReportCreated`.
    pub open spec fn after_report_created(
        self,
        post: App,
        name: String,
        report_type: ReportType,
        recruitment: Recruitment,
        clock: Clock,
        r: Result<Effect, String>,
    ) -> bool {
        match recruitment {
            Recruitment::Failed(e) => {
                &&& post.shows("Error: "@ + e@, clock.now_ms)
                &&& post == (App {
                    view_mode: ViewMode::Dashboard,
                    status_message: post.status_message,
                    ..self
                })
                &&& r == Ok::<Effect, String>(Effect::Nothing)
            },
            Recruitment::ReloadFailed(e) => post == self && r == Err::<Effect, String>(e),
            Recruitment::Recruited(loaded) => {
                &&& self.reloaded(post, loaded@, clock.today)
                &&& post.shows(recruited_text(name@, report_type), clock.now_ms)
                &&& post == (App {
                    reports: post.reports,
                    entries_by_report: post.entries_by_report,
                    summaries: post.summaries,
                    workspace_summary: post.workspace_summary,
                    selected_index: post.selected_index,
                    view_mode: ViewMode::Dashboard,
                    status_message: post.status_message,
                    ..self
                })
                &&& r == Ok::<Effect, String>(Effect::Nothing)
            },
        }
    }

    /// After `DataLoaded`.
    pub open spec fn after_data_loaded(
        self,
        post: App,
        loaded: Result<Vec<LoadedReport>, String>,
        clock: Clock,
        r: Result<Effect, String>,
    ) -> bool {
        match loaded {
            Ok(items) => {
                &&& self.reloaded(post, items@, clock.today)
                &&& post == (App {
                    reports: post.reports,
                    entries_by_report: post.entries_by_report,
                    summaries: post.summaries,
                    workspace_summary: post.workspace_summary,
                    selected_index: post.selected_index,
                    ..self
                })
                &&& r == Ok::<Effect, String>(Effect::Nothing)
            },
            Err(e) => post == self && r == Err::<Effect, String>(e),
        }
    }

    /// After `EditorClosed`. Without a selected entry there is nothing to
    /// take in. A note left blank or with nothing but its template is to be
    /// deleted, and so is a new note whose editor failed. A modified note is
    /// taken into the model, and the report's summary is computed anew; an
    /// unmodified one changes nothing.
    pub open spec fn after_editor_closed(
        self,
        post: App,
        is_new: bool,
        edited: Result<Edited, String>,
        clock: Clock,
        effect: Effect,
    ) -> bool {
        match self.selected_pair() {
            None => self.with_status(post, "No entry selected"@, clock.now_ms) && effect
                == Effect::Nothing,
            Some((r, e)) => match edited {
                Ok(ed) => if is_blank(ed.raw_content@) || content_is_empty(ed.raw_content@) {
                    post == self && effect == (Effect::DeleteEntry {
                        report_idx: r as usize,
                        entry_idx: e as usize,
                        cause: DeleteCause::EditorEmptied { is_new },
                    })
                } else if ed.modified {
                    &&& self.with_entries(
                        post,
                        r,
                        self.entries_by_report@[r]@.update(e, post.entries_by_report@[r]@[e]),
                    )
                    &&& entry_edited(
                        self.entries_by_report@[r]@[e],
                        ed,
                        post.entries_by_report@[r]@[e],
                    )
                    &&& self.with_fresh_summary(post, r, clock.today)
                    &&& post.editor_content@ == split_frontmatter(ed.raw_content@).1
                    &&& post.shows("Note updated"@, clock.now_ms)
                    &&& post == (App {
                        entries_by_report: post.entries_by_report,
                        summaries: post.summaries,
                        workspace_summary: post.workspace_summary,
                        editor_content: post.editor_content,
                        editor_mood: match ed.frontmatter {
                            Some(fm) => fm.mood,
                            None => self.editor_mood,
                        },
                        status_message: post.status_message,
                        ..self
                    })
                    &&& effect == Effect::Nothing
                } else {
                    self.with_status(post, "No changes"@, clock.now_ms) && effect
                        == Effect::Nothing
                },
                Err(message) => if is_new {
                    post == self && effect == (Effect::DeleteEntry {
                        report_idx: r as usize,
                        entry_idx: e as usize,
                        cause: DeleteCause::EditorFailed { message },
                    })
                } else {
                    self.with_status(post, "Editor error: "@ + message@, clock.now_ms) && effect
                        == Effect::Nothing
                },
            },
        }
    }

    /// Where `outcome` takes the cursor, before it is brought into the list:
    /// loaded data moves a cursor beyond the reports to the last report, and
    /// nothing else moves it.
    pub open spec fn cursor_settled(self, outcome: Outcome) -> usize {
        match outcome {
            Outcome::DataLoaded { loaded: Ok(items) } => if self.selected_index >= items@.len()
                && items@.len() > 0 {
                (items@.len() - 1) as usize
            } else {
                self.selected_index
            },
            Outcome::ReportCreated {
                name,
                report_type,
                recruitment: Recruitment::Recruited(items),
            } => if self.selected_index >= items@.len() && items@.len() > 0 {
                (items@.len() - 1) as usize
            } else {
                self.selected_index
            },
            _ => self.selected_index,
        }
    }

    /// What `settle` does with `outcome`: the model after it, and the
    /// effect that it asks for or the error that ends the session. The
    /// model is what `settles` makes of it, but for the cursor, which is
    /// then brought into the list that it moves in. Where an error is
    /// returned, the model is left as it was.
    pub open spec fn settled(
        self,
        outcome: Outcome,
        clock: Clock,
        post: App,
        r: Result<Effect, String>,
    ) -> bool {
        if r is Err {
            self.settles(outcome, clock, post, r)
        } else {
            &&& self.settles(
                outcome,
                clock,
                App { selected_index: self.cursor_settled(outcome), ..post },
                r,
            )
            &&& post.selected_index == clamp_index(self.cursor_settled(outcome), post.list_len())
        }
    }

    /// What `outcome` makes of the model, and the effect that it asks for
    /// or the error that ends the session, before the cursor is brought into
    /// the list.
    pub open spec fn settles(
        self,
        outcome: Outcome,
        clock: Clock,
        post: App,
        r: Result<Effect, String>,
    ) -> bool {
        match outcome {
            Outcome::MeetingCreated { report_idx, result } => r is Ok
                && self.after_meeting_created(post, report_idx, result, clock, r->Ok_0),
            Outcome::EntrySaved { saved } => r == Ok::<Effect, String>(Effect::Nothing)
                && self.with_status(
                post,
                match saved {
                    Ok(_) => "Mood updated"@,
                    Err(e) => "Error saving mood: "@ + e@,
                },
                clock.now_ms,
            ),
            Outcome::EntryDeleted { report_idx, entry_idx, cause, deleted } => r == Ok::<
                Effect,
                String,
            >(Effect::Nothing) && self.after_entry_deleted(
                post,
                report_idx,
                entry_idx,
                cause,
                deleted,
                clock,
            ),
            Outcome::EntryCreated { report_idx, result } => r == Ok::<Effect, String>(
                Effect::Nothing,
            ) && self.after_entry_created(post, report_idx, result, clock),
            Outcome::ReportCreated {
                name,
                report_type,
                recruitment,
            } => self.after_report_created(post, name, report_type, recruitment, clock, r),
            Outcome::DataLoaded { loaded } => self.after_data_loaded(post, loaded, clock, r),
            Outcome::EditorClosed { is_new, edited } => r is Ok && self.after_editor_closed(
                post,
                is_new,
                edited,
                clock,
                r->Ok_0,
            ),
        }
    }

    /// Take in the outcome of an effect.
    ///
    /// Returns the effect to carry out next, or the error of data that could
    /// not be loaded. Unless an error is returned, the cursor ends up within
    /// the list that it moves in, if that list holds anything.
    pub fn settle(&mut self, outcome: Outcome, clock: Clock) -> (r: Result<Effect, String>)
        requires
            old(self).wf(),
        ensures
            final(self).wf(),
            old(self).settled(outcome, clock, *final(self), r),
            r is Ok && final(self).list_len() > 0 ==> final(self).selected_index
                < final(self).list_len(),
    {
        let r: Result<Effect, String> = self.take_in(outcome, clock);
        let ghost mid = *self;
        if r.is_ok() {
            self.keep_cursor_in_list();
            proof {
                assert(mid == (App { selected_index: old(self).cursor_settled(outcome), ..*self }));
            }
        }
        r
    }

    fn take_in(&mut self, outcome: Outcome, clock: Clock) -> (r: Result<Effect, String>)
        requires
            old(self).wf(),
        ensures
            final(self).wf(),
            old(self).settles(outcome, clock, *final(self), r),
            r is Ok ==> final(self).selected_index == old(self).cursor_settled(outcome),
    {
        match outcome {
            Outcome::MeetingCreated { report_idx, result } => Ok(
                self.meeting_created(report_idx, result, clock),
            ),
            Outcome::EntrySaved { saved } => {
                match saved {
                    Ok(_) => {
                        self.set_status(String::from_str("Mood updated"), clock.now_ms);
                    },
                    Err(e) => {
                        self.set_status(
                            String::from_str("Error saving mood: ").concat(e.as_str()),
                            clock.now_ms,
                        );
                    },
                }
                Ok(Effect::Nothing)
            },
            Outcome::EntryDeleted { report_idx, entry_idx, cause, deleted } => {
                self.entry_deleted(report_idx, entry_idx, cause, deleted, clock);
                Ok(Effect::Nothing)
            },
            Outcome::EntryCreated { report_idx, result } => {
                self.entry_created(report_idx, result, clock);
                Ok(Effect::Nothing)
            },
            Outcome::ReportCreated { name, report_type, recruitment } => {
                match recruitment {
                    Recruitment::Failed(e) => {
                        self.set_status(
                            String::from_str("Error: ").concat(e.as_str()),
                            clock.now_ms,
                        );
                        self.view_mode = ViewMode::Dashboard;
                        Ok(Effect::Nothing)
                    },
                    Recruitment::ReloadFailed(e) => Err(e),
                    Recruitment::Recruited(loaded) => {
                        self.fill(loaded, clock.today);
                        let label: &str = if report_type.is_manager() {
                            "manager"
                        } else {
                            "IC"
                        };
                        let text: String = String::from_str("Recruited ").concat(
                            name.as_str(),
                        ).concat(" (").concat(label).concat(")");
                        self.set_status(text, clock.now_ms);
                        self.view_mode = ViewMode::Dashboard;
                        Ok(Effect::Nothing)
                    },
                }
            },
            Outcome::DataLoaded { loaded } => {
                match loaded {
                    Ok(items) => {
                        self.fill(items, clock.today);
                        Ok(Effect::Nothing)
                    },
                    Err(e) => Err(e),
                }
            },
            Outcome::EditorClosed { is_new, edited } => Ok(
                self.editor_closed(is_new, edited, clock),
            ),
        }
    }

    fn meeting_created(
        &mut self,
        report_idx: usize,
        result: Result<JournalEntry, String>,
        clock: Clock,
    ) -> (effect: Effect)
        requires
            old(self).wf(),
        ensures
            final(self).wf(),
            old(self).after_meeting_created(*final(self), report_idx, result, clock, effect),
    {
        if report_idx >= self.reports.len() {
            return Effect::Nothing;
        }
        match result {
            Ok(meeting) => {
                self.editor_content = meeting.content.clone();
                self.editor_mood = None;
                let at: usize = insert_entry(&mut self.entries_by_report[report_idx], meeting);
                self.refresh_summary(report_idx, clock.today);
                self.selected_entry_index = Some(at);
                self.view_mode = ViewMode::NoteViewer;
                Effect::SpawnEditor { is_new: true }
            },
            Err(e) => {
                self.set_status(String::from_str("Error: ").concat(e.as_str()), clock.now_ms);
                Effect::Nothing
            },
        }
    }

    fn entry_deleted(
        &mut self,
        report_idx: usize,
        entry_idx: usize,
        cause: DeleteCause,
        deleted: Result<(), String>,
        clock: Clock,
    )
        requires
            old(self).wf(),
        ensures
            final(self).wf(),
            old(self).after_entry_deleted(
                *final(self),
                report_idx,
                entry_idx,
                cause,
                deleted,
                clock,
            ),
    {
        if report_idx >= self.reports.len() || entry_idx >= self.entries_by_report[report_idx].len() {
            return ;
        }
        match deleted {
            Ok(_) => {
                self.remove_entry(report_idx, entry_idx, clock.today);
                self.view_mode = ViewMode::ReportDetail;
                let text: String = match cause {
                    DeleteCause::Confirmed => String::from_str("Entry deleted"),
                    DeleteCause::EditorEmptied { is_new } => if is_new {
                        String::from_str("Entry creation canceled")
                    } else {
                        String::from_str("Entry deleted")
                    },
                    DeleteCause::EditorFailed { message } => String::from_str(
                        "Editor error: ",
                    ).concat(message.as_str()),
                };
                self.set_status(text, clock.now_ms);
            },
            Err(e) => {
                let text: String = match cause {
                    DeleteCause::Confirmed => String::from_str("Error deleting entry: ").concat(
                        e.as_str(),
                    ),
                    DeleteCause::EditorEmptied { is_new } => String::from_str(
                        "Error deleting file: ",
                    ).concat(e.as_str()),
                    DeleteCause::EditorFailed { message } => {
                        self.view_mode = ViewMode::ReportDetail;
                        String::from_str("Editor error: ").concat(message.as_str())
                    },
                };
                self.set_status(text, clock.now_ms);
            },
        }
    }

    fn entry_created(&mut self, report_idx: usize, result: Result<JournalEntry, String>, clock: Clock)
        requires
            old(self).wf(),
        ensures
            final(self).wf(),
            old(self).after_entry_created(*final(self), report_idx, result, clock),
    {
        if report_idx >= self.reports.len() {
            return ;
        }
        match result {
            Ok(entry) => {
                let _ = insert_entry(&mut self.entries_by_report[report_idx], entry);
                self.refresh_summary(report_idx, clock.today);
                self.set_status(String::from_str("Observation recorded"), clock.now_ms);
            },
            Err(e) => {
                self.set_status(String::from_str("Error: ").concat(e.as_str()), clock.now_ms);
            },
        }
        self.pending_entry_mood = None;
        self.pending_entry_notes = String::new();
        self.view_mode = ViewMode::ReportDetail;
    }

    fn editor_closed(&mut self, is_new: bool, edited: Result<Edited, String>, clock: Clock) -> (effect:
        Effect)
        requires
            old(self).wf(),
        ensures
            final(self).wf(),
            old(self).after_editor_closed(*final(self), is_new, edited, clock, effect),
    {
        let (report_idx, entry_idx) = match self.selected_place() {
            Some(place) => place,
            None => {
                self.set_status(String::from_str("No entry selected"), clock.now_ms);
                return Effect::Nothing;
            },
        };
        match edited {
            Ok(ed) => {
                if blank(ed.raw_content.as_str()) || is_content_empty(ed.raw_content.as_str()) {
                    Effect::DeleteEntry {
                        report_idx,
                        entry_idx,
                        cause: DeleteCause::EditorEmptied { is_new },
                    }
                } else if ed.modified {
                    let (_, body) = parse_frontmatter(ed.raw_content.as_str());
                    match ed.frontmatter {
                        Some(fm) => {
                            self.entries_by_report[report_idx][entry_idx].frontmatter = fm;
                            self.editor_mood = fm.mood;
                        },
                        None => {},
                    }
                    self.editor_content = String::from_str(body);
                    self.entries_by_report[report_idx][entry_idx].content = String::from_str(body);
                    self.refresh_summary(report_idx, clock.today);
                    self.set_status(String::from_str("Note updated"), clock.now_ms);
                    proof {
                        let r = report_idx as int;
                        let e = entry_idx as int;
                        let before = old(self).entries_by_report@[r]@;
                        let after = self.entries_by_report@[r]@;
                        assert(after =~= before.update(e, after[e]));
                        assert(entry_edited(before[e], ed, after[e]));
                        assert(old(self).with_entries(*self, r, before.update(e, after[e])));
                    }
                    Effect::Nothing
                } else {
                    self.set_status(String::from_str("No changes"), clock.now_ms);
                    Effect::Nothing
                }
            },
            Err(message) => {
                if is_new {
                    Effect::DeleteEntry {
                        report_idx,
                        entry_idx,
                        cause: DeleteCause::EditorFailed { message },
                    }
                } else {
                    self.set_status(
                        String::from_str("Editor error: ").concat(message.as_str()),
                        clock.now_ms,
                    );
                    Effect::Nothing
                }
            },
        }
    }
}

/// The entries with `entry` put at its place in time.
pub open spec fn placed(entries: Seq<JournalEntry>, entry: JournalEntry) -> Seq<JournalEntry> {
    entries.insert(time_place(entries, entry.timestamp) as int, entry)
}

/// The work that the outcome reports has failed.
pub open spec fn is_failure(outcome: Outcome) -> bool {
    match outcome {
        Outcome::MeetingCreated { report_idx, result } => result is Err,
        Outcome::EntrySaved { saved } => saved is Err,
        Outcome::EntryDeleted { report_idx, entry_idx, cause, deleted } => deleted is Err,
        Outcome::EntryCreated { report_idx, result } => result is Err,
        Outcome::ReportCreated { name, report_type, recruitment } => !(recruitment is Recruited),
        Outcome::DataLoaded { loaded } => loaded is Err,
        Outcome::EditorClosed { is_new, edited } => edited is Err,
    }
}

/// A failure never changes the data: the workspace, the reports, their
/// entries and the summaries are after it what they were before. Data that
/// could not be loaded is the only failure that is handed on as an error,
/// and it leaves the whole model as it was.
pub proof fn lemma_failure_leaves_data(
    pre: App,
    outcome: Outcome,
    clock: Clock,
    post: App,
    r: Result<Effect, String>,
)
    requires
        pre.settled(outcome, clock, post, r),
        is_failure(outcome),
    ensures
        post.workspace == pre.workspace,
        post.reports == pre.reports,
        post.entries_by_report == pre.entries_by_report,
        post.summaries == pre.summaries,
        post.workspace_summary == pre.workspace_summary,
        r is Err ==> post == pre,
        r is Err <==> (outcome matches Outcome::DataLoaded { loaded } && loaded is Err) || (
        outcome matches Outcome::ReportCreated { name, report_type, recruitment } && recruitment
            is ReloadFailed),
{
    let mid = App { selected_index: pre.cursor_settled(outcome), ..post };
    if r is Ok {
        assert(pre.settles(outcome, clock, mid, r));
    }
}

/// No outcome leaves a summary stale: where the summaries are fresh before
/// an outcome is taken in, they are fresh after it; and after data has been
/// loaded they are fresh whatever they were before.
pub proof fn lemma_settle_keeps_fresh(
    pre: App,
    outcome: Outcome,
    clock: Clock,
    post: App,
    r: Result<Effect, String>,
)
    requires
        pre.wf(),
        pre.settled(outcome, clock, post, r),
    ensures
        pre.is_fresh(clock.today) ==> post.is_fresh(clock.today),
        outcome matches Outcome::DataLoaded { loaded } && loaded is Ok ==> post.is_fresh(
            clock.today,
        ),
        outcome matches Outcome::ReportCreated { name, report_type, recruitment } && recruitment
            is Recruited ==> post.is_fresh(clock.today),
{
    let today = clock.today;
    let mid = if r is Err {
        post
    } else {
        App { selected_index: pre.cursor_settled(outcome), ..post }
    };
    assert(pre.settles(outcome, clock, mid, r));
    match outcome {
        Outcome::MeetingCreated { report_idx, result } => {
            if pre.is_fresh(today) && report_idx < pre.reports@.len() && result is Ok {
                lemma_refresh_keeps_fresh(
                    pre,
                    mid,
                    report_idx as int,
                    placed(pre.entries_by_report@[report_idx as int]@, result->Ok_0),
                    today,
                );
            }
        },
        Outcome::EntryDeleted { report_idx, entry_idx, cause, deleted } => {
            if pre.is_fresh(today) && report_idx < pre.reports@.len() && entry_idx
                < pre.entries_by_report@[report_idx as int]@.len() && deleted is Ok {
                lemma_refresh_keeps_fresh(
                    pre,
                    mid,
                    report_idx as int,
                    pre.entries_by_report@[report_idx as int]@.remove(entry_idx as int),
                    today,
                );
            }
        },
        Outcome::EntryCreated { report_idx, result } => {
            if pre.is_fresh(today) && report_idx < pre.reports@.len() && result is Ok {
                lemma_refresh_keeps_fresh(
                    pre,
                    mid,
                    report_idx as int,
                    placed(pre.entries_by_report@[report_idx as int]@, result->Ok_0),
                    today,
                );
            }
        },
        Outcome::ReportCreated { name, report_type, recruitment } => {
            match recruitment {
                Recruitment::Recruited(loaded) => {
                    lemma_loaded_is_fresh(mid, loaded@, today);
                },
                _ => {},
            }
        },
        Outcome::DataLoaded { loaded } => {
            match loaded {
                Ok(items) => {
                    lemma_loaded_is_fresh(mid, items@, today);
                },
                Err(_) => {},
            }
        },
        Outcome::EditorClosed { is_new, edited } => {
            match (pre.selected_pair(), edited) {
                (Some((r, e)), Ok(ed)) => {
                    if pre.is_fresh(today) && !(is_blank(ed.raw_content@) || content_is_empty(
                        ed.raw_content@,
                    )) && ed.modified {
                        lemma_refresh_keeps_fresh(
                            pre,
                            mid,
                            r,
                            pre.entries_by_report@[r]@.update(e, mid.entries_by_report@[r]@[e]),
                            today,
                        );
                    }
                },
                _ => {},
            }
        },
        Outcome::EntrySaved { saved } => {},
    }
}

/// No outcome brings entries out of order: where the entries of every
/// report stand in order of time before an outcome is taken in, they do so
/// after it; and after data has been loaded they do so whatever they were
/// before.
pub proof fn lemma_settle_keeps_order(
    pre: App,
    outcome: Outcome,
    clock: Clock,
    post: App,
    r: Result<Effect, String>,
)
    requires
        pre.wf(),
        pre.settled(outcome, clock, post, r),
    ensures
        pre.entries_in_order() ==> post.entries_in_order(),
        outcome matches Outcome::DataLoaded { loaded } && loaded is Ok ==> post.entries_in_order(),
        outcome matches Outcome::ReportCreated { name, report_type, recruitment } && recruitment
            is Recruited ==> post.entries_in_order(),
{
    let mid = if r is Err {
        post
    } else {
        App { selected_index: pre.cursor_settled(outcome), ..post }
    };
    assert(pre.settles(outcome, clock, mid, r));
    match outcome {
        Outcome::MeetingCreated { report_idx, result } => {
            if pre.entries_in_order() && report_idx < pre.reports@.len() && result is Ok {
                let entries = pre.entries_by_report@[report_idx as int]@;
                lemma_insert_keeps_order(entries, result->Ok_0);
                lemma_entries_stay_in_order(pre, mid, report_idx as int, placed(entries, result->Ok_0));
            }
        },
        Outcome::EntryDeleted { report_idx, entry_idx, cause, deleted } => {
            if pre.entries_in_order() && report_idx < pre.reports@.len() && entry_idx
                < pre.entries_by_report@[report_idx as int]@.len() && deleted is Ok {
                let entries = pre.entries_by_report@[report_idx as int]@;
                lemma_change_keeps_order(entries, entry_idx as int, entries[entry_idx as int]);
                lemma_entries_stay_in_order(
                    pre,
                    mid,
                    report_idx as int,
                    entries.remove(entry_idx as int),
                );
            }
        },
        Outcome::EntryCreated { report_idx, result } => {
            if pre.entries_in_order() && report_idx < pre.reports@.len() && result is Ok {
                let entries = pre.entries_by_report@[report_idx as int]@;
                lemma_insert_keeps_order(entries, result->Ok_0);
                lemma_entries_stay_in_order(pre, mid, report_idx as int, placed(entries, result->Ok_0));
            }
        },
        Outcome::ReportCreated { name, report_type, recruitment } => {
            match recruitment {
                Recruitment::Recruited(loaded) => {
                    lemma_loaded_is_fresh(mid, loaded@, clock.today);
                },
                _ => {},
            }
        },
        Outcome::DataLoaded { loaded } => {
            match loaded {
                Ok(items) => {
                    lemma_loaded_is_fresh(mid, items@, clock.today);
                },
                Err(_) => {},
            }
        },
        Outcome::EditorClosed { is_new, edited } => {
            match (pre.selected_pair(), edited) {
                (Some((r, e)), Ok(ed)) => {
                    if pre.entries_in_order() && !(is_blank(ed.raw_content@) || content_is_empty(
                        ed.raw_content@,
                    )) && ed.modified {
                        let entries = pre.entries_by_report@[r]@;
                        lemma_change_keeps_order(entries, e, mid.entries_by_report@[r]@[e]);
                        lemma_entries_stay_in_order(
                            pre,
                            mid,
                            r,
                            entries.update(e, mid.entries_by_report@[r]@[e]),
                        );
                    }
                },
                _ => {},
            }
        },
        Outcome::EntrySaved { saved } => {},
    }
}

} // verus!
