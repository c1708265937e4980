//! Message handling: the update function.
//!
//! `App::update` takes one message, changes the model and returns the effect
//! that the caller is to carry out. Every message is accepted in every view
//! mode; where it has no meaning the model stays as it is. After every
//! message the cursor is brought into the list that it moves in, so that it
//! never points beyond the last item.

use crate::app::state::{lemma_entries_stay_in_order, lemma_refresh_keeps_fresh};
use crate::storage::meeting::lemma_change_keeps_order;
use crate::app::{App, Clock, DeleteCause, Effect, Msg, ViewMode};
use crate::components::modal::NewReportState;
use crate::model::meeting::{Context, JournalEntry, JournalEntryFrontmatter};
use crate::model::report::{ManagerInfo, ReportProfile, ReportType};
use crate::model::time::Date;
use crate::text::without_last;
use vstd::prelude::*;
use vstd::string::StringExecFns;

verus! {

/// The index after `selected` in a list of `len` items, wrapping round.
pub open spec fn next_index(selected: usize, len: nat) -> int {
    (selected + 1) % (len as int)
}

/// The index before `selected` in a list of `len` items, wrapping round.
pub open spec fn prev_index(selected: usize, len: nat) -> int {
    (selected - 1) % (len as int)
}

/// The cursor brought into a list of `len` items: an index at or beyond the
/// end becomes the last index. In an empty list the cursor stays.
pub open spec fn clamp_index(cursor: usize, len: nat) -> usize {
    if len > 0 && cursor >= len {
        (len - 1) as usize
    } else {
        cursor
    }
}

/// The entry with its stored mood set to `mood`.
pub open spec fn with_mood(entry: JournalEntry, mood: u8) -> JournalEntry {
    JournalEntry {
        frontmatter: JournalEntryFrontmatter { mood: Some(mood), ..entry.frontmatter },
        ..entry
    }
}

/// `profile` is the profile of the report that the form describes, starting
/// on `today`: active, with the form's name, title, level, frequency and
/// type, manager information for a manager, and nothing else filled in.
pub open spec fn recruits(form: NewReportState, today: Date, profile: ReportProfile) -> bool {
    &&& profile.name@ == form.name@
    &&& profile.title is Some
    &&& profile.title->0@ == form.title@
    &&& profile.start_date == Some(today)
    &&& profile.level is Some
    &&& profile.level->0@ == form.level_text()
    &&& profile.meeting_frequency@ == form.frequency_text()
    &&& profile.active
    &&& profile.report_type == form.report_type
    &&& (form.report_type == ReportType::Manager ==> profile.manager_info is Some
        && profile.manager_info->0.team_name is None)
    &&& (form.report_type != ReportType::Manager ==> profile.manager_info is None)
    &&& profile.birthday is None
    &&& profile.partner is None
    &&& profile.children@.len() == 0
    &&& profile.skills is None
    &&& profile.skills_updated is None
    &&& profile.color is None
}

impl App {
    /// `post` is `self` with only the status line changed, to `text` set at
    /// `now`.
    pub open spec fn with_status(self, post: App, text: Seq<char>, now: u64) -> bool {
        &&& post.shows(text, now)
        &&& post == (App { status_message: post.status_message, ..self })
    }

    /// `post` is `self` with the observation form cleared and the detail
    /// view on screen.
    pub open spec fn with_entry_form_closed(self, post: App) -> bool {
        &&& post.pending_entry_notes@.len() == 0
        &&& post == (App {
            view_mode: ViewMode::ReportDetail,
            pending_entry_mood: None,
            pending_entry_notes: post.pending_entry_notes,
            ..self
        })
    }

    /// `post` is `self` after leaving the delete confirmation: back in the
    /// list with no entry selected if the deletion was asked for there,
    /// else back in the note viewer.
    pub open spec fn with_delete_dismissed(self, post: App) -> bool {
        if self.delete_from_list {
            post == (App { selected_entry_index: None, view_mode: ViewMode::ReportDetail, ..self })
        } else {
            post == (App { view_mode: ViewMode::NoteViewer, ..self })
        }
    }

    /// The model after `Back`.
    pub open spec fn after_back(self, post: App) -> bool {
        match self.view_mode {
            ViewMode::ReportDetail => post == (App {
                selected_index: match self.selected_report_index {
                    Some(i) => i,
                    None => self.selected_index,
                },
                view_mode: ViewMode::Dashboard,
                selected_report_index: None,
                ..self
            }),
            ViewMode::NoteViewer => post == (App {
                view_mode: ViewMode::ReportDetail,
                selected_entry_index: None,
                ..self
            }),
            ViewMode::Help => post == (App { view_mode: ViewMode::Dashboard, ..self }),
            ViewMode::NewReportModal => post == (App { view_mode: ViewMode::Dashboard, ..self }),
            ViewMode::EntryInputModal => self.with_entry_form_closed(post),
            ViewMode::DeleteConfirmModal => self.with_delete_dismissed(post),
            ViewMode::Dashboard => post == self,
        }
    }

    /// The model after `CancelModal`.
    pub open spec fn after_cancel(self, post: App) -> bool {
        match self.view_mode {
            ViewMode::NewReportModal => post == (App { view_mode: ViewMode::Dashboard, ..self }),
            ViewMode::EntryInputModal => self.with_entry_form_closed(post),
            ViewMode::DeleteConfirmModal => self.with_delete_dismissed(post),
            _ => post == self,
        }
    }

    /// The model after `ShowDeleteConfirm`: from the note viewer the
    /// confirmation opens for the entry on screen; from the list it opens
    /// for the meeting under the cursor, if there is one.
    pub open spec fn after_show_delete_confirm(self, post: App) -> bool {
        match self.view_mode {
            ViewMode::NoteViewer => post == (App {
                delete_from_list: false,
                view_mode: ViewMode::DeleteConfirmModal,
                ..self
            }),
            ViewMode::ReportDetail => match self.display_target_spec(self.selected_index) {
                Some(i) => post == (App {
                    selected_entry_index: Some(i),
                    delete_from_list: true,
                    view_mode: ViewMode::DeleteConfirmModal,
                    ..self
                }),
                None => post == self,
            },
            _ => post == self,
        }
    }

    /// The model with the meeting at place `display` of the list opened:
    /// selected, with its text and mood in the viewer's buffers.
    pub open spec fn with_meeting_opened(self, post: App, display: usize, mode: ViewMode) -> bool {
        match self.display_target_spec(display) {
            Some(i) => {
                let entry = self.entries_by_report@[self.selected_report_index->0 as int]@[i as int];
                post == (App {
                    selected_entry_index: Some(i),
                    editor_content: entry.content,
                    editor_mood: entry.mood_spec(),
                    view_mode: mode,
                    ..self
                })
            },
            None => post == self,
        }
    }

    /// The model and effect after `UpdateMood(mood)`: the viewer shows the
    /// mood, and where an entry is selected it takes the mood, the report's
    /// summary is computed anew, and the entry is to be saved.
    pub open spec fn after_update_mood(
        self,
        post: App,
        mood: u8,
        clock: Clock,
        effect: Effect,
    ) -> bool {
        match self.selected_pair() {
            Some((r, e)) => {
                &&& self.with_entries(
                    post,
                    r,
                    self.entries_by_report@[r]@.update(
                        e,
                        with_mood(self.entries_by_report@[r]@[e], mood),
                    ),
                )
                &&& self.with_fresh_summary(post, r, clock.today)
                &&& post == (App {
                    entries_by_report: post.entries_by_report,
                    summaries: post.summaries,
                    workspace_summary: post.workspace_summary,
                    editor_mood: Some(mood),
                    ..self
                })
                &&& effect == (Effect::SaveEntry { report_idx: r as usize, entry_idx: e as usize })
            },
            None => post == (App { editor_mood: Some(mood), ..self }) && effect == Effect::Nothing,
        }
    }

    /// The model and effect after `CreateReport`: with a valid form the
    /// report is to be created; else the status line says what is missing.
    pub open spec fn after_create_report(self, post: App, clock: Clock, effect: Effect) -> bool {
        if self.new_report_state.is_valid_spec() {
            &&& post == self
            &&& match effect {
                Effect::CreateReport { name, profile } => name@ == self.new_report_state.name@
                    && recruits(self.new_report_state, clock.today, profile),
                _ => false,
            }
        } else {
            &&& self.with_status(post, "Name and Title are required"@, clock.now_ms)
            &&& effect == Effect::Nothing
        }
    }

    /// The model and effect after `Enter`: in the new report form a valid
    /// form is submitted and an invalid one is reported; elsewhere nothing
    /// happens.
    pub open spec fn after_enter(self, post: App, clock: Clock, effect: Effect) -> bool {
        if self.view_mode == ViewMode::NewReportModal {
            if self.new_report_state.is_valid_spec() {
                self.after_create_report(post, clock, effect)
            } else {
                self.with_status(post, "Name is required"@, clock.now_ms) && effect
                    == Effect::Nothing
            }
        } else {
            post == self && effect == Effect::Nothing
        }
    }

    /// The model after `Input(c)`.
    pub open spec fn after_input(self, post: App, c: char) -> bool {
        match self.view_mode {
            ViewMode::NewReportModal => self.new_report_state.typed(c, post.new_report_state)
                && post == (App { new_report_state: post.new_report_state, ..self }),
            ViewMode::EntryInputModal => post.pending_entry_notes@
                == self.pending_entry_notes@.push(c) && post == (App {
                pending_entry_notes: post.pending_entry_notes,
                ..self
            }),
            _ => post == self,
        }
    }

    /// The model after `Backspace`.
    pub open spec fn after_backspace(self, post: App) -> bool {
        match self.view_mode {
            ViewMode::NewReportModal => self.new_report_state.erased(post.new_report_state)
                && post == (App { new_report_state: post.new_report_state, ..self }),
            ViewMode::EntryInputModal => post.pending_entry_notes@ == without_last(
                self.pending_entry_notes@,
            ) && post == (App { pending_entry_notes: post.pending_entry_notes, ..self }),
            _ => post == self,
        }
    }

    /// The model with its form changed to `form`, if the new report form is
    /// on screen.
    pub open spec fn with_form(self, post: App, form: NewReportState) -> bool {
        if self.view_mode == ViewMode::NewReportModal {
            post == (App { new_report_state: form, ..self })
        } else {
            post == self
        }
    }

    /// The model with its cursor brought into the list that it moves in.
    pub open spec fn cursor_in_list(self) -> App {
        App { selected_index: clamp_index(self.selected_index, self.list_len()), ..self }
    }

    /// Where `msg` takes the cursor, before it is brought into the list.
    pub open spec fn cursor_after(self, msg: Msg) -> usize {
        match msg {
            Msg::SelectNext => if self.list_len() > 0 {
                next_index(self.selected_index, self.list_len()) as usize
            } else {
                self.selected_index
            },
            Msg::SelectPrev => if self.list_len() > 0 {
                prev_index(self.selected_index, self.list_len()) as usize
            } else {
                self.selected_index
            },
            Msg::SelectFirst => if self.list_len() > 0 {
                0
            } else {
                self.selected_index
            },
            Msg::SelectLast => if self.list_len() > 0 {
                (self.list_len() - 1) as usize
            } else {
                self.selected_index
            },
            Msg::ViewReport => if self.reports@.len() > 0 {
                0
            } else {
                self.selected_index
            },
            Msg::Back => match (self.view_mode, self.selected_report_index) {
                (ViewMode::ReportDetail, Some(i)) => i,
                _ => self.selected_index,
            },
            _ => self.selected_index,
        }
    }

    /// What `update` does with `msg`: the model after it, and the effect
    /// that it asks for. The model is what `moves` makes of it, but for the
    /// cursor, which is then brought into the list that it moves in.
    pub open spec fn step(self, msg: Msg, clock: Clock, post: App, effect: Effect) -> bool {
        &&& self.moves(
            msg,
            clock,
            App { selected_index: self.cursor_after(msg), ..post },
            effect,
        )
        &&& post.selected_index == clamp_index(self.cursor_after(msg), post.list_len())
    }

    /// What `msg` makes of the model, and the effect that it asks for,
    /// before the cursor is brought into the list.
    pub open spec fn moves(self, msg: Msg, clock: Clock, post: App, effect: Effect) -> bool {
        match msg {
            Msg::Quit => post == (App { should_quit: true, ..self }) && effect == Effect::Nothing,
            Msg::Back => self.after_back(post) && effect == Effect::Nothing,
            Msg::ShowHelp => post == (App { view_mode: ViewMode::Help, ..self }) && effect
                == Effect::Nothing,
            Msg::HideHelp => post == (App { view_mode: ViewMode::Dashboard, ..self }) && effect
                == Effect::Nothing,
            Msg::SelectNext => post == (App {
                selected_index: if self.list_len() > 0 {
                    next_index(self.selected_index, self.list_len()) as usize
                } else {
                    self.selected_index
                },
                ..self
            }) && effect == Effect::Nothing,
            Msg::SelectPrev => post == (App {
                selected_index: if self.list_len() > 0 {
                    prev_index(self.selected_index, self.list_len()) as usize
                } else {
                    self.selected_index
                },
                ..self
            }) && effect == Effect::Nothing,
            Msg::SelectFirst => post == (App {
                selected_index: if self.list_len() > 0 {
                    0
                } else {
                    self.selected_index
                },
                ..self
            }) && effect == Effect::Nothing,
            Msg::SelectLast => post == (App {
                selected_index: if self.list_len() > 0 {
                    (self.list_len() - 1) as usize
                } else {
                    self.selected_index
                },
                ..self
            }) && effect == Effect::Nothing,
            Msg::ViewReport => (if self.reports@.len() > 0 {
                post == (App {
                    selected_report_index: Some(self.selected_index),
                    selected_index: 0,
                    view_mode: ViewMode::ReportDetail,
                    ..self
                })
            } else {
                post == self
            }) && effect == Effect::Nothing,
            Msg::ViewMeeting(display) => self.with_meeting_opened(
                post,
                display,
                ViewMode::NoteViewer,
            ) && effect == Effect::Nothing,
            Msg::NewMeeting => post == self && effect == (match self.selected_report_index {
                Some(r) => if r < self.reports@.len() {
                    Effect::CreateMeeting { report_idx: r }
                } else {
                    Effect::Nothing
                },
                None => Effect::Nothing,
            }),
            Msg::EditMeeting => post == self && effect == (Effect::SpawnEditor { is_new: false }),
            Msg::EditMeetingFromList(display) => self.with_meeting_opened(
                post,
                display,
                self.view_mode,
            ) && effect == (if self.display_target_spec(display) is Some {
                Effect::SpawnEditor { is_new: false }
            } else {
                Effect::Nothing
            }),
            Msg::UpdateMood(mood) => self.after_update_mood(post, mood, clock, effect),
            Msg::ShowDeleteConfirm => self.after_show_delete_confirm(post) && effect
                == Effect::Nothing,
            Msg::ConfirmDelete => post == self && effect == (match self.selected_pair() {
                Some((r, e)) => Effect::DeleteEntry {
                    report_idx: r as usize,
                    entry_idx: e as usize,
                    cause: DeleteCause::Confirmed,
                },
                None => Effect::Nothing,
            }),
            Msg::ShowNewReport => post.new_report_state.is_initial() && post == (App {
                new_report_state: post.new_report_state,
                view_mode: ViewMode::NewReportModal,
                ..self
            }) && effect == Effect::Nothing,
            Msg::CreateReport => self.after_create_report(post, clock, effect),
            Msg::CancelModal => self.after_cancel(post) && effect == Effect::Nothing,
            Msg::ModalLeft => self.with_form(post, self.new_report_state.after_left()) && effect
                == Effect::Nothing,
            Msg::ModalRight => self.with_form(post, self.new_report_state.after_right())
                && effect == Effect::Nothing,
            Msg::ModalNextField => self.with_form(
                post,
                NewReportState {
                    current_field: self.new_report_state.current_field.next_spec(),
                    ..self.new_report_state
                },
            ) && effect == Effect::Nothing,
            Msg::ModalPrevField => self.with_form(
                post,
                NewReportState {
                    current_field: self.new_report_state.current_field.prev_spec(),
                    ..self.new_report_state
                },
            ) && effect == Effect::Nothing,
            Msg::ShowEntryInput => (if self.selected_report_index is Some {
                post.pending_entry_notes@.len() == 0 && post == (App {
                    pending_entry_mood: None,
                    pending_entry_context: Context::Standup,
                    pending_entry_notes: post.pending_entry_notes,
                    view_mode: ViewMode::EntryInputModal,
                    ..self
                })
            } else {
                post == self
            }) && effect == Effect::Nothing,
            Msg::SetEntryMood(mood) => (if self.view_mode == ViewMode::EntryInputModal {
                post == (App { pending_entry_mood: Some(mood), ..self })
            } else {
                post == self
            }) && effect == Effect::Nothing,
            Msg::CycleEntryContext => (if self.view_mode == ViewMode::EntryInputModal {
                post == (App {
                    pending_entry_context: self.pending_entry_context.next_spec(),
                    ..self
                })
            } else {
                post == self
            }) && effect == Effect::Nothing,
            Msg::SaveEntry => post == self && effect == (match self.selected_report_index {
                Some(r) => if r < self.reports@.len() {
                    Effect::CreateEntry {
                        report_idx: r,
                        mood: self.pending_entry_mood,
                        context: self.pending_entry_context,
                        notes: self.pending_entry_notes,
                    }
                } else {
                    Effect::Nothing
                },
                None => Effect::Nothing,
            }),
            Msg::RefreshData => post == self && effect == Effect::LoadData,
            Msg::Input(c) => self.after_input(post, c) && effect == Effect::Nothing,
            Msg::Backspace => self.after_backspace(post) && effect == Effect::Nothing,
            Msg::Enter => self.after_enter(post, clock, effect),
        }
    }

    /// Process a message and update state.
    ///
    /// Returns an Effect that the caller should execute. Whatever the
    /// message, the cursor ends up within the list that it moves in, if that
    /// list holds anything.
    pub fn update(&mut self, msg: Msg, clock: Clock) -> (effect: Effect)
        requires
            old(self).wf(),
        ensures
            final(self).wf(),
            old(self).step(msg, clock, *final(self), effect),
            final(self).list_len() > 0 ==> final(self).selected_index < final(self).list_len(),
    {
        let effect: Effect = self.advance(msg, clock);
        let ghost mid = *self;
        self.keep_cursor_in_list();
        proof {
            assert(mid == (App { selected_index: old(self).cursor_after(msg), ..*self }));
        }
        effect
    }

    /// Bring the cursor into the list that it moves in: a cursor at or
    /// beyond the end of a list that holds something goes to its last item.
    pub fn keep_cursor_in_list(&mut self)
        ensures
            *final(self) == old(self).cursor_in_list(),
            final(self).list_len() == old(self).list_len(),
            final(self).list_len() > 0 ==> final(self).selected_index < final(self).list_len(),
    {
        let len: usize = self.current_list_len();
        if len > 0 && self.selected_index >= len {
            self.selected_index = len - 1;
        }
    }

    fn advance(&mut self, msg: Msg, clock: Clock) -> (effect: Effect)
        requires
            old(self).wf(),
        ensures
            final(self).wf(),
            old(self).moves(msg, clock, *final(self), effect),
            final(self).selected_index == old(self).cursor_after(msg),
    {
        match msg {
            Msg::Quit => {
                self.should_quit = true;
                Effect::Nothing
            },
            Msg::Back => {
                self.handle_back();
                Effect::Nothing
            },
            Msg::ShowHelp => {
                self.view_mode = ViewMode::Help;
                Effect::Nothing
            },
            Msg::HideHelp => {
                self.view_mode = ViewMode::Dashboard;
                Effect::Nothing
            },
            Msg::SelectNext => {
                let max_len: usize = self.current_list_len();
                if max_len > 0 {
                    let at: usize = self.selected_index % max_len;
                    proof {
                        lemma_next_index(self.selected_index as int, max_len as int);
                    }
                    self.selected_index = if at + 1 == max_len {
                        0
                    } else {
                        at + 1
                    };
                }
                Effect::Nothing
            },
            Msg::SelectPrev => {
                let max_len: usize = self.current_list_len();
                if max_len > 0 {
                    proof {
                        lemma_prev_index(self.selected_index as int, max_len as int);
                    }
                    self.selected_index = if self.selected_index == 0 {
                        max_len - 1
                    } else {
                        (self.selected_index - 1) % max_len
                    };
                }
                Effect::Nothing
            },
            Msg::SelectFirst => {
                let max_len: usize = self.current_list_len();
                if max_len > 0 {
                    self.selected_index = 0;
                }
                Effect::Nothing
            },
            Msg::SelectLast => {
                let max_len: usize = self.current_list_len();
                if max_len > 0 {
                    self.selected_index = max_len - 1;
                }
                Effect::Nothing
            },
            Msg::ViewReport => {
                if !self.reports.is_empty() {
                    self.selected_report_index = Some(self.selected_index);
                    self.selected_index = 0;
                    self.view_mode = ViewMode::ReportDetail;
                }
                Effect::Nothing
            },
            Msg::ViewMeeting(display_index) => {
                let _ = self.open_meeting(display_index, ViewMode::NoteViewer);
                Effect::Nothing
            },
            Msg::NewMeeting => {
                match self.selected_report_index {
                    Some(report_idx) => if report_idx < self.reports.len() {
                        Effect::CreateMeeting { report_idx }
                    } else {
                        Effect::Nothing
                    },
                    None => Effect::Nothing,
                }
            },
            Msg::EditMeeting => Effect::SpawnEditor { is_new: false },
            Msg::EditMeetingFromList(display_index) => {
                let mode: ViewMode = self.view_mode;
                if self.open_meeting(display_index, mode) {
                    Effect::SpawnEditor { is_new: false }
                } else {
                    Effect::Nothing
                }
            },
            Msg::UpdateMood(mood) => {
                self.editor_mood = Some(mood);
                match self.selected_place() {
                    Some((report_idx, entry_idx)) => {
                        self.entries_by_report[report_idx][entry_idx].frontmatter.mood = Some(mood);
                        self.refresh_summary(report_idx, clock.today);
                        Effect::SaveEntry { report_idx, entry_idx }
                    },
                    None => Effect::Nothing,
                }
            },
            Msg::ShowDeleteConfirm => {
                self.handle_show_delete_confirm();
                Effect::Nothing
            },
            Msg::ConfirmDelete => {
                match self.selected_place() {
                    Some((report_idx, entry_idx)) => Effect::DeleteEntry {
                        report_idx,
                        entry_idx,
                        cause: DeleteCause::Confirmed,
                    },
                    None => Effect::Nothing,
                }
            },
            Msg::ShowNewReport => {
                self.new_report_state = NewReportState::default();
                self.view_mode = ViewMode::NewReportModal;
                Effect::Nothing
            },
            Msg::CreateReport => self.handle_create_report(clock),
            Msg::CancelModal => {
                self.handle_cancel_modal();
                Effect::Nothing
            },
            Msg::ModalLeft => {
                if self.view_mode == ViewMode::NewReportModal {
                    self.new_report_state.handle_left();
                }
                Effect::Nothing
            },
            Msg::ModalRight => {
                if self.view_mode == ViewMode::NewReportModal {
                    self.new_report_state.handle_right();
                }
                Effect::Nothing
            },
            Msg::ModalNextField => {
                if self.view_mode == ViewMode::NewReportModal {
                    self.new_report_state.next_field();
                }
                Effect::Nothing
            },
            Msg::ModalPrevField => {
                if self.view_mode == ViewMode::NewReportModal {
                    self.new_report_state.prev_field();
                }
                Effect::Nothing
            },
            Msg::ShowEntryInput => {
                if self.selected_report_index.is_some() {
                    self.pending_entry_mood = None;
                    self.pending_entry_context = Context::Standup;
                    self.pending_entry_notes = String::new();
                    self.view_mode = ViewMode::EntryInputModal;
                }
                Effect::Nothing
            },
            Msg::SetEntryMood(mood) => {
                if self.view_mode == ViewMode::EntryInputModal {
                    self.pending_entry_mood = Some(mood);
                }
                Effect::Nothing
            },
            Msg::CycleEntryContext => {
                if self.view_mode == ViewMode::EntryInputModal {
                    self.pending_entry_context = self.pending_entry_context.next();
                }
                Effect::Nothing
            },
            Msg::SaveEntry => self.handle_save_entry(),
            Msg::RefreshData => Effect::LoadData,
            Msg::Input(c) => {
                if self.view_mode == ViewMode::NewReportModal {
                    self.new_report_state.handle_char(c);
                } else if self.view_mode == ViewMode::EntryInputModal {
                    self.pending_entry_notes.push(c);
                }
                Effect::Nothing
            },
            Msg::Backspace => {
                if self.view_mode == ViewMode::NewReportModal {
                    self.new_report_state.handle_backspace();
                } else if self.view_mode == ViewMode::EntryInputModal {
                    let _ = self.pending_entry_notes.pop();
                }
                Effect::Nothing
            },
            Msg::Enter => {
                if self.view_mode == ViewMode::NewReportModal {
                    if self.new_report_state.is_valid() {
                        self.handle_create_report(clock)
                    } else {
                        self.set_status(String::from_str("Name is required"), clock.now_ms);
                        Effect::Nothing
                    }
                } else {
                    Effect::Nothing
                }
            },
        }
    }

    /// The selected report and entry, where both are selected and exist.
    pub fn selected_place(&self) -> (r: Option<(usize, usize)>)
        ensures
            match r {
                Some((report_idx, entry_idx)) => self.selected_pair() == Some(
                    (report_idx as int, entry_idx as int),
                ),
                None => self.selected_pair() is None,
            },
    {
        match (self.selected_report_index, self.selected_entry_index) {
            (Some(report_idx), Some(entry_idx)) => {
                if report_idx < self.entries_by_report.len() && entry_idx
                    < self.entries_by_report[report_idx].len() {
                    Some((report_idx, entry_idx))
                } else {
                    None
                }
            },
            _ => None,
        }
    }

    /// Open the meeting at place `display_index` of the list: select it and
    /// take its text and mood into the viewer's buffers. Says whether there
    /// was such a meeting.
    fn open_meeting(&mut self, display_index: usize, mode: ViewMode) -> (opened: bool)
        ensures
            old(self).with_meeting_opened(*final(self), display_index, mode),
            opened == old(self).display_target_spec(display_index) is Some,
    {
        match self.meeting_display_to_entry_index(display_index) {
            Some(actual_index) => {
                match self.selected_report_index {
                    Some(report_idx) => {
                        let content: String =
                            self.entries_by_report[report_idx][actual_index].content.clone();
                        let mood: Option<u8> = self.entries_by_report[report_idx][actual_index].mood();
                        self.selected_entry_index = Some(actual_index);
                        self.editor_content = content;
                        self.editor_mood = mood;
                        self.view_mode = mode;
                        true
                    },
                    None => false,
                }
            },
            None => false,
        }
    }

    /// Handle the Back message
    fn handle_back(&mut self)
        ensures
            old(self).after_back(*final(self)),
    {
        match self.view_mode {
            ViewMode::ReportDetail => {
                match self.selected_report_index {
                    Some(report_idx) => {
                        self.selected_index = report_idx;
                    },
                    None => {},
                }
                self.view_mode = ViewMode::Dashboard;
                self.selected_report_index = None;
            },
            ViewMode::NoteViewer => {
                self.view_mode = ViewMode::ReportDetail;
                self.selected_entry_index = None;
            },
            ViewMode::Help => {
                self.view_mode = ViewMode::Dashboard;
            },
            ViewMode::NewReportModal => {
                self.view_mode = ViewMode::Dashboard;
            },
            ViewMode::EntryInputModal => {
                self.close_entry_form();
            },
            ViewMode::DeleteConfirmModal => {
                self.dismiss_delete();
            },
            ViewMode::Dashboard => {},
        }
    }

    /// Clear the observation form and show the detail view.
    pub fn close_entry_form(&mut self)
        ensures
            old(self).with_entry_form_closed(*final(self)),
    {
        self.view_mode = ViewMode::ReportDetail;
        self.pending_entry_mood = None;
        self.pending_entry_notes = String::new();
    }

    fn dismiss_delete(&mut self)
        ensures
            old(self).with_delete_dismissed(*final(self)),
    {
        if self.delete_from_list {
            self.selected_entry_index = None;
            self.view_mode = ViewMode::ReportDetail;
        } else {
            self.view_mode = ViewMode::NoteViewer;
        }
    }

    /// Handle ShowDeleteConfirm message
    fn handle_show_delete_confirm(&mut self)
        ensures
            old(self).after_show_delete_confirm(*final(self)),
    {
        match self.view_mode {
            ViewMode::NoteViewer => {
                self.delete_from_list = false;
                self.view_mode = ViewMode::DeleteConfirmModal;
            },
            ViewMode::ReportDetail => {
                match self.meeting_display_to_entry_index(self.selected_index) {
                    Some(actual_index) => {
                        self.selected_entry_index = Some(actual_index);
                        self.delete_from_list = true;
                        self.view_mode = ViewMode::DeleteConfirmModal;
                    },
                    None => {},
                }
            },
            _ => {},
        }
    }

    /// Handle CancelModal message
    fn handle_cancel_modal(&mut self)
        ensures
            old(self).after_cancel(*final(self)),
    {
        match self.view_mode {
            ViewMode::NewReportModal => {
                self.view_mode = ViewMode::Dashboard;
            },
            ViewMode::EntryInputModal => {
                self.close_entry_form();
            },
            ViewMode::DeleteConfirmModal => {
                self.dismiss_delete();
            },
            _ => {},
        }
    }

    /// Handle CreateReport message
    fn handle_create_report(&mut self, clock: Clock) -> (effect: Effect)
        ensures
            old(self).after_create_report(*final(self), clock, effect),
    {
        if !self.new_report_state.is_valid() {
            self.set_status(String::from_str("Name and Title are required"), clock.now_ms);
            return Effect::Nothing;
        }
        let name: String = self.new_report_state.name.clone();
        let title: String = self.new_report_state.title.clone();
        let level: String = self.new_report_state.level_str();
        let meeting_frequency: String = String::from_str(self.new_report_state.frequency_str());
        let report_type: ReportType = self.new_report_state.report_type;
        let manager_info: Option<ManagerInfo> = if report_type.is_manager() {
            Some(ManagerInfo { team_name: None })
        } else {
            None
        };
        let profile = ReportProfile {
            name: name.clone(),
            title: Some(title),
            start_date: Some(clock.today),
            level: Some(level),
            meeting_frequency,
            active: true,
            report_type,
            manager_info,
            birthday: None,
            partner: None,
            children: Vec::new(),
            skills: None,
            skills_updated: None,
            color: None,
        };
        Effect::CreateReport { name, profile }
    }

    /// Handle SaveEntry message
    fn handle_save_entry(&mut self) -> (effect: Effect)
        ensures
            *final(self) == *old(self),
            effect == (match old(self).selected_report_index {
                Some(r) => if r < old(self).reports@.len() {
                    Effect::CreateEntry {
                        report_idx: r,
                        mood: old(self).pending_entry_mood,
                        context: old(self).pending_entry_context,
                        notes: old(self).pending_entry_notes,
                    }
                } else {
                    Effect::Nothing
                },
                None => Effect::Nothing,
            }),
    {
        match self.selected_report_index {
            Some(report_idx) => if report_idx < self.reports.len() {
                Effect::CreateEntry {
                    report_idx,
                    mood: self.pending_entry_mood,
                    context: self.pending_entry_context,
                    notes: self.pending_entry_notes.clone(),
                }
            } else {
                Effect::Nothing
            },
            None => Effect::Nothing,
        }
    }
}

/// Stepping on from the place of `selected` within a list of `len` items
/// gives the index after `selected`, wrapping round.
pub proof fn lemma_next_index(selected: int, len: int)
    requires
        0 <= selected,
        0 < len,
    ensures
        (selected + 1) % len == if selected % len + 1 == len {
            0
        } else {
            selected % len + 1
        },
        0 <= (selected + 1) % len < len,
{
    let q = selected / len;
    let r = selected % len;
    vstd::arithmetic::div_mod::lemma_fundamental_div_mod(selected, len);
    vstd::arithmetic::div_mod::lemma_mod_bound(selected, len);
    vstd::arithmetic::div_mod::lemma_mod_bound(selected + 1, len);
    if r + 1 == len {
        assert(selected + 1 == (q + 1) * len + 0) by (nonlinear_arith)
            requires
                selected == len * q + r,
                r + 1 == len,
        ;
        vstd::arithmetic::div_mod::lemma_fundamental_div_mod_converse(selected + 1, len, q + 1, 0);
    } else {
        assert(selected + 1 == q * len + (r + 1)) by (nonlinear_arith)
            requires
                selected == len * q + r,
        ;
        vstd::arithmetic::div_mod::lemma_fundamental_div_mod_converse(selected + 1, len, q, r + 1);
    }
}

/// Stepping back from `selected` within a list of `len` items gives the
/// index before it, and from the first item the last.
pub proof fn lemma_prev_index(selected: int, len: int)
    requires
        0 <= selected,
        0 < len,
    ensures
        0 <= (selected - 1) % len < len,
        selected == 0 ==> (selected - 1) % len == len - 1,
        0 < selected < len ==> (selected - 1) % len == selected - 1,
{
    vstd::arithmetic::div_mod::lemma_mod_bound(selected - 1, len);
    if selected == 0 {
        vstd::arithmetic::div_mod::lemma_fundamental_div_mod_converse(-1, len, -1, len - 1);
    } else if selected < len {
        vstd::arithmetic::div_mod::lemma_small_mod((selected - 1) as nat, len as nat);
    }
}

/// The four messages that move the selection.
pub open spec fn is_navigation(msg: Msg) -> bool {
    msg == Msg::SelectNext || msg == Msg::SelectPrev || msg == Msg::SelectFirst || msg
        == Msg::SelectLast
}

/// Moving the selection changes nothing but the selected index. In an
/// empty list nothing changes at all. In a list that holds something the
/// cursor ends up within the list whatever it was before: `SelectFirst` and
/// `SelectLast` go to the first and last item, and `SelectNext` and
/// `SelectPrev` of an index within the list go to its neighbour, round the
/// ends.
pub proof fn lemma_navigation(pre: App, msg: Msg, clock: Clock, post: App, effect: Effect)
    requires
        is_navigation(msg),
        pre.step(msg, clock, post, effect),
    ensures
        effect == Effect::Nothing,
        post == (App { selected_index: post.selected_index, ..pre }),
        post.list_len() == pre.list_len(),
        pre.list_len() == 0 ==> post == pre,
        pre.list_len() > 0 ==> post.selected_index < pre.list_len(),
        pre.list_len() > 0 && msg == Msg::SelectFirst ==> post.selected_index == 0,
        pre.list_len() > 0 && msg == Msg::SelectLast ==> post.selected_index == pre.list_len() - 1,
        pre.selected_index < pre.list_len() && msg == Msg::SelectNext ==> post.selected_index
            == if pre.selected_index + 1 == pre.list_len() {
            0
        } else {
            pre.selected_index + 1
        },
        pre.selected_index < pre.list_len() && msg == Msg::SelectPrev ==> post.selected_index
            == if pre.selected_index == 0 {
            pre.list_len() - 1
        } else {
            pre.selected_index - 1
        },
{
    match pre.selected_entries_spec() {
        Some(entries) => {
            crate::app::state::lemma_meeting_count_bound(entries);
            vstd::std_specs::vec::axiom_spec_len(
                &pre.entries_by_report@[pre.selected_report_index->0 as int],
            );
        },
        None => {},
    }
    vstd::std_specs::vec::axiom_spec_len(&pre.reports);
    if pre.list_len() > 0 {
        lemma_next_index(pre.selected_index as int, pre.list_len() as int);
        lemma_prev_index(pre.selected_index as int, pre.list_len() as int);
        if pre.selected_index < pre.list_len() {
            vstd::arithmetic::div_mod::lemma_small_mod(
                pre.selected_index as nat,
                pre.list_len(),
            );
        }
    }
}

/// Whatever the message and whatever the cursor was before, after the
/// message the cursor lies within the list that it moves in, if that list
/// holds anything.
pub proof fn lemma_cursor_stays_in_list(
    pre: App,
    msg: Msg,
    clock: Clock,
    post: App,
    effect: Effect,
)
    requires
        pre.step(msg, clock, post, effect),
    ensures
        post.list_len() > 0 ==> post.selected_index < post.list_len(),
{
}

/// No message leaves a summary stale: where the summaries are fresh before
/// a message is handled, they are fresh after it.
pub proof fn lemma_update_keeps_fresh(pre: App, msg: Msg, clock: Clock, post: App, effect: Effect)
    requires
        pre.is_fresh(clock.today),
        pre.step(msg, clock, post, effect),
    ensures
        post.is_fresh(clock.today),
{
    let mid = App { selected_index: pre.cursor_after(msg), ..post };
    match msg {
        Msg::UpdateMood(mood) => {
            match pre.selected_pair() {
                Some((r, e)) => {
                    lemma_refresh_keeps_fresh(
                        pre,
                        mid,
                        r,
                        pre.entries_by_report@[r]@.update(
                            e,
                            with_mood(pre.entries_by_report@[r]@[e], mood),
                        ),
                        clock.today,
                    );
                },
                None => {},
            }
        },
        _ => {},
    }
}

/// No message brings entries out of order: where the entries of every
/// report stand in order of time before a message is handled, they do so
/// after it.
pub proof fn lemma_update_keeps_order(pre: App, msg: Msg, clock: Clock, post: App, effect: Effect)
    requires
        pre.entries_in_order(),
        pre.step(msg, clock, post, effect),
    ensures
        post.entries_in_order(),
{
    let mid = App { selected_index: pre.cursor_after(msg), ..post };
    match msg {
        Msg::UpdateMood(mood) => {
            match pre.selected_pair() {
                Some((r, e)) => {
                    let entries = pre.entries_by_report@[r]@;
                    lemma_change_keeps_order(entries, e, with_mood(entries[e], mood));
                    lemma_entries_stay_in_order(
                        pre,
                        mid,
                        r,
                        entries.update(e, with_mood(entries[e], mood)),
                    );
                },
                None => {},
            }
        },
        _ => {},
    }
}

} // verus!
