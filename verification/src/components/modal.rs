//! The form for recruiting a new report: which field has the focus, and
//! what has been entered so far.

use crate::model::report::ReportType;
use crate::text::{blank, decimal, is_blank, push_decimal, without_last};
use vstd::prelude::*;
use vstd::string::StringExecFns;

verus! {

/// Fields of the new report form, in tab order
#[derive(Debug, Clone, Copy, PartialEq, Eq, Structural)]
pub enum NewReportField {
    /// Report type selector (IC/Manager)
    ReportType,
    /// Name input field
    Name,
    /// Job title input field
    Title,
    /// Level selector (P1-P5 or M1-M5)
    Level,
    /// Meeting frequency selector
    Frequency,
}

impl NewReportField {
    /// The field after `self` in tab order, the first after the last.
    pub open spec fn next_spec(self) -> NewReportField {
        match self {
            NewReportField::ReportType => NewReportField::Name,
            NewReportField::Name => NewReportField::Title,
            NewReportField::Title => NewReportField::Level,
            NewReportField::Level => NewReportField::Frequency,
            NewReportField::Frequency => NewReportField::ReportType,
        }
    }

    /// The field before `self` in tab order, the last before the first.
    pub open spec fn prev_spec(self) -> NewReportField {
        match self {
            NewReportField::ReportType => NewReportField::Frequency,
            NewReportField::Name => NewReportField::ReportType,
            NewReportField::Title => NewReportField::Name,
            NewReportField::Level => NewReportField::Title,
            NewReportField::Frequency => NewReportField::Level,
        }
    }

    /// Move to the next field (with wrap-around)
    pub fn next(self) -> (f: NewReportField)
        ensures
            f == self.next_spec(),
    {
        match self {
            NewReportField::ReportType => NewReportField::Name,
            NewReportField::Name => NewReportField::Title,
            NewReportField::Title => NewReportField::Level,
            NewReportField::Level => NewReportField::Frequency,
            NewReportField::Frequency => NewReportField::ReportType,
        }
    }

    /// Move to the previous field (with wrap-around)
    pub fn prev(self) -> (f: NewReportField)
        ensures
            f == self.prev_spec(),
    {
        match self {
            NewReportField::ReportType => NewReportField::Frequency,
            NewReportField::Name => NewReportField::ReportType,
            NewReportField::Title => NewReportField::Name,
            NewReportField::Level => NewReportField::Title,
            NewReportField::Frequency => NewReportField::Level,
        }
    }
}

/// Moving to the next field and back, or the other way round, returns to the
/// same field.
pub proof fn lemma_field_cycle(f: NewReportField)
    ensures
        f.next_spec().prev_spec() == f,
        f.prev_spec().next_spec() == f,
{
}

/// State for the new report form
#[derive(Debug, Clone)]
pub struct NewReportState {
    /// Report type (IC or Manager)
    pub report_type: ReportType,
    /// Report name
    pub name: String,
    /// Job title (required)
    pub title: String,
    /// Level index (0-4 for P1-P5 or M1-M5)
    pub level_index: usize,
    /// Frequency index (0=weekly, 1=biweekly, 2=monthly)
    pub frequency_index: usize,
    /// Currently focused field
    pub current_field: NewReportField,
}

/// The other report type.
pub open spec fn toggled(t: ReportType) -> ReportType {
    if t == ReportType::Manager {
        ReportType::Individual
    } else {
        ReportType::Manager
    }
}

impl Default for NewReportState {
    fn default() -> (s: NewReportState)
        ensures
            s.is_initial(),
    {
        NewReportState {
            report_type: ReportType::Individual,
            name: String::new(),
            title: String::new(),
            level_index: 2,
            frequency_index: 1,
            current_field: NewReportField::ReportType,
        }
    }
}

impl NewReportState {
    /// The empty form: an individual contributor at the third level who
    /// meets every two weeks, with the focus on the report type.
    pub open spec fn is_initial(&self) -> bool {
        &&& self.report_type == ReportType::Individual
        &&& self.name@ == Seq::<char>::empty()
        &&& self.title@ == Seq::<char>::empty()
        &&& self.level_index == 2
        &&& self.frequency_index == 1
        &&& self.current_field == NewReportField::ReportType
    }

    /// The indices select one of five levels and one of three frequencies.
    pub open spec fn in_range(&self) -> bool {
        self.level_index <= 4 && self.frequency_index <= 2
    }

    /// The level as text: the track letter, then the level index plus one.
    pub open spec fn level_text(&self) -> Seq<char> {
        (if self.report_type == ReportType::Manager {
            "M"@
        } else {
            "P"@
        }) + decimal((self.level_index + 1) as nat)
    }

    /// The name of the selected frequency.
    pub open spec fn frequency_text(&self) -> Seq<char> {
        if self.frequency_index == 0 {
            "weekly"@
        } else if self.frequency_index == 2 {
            "monthly"@
        } else {
            "biweekly"@
        }
    }

    /// Name and title both hold something other than whitespace.
    pub open spec fn is_valid_spec(&self) -> bool {
        !is_blank(self.name@) && !is_blank(self.title@)
    }

    /// The state after the left arrow key.
    pub open spec fn after_left(self) -> NewReportState {
        match self.current_field {
            NewReportField::ReportType => NewReportState {
                report_type: toggled(self.report_type),
                ..self
            },
            NewReportField::Level => NewReportState {
                level_index: if self.level_index > 0 {
                    (self.level_index - 1) as usize
                } else {
                    self.level_index
                },
                ..self
            },
            NewReportField::Frequency => NewReportState {
                frequency_index: if self.frequency_index > 0 {
                    (self.frequency_index - 1) as usize
                } else {
                    self.frequency_index
                },
                ..self
            },
            _ => self,
        }
    }

    /// The state after the right arrow key.
    pub open spec fn after_right(self) -> NewReportState {
        match self.current_field {
            NewReportField::ReportType => NewReportState {
                report_type: toggled(self.report_type),
                ..self
            },
            NewReportField::Level => NewReportState {
                level_index: if self.level_index < 4 {
                    (self.level_index + 1) as usize
                } else {
                    self.level_index
                },
                ..self
            },
            NewReportField::Frequency => NewReportState {
                frequency_index: if self.frequency_index < 2 {
                    (self.frequency_index + 1) as usize
                } else {
                    self.frequency_index
                },
                ..self
            },
            _ => self,
        }
    }

    /// `post` is the state after typing `c`: appended to the name or the
    /// title if one of them has the focus.
    pub open spec fn typed(self, c: char, post: NewReportState) -> bool {
        match self.current_field {
            NewReportField::Name => post.name@ == self.name@.push(c) && post == (NewReportState {
                name: post.name,
                ..self
            }),
            NewReportField::Title => post.title@ == self.title@.push(c) && post == (
            NewReportState { title: post.title, ..self }),
            _ => post == self,
        }
    }

    /// `post` is the state after backspace: the last character of the name or
    /// the title is gone if one of them has the focus and is not empty.
    pub open spec fn erased(self, post: NewReportState) -> bool {
        match self.current_field {
            NewReportField::Name => post.name@ == without_last(self.name@) && post == (
            NewReportState { name: post.name, ..self }),
            NewReportField::Title => post.title@ == without_last(self.title@) && post == (
            NewReportState { title: post.title, ..self }),
            _ => post == self,
        }
    }

    /// Get the level string (e.g., "P3" or "M2")
    pub fn level_str(&self) -> (s: String)
        ensures
            s@ == self.level_text(),
    {
        let mut s: String = if self.report_type.is_manager() {
            String::from_str("M")
        } else {
            String::from_str("P")
        };
        push_decimal(&mut s, self.level_index as u128 + 1);
        s
    }

    /// Get the frequency string
    pub fn frequency_str(&self) -> (s: &'static str)
        ensures
            s@ == self.frequency_text(),
    {
        if self.frequency_index == 0 {
            "weekly"
        } else if self.frequency_index == 2 {
            "monthly"
        } else {
            "biweekly"
        }
    }

    /// Move to the next field
    pub fn next_field(&mut self)
        ensures
            *final(self) == (NewReportState {
                current_field: old(self).current_field.next_spec(),
                ..*old(self)
            }),
    {
        self.current_field = self.current_field.next();
    }

    /// Move to the previous field
    pub fn prev_field(&mut self)
        ensures
            *final(self) == (NewReportState {
                current_field: old(self).current_field.prev_spec(),
                ..*old(self)
            }),
    {
        self.current_field = self.current_field.prev();
    }

    /// Handle left arrow key
    pub fn handle_left(&mut self)
        ensures
            *final(self) == old(self).after_left(),
            old(self).in_range() ==> final(self).in_range(),
    {
        match self.current_field {
            NewReportField::ReportType => {
                self.report_type =
                if self.report_type.is_manager() {
                    ReportType::Individual
                } else {
                    ReportType::Manager
                };
            },
            NewReportField::Level => {
                if self.level_index > 0 {
                    self.level_index -= 1;
                }
            },
            NewReportField::Frequency => {
                if self.frequency_index > 0 {
                    self.frequency_index -= 1;
                }
            },
            _ => {},
        }
    }

    /// Handle right arrow key
    pub fn handle_right(&mut self)
        ensures
            *final(self) == old(self).after_right(),
            old(self).in_range() ==> final(self).in_range(),
    {
        match self.current_field {
            NewReportField::ReportType => {
                self.report_type =
                if self.report_type.is_manager() {
                    ReportType::Individual
                } else {
                    ReportType::Manager
                };
            },
            NewReportField::Level => {
                if self.level_index < 4 {
                    self.level_index += 1;
                }
            },
            NewReportField::Frequency => {
                if self.frequency_index < 2 {
                    self.frequency_index += 1;
                }
            },
            _ => {},
        }
    }

    /// Handle character input
    pub fn handle_char(&mut self, c: char)
        ensures
            old(self).typed(c, *final(self)),
    {
        match self.current_field {
            NewReportField::Name => {
                self.name.push(c);
            },
            NewReportField::Title => {
                self.title.push(c);
            },
            _ => {},
        }
    }

    /// Handle backspace
    pub fn handle_backspace(&mut self)
        ensures
            old(self).erased(*final(self)),
    {
        match self.current_field {
            NewReportField::Name => {
                let _ = self.name.pop();
            },
            NewReportField::Title => {
                let _ = self.title.pop();
            },
            _ => {},
        }
    }

    /// Check if the form is valid for submission
    pub fn is_valid(&self) -> (r: bool)
        ensures
            r == self.is_valid_spec(),
    {
        !blank(self.name.as_str()) && !blank(self.title.as_str())
    }
}

} // verus!
