//! Journal entries: meeting notes and mood observations.
//!
//! An entry has a timestamp, an optional mood, an optional context and free
//! text. Entries explicitly marked as meetings, and entries without a context
//! whose content is not empty, count as meetings for the schedule.

use crate::model::time::{
    date_of, format_timestamp, formatted_timestamp, parse_date, parse_timestamp, parsed_date,
    parsed_timestamp, timestamp_of, Date, Timestamp,
};
use crate::text::chars_of;
use std::path::PathBuf;
use vstd::prelude::*;
use vstd::string::StrSliceExecFns;
use vstd::string::StringExecFns;

verus! {

/// A filesystem path is carried through the model and never inspected.
#[verifier::external_type_specification]
#[verifier::external_body]
pub struct ExPathBuf(PathBuf);

/// `PathBuf::clone` of std returns an equal path.
pub assume_specification[ <PathBuf as Clone>::clone ](p: &PathBuf) -> (r: PathBuf)
    ensures
        r == *p,
;

/// What kind of interaction a journal entry records.
#[derive(Debug, Clone, Copy, PartialEq, Eq, Structural)]
pub enum Context {
    /// Formal 1-on-1 meeting (counts toward the schedule)
    Meeting,
    /// Standup or team sync observation
    Standup,
    /// Written communication
    Slack,
    /// Other informal interaction
    Other,
}

impl Default for Context {
    fn default() -> (c: Context)
        ensures
            c == Context::Meeting,
    {
        Context::Meeting
    }
}

impl Context {
    /// The name of the context.
    pub open spec fn label(self) -> Seq<char> {
        match self {
            Context::Meeting => "Meeting"@,
            Context::Standup => "Standup"@,
            Context::Slack => "Slack"@,
            Context::Other => "Other"@,
        }
    }

    /// The name of the context in at most four characters.
    pub open spec fn short_label(self) -> Seq<char> {
        match self {
            Context::Meeting => "1:1"@,
            Context::Standup => "Stnd"@,
            Context::Slack => "Slck"@,
            Context::Other => "Othr"@,
        }
    }

    /// The variant after `self` in the cycle Meeting, Standup, Slack, Other.
    pub open spec fn next_spec(self) -> Context {
        match self {
            Context::Meeting => Context::Standup,
            Context::Standup => Context::Slack,
            Context::Slack => Context::Other,
            Context::Other => Context::Meeting,
        }
    }

    /// The variant before `self` in the cycle Meeting, Standup, Slack, Other.
    pub open spec fn prev_spec(self) -> Context {
        match self {
            Context::Meeting => Context::Other,
            Context::Standup => Context::Meeting,
            Context::Slack => Context::Standup,
            Context::Other => Context::Slack,
        }
    }

    /// The name of the context.
    pub fn as_str(&self) -> (s: &'static str)
        ensures
            s@ == self.label(),
    {
        match self {
            Context::Meeting => "Meeting",
            Context::Standup => "Standup",
            Context::Slack => "Slack",
            Context::Other => "Other",
        }
    }

    /// The name of the context in at most four characters.
    pub fn short(&self) -> (s: &'static str)
        ensures
            s@ == self.short_label(),
    {
        match self {
            Context::Meeting => "1:1",
            Context::Standup => "Stnd",
            Context::Slack => "Slck",
            Context::Other => "Othr",
        }
    }

    /// Cycle to the next context variant
    pub fn next(&self) -> (c: Context)
        ensures
            c == self.next_spec(),
    {
        match self {
            Context::Meeting => Context::Standup,
            Context::Standup => Context::Slack,
            Context::Slack => Context::Other,
            Context::Other => Context::Meeting,
        }
    }

    /// Cycle to the previous context variant
    pub fn prev(&self) -> (c: Context)
        ensures
            c == self.prev_spec(),
    {
        match self {
            Context::Meeting => Context::Other,
            Context::Standup => Context::Meeting,
            Context::Slack => Context::Standup,
            Context::Other => Context::Slack,
        }
    }

    /// All context variants, in cycle order
    pub fn all() -> (v: Vec<Context>)
        ensures
            v@ == seq![Context::Meeting, Context::Standup, Context::Slack, Context::Other],
    {
        vec![Context::Meeting, Context::Standup, Context::Slack, Context::Other]
    }
}

/// Stepping forward and then back, or back and then forward, returns to the
/// same context, and four steps forward go once round the cycle.
pub proof fn lemma_context_cycle(c: Context)
    ensures
        c.next_spec().prev_spec() == c,
        c.prev_spec().next_spec() == c,
        c.next_spec().next_spec().next_spec().next_spec() == c,
{
}

/// Header block of a journal entry: mood and context.
#[derive(Debug, Clone, Copy, PartialEq, Eq, Structural)]
pub struct JournalEntryFrontmatter {
    /// Mood rating from 1 (low) to 5 (high)
    pub mood: Option<u8>,
    /// Context of the interaction
    pub context: Option<Context>,
}

impl Default for JournalEntryFrontmatter {
    fn default() -> (f: JournalEntryFrontmatter)
        ensures
            f == (JournalEntryFrontmatter { mood: None, context: None }),
    {
        JournalEntryFrontmatter { mood: None, context: None }
    }
}

/// A stored mood counts only within 1 to 5; anything else reads as absent.
pub open spec fn valid_mood(mood: Option<u8>) -> Option<u8> {
    match mood {
        Some(m) => if 1 <= m <= 5 {
            Some(m)
        } else {
            None
        },
        None => None,
    }
}

/// A journal entry (meeting or mood observation)
#[derive(Debug, Clone)]
pub struct JournalEntry {
    /// When this entry was created
    pub timestamp: Timestamp,
    /// Filesystem path to the entry's file
    pub path: PathBuf,
    /// Header block (mood, context)
    pub frontmatter: JournalEntryFrontmatter,
    /// Body text after the header block
    pub content: String,
}

impl JournalEntry {
    /// The mood of this entry, absent unless within 1 to 5.
    pub open spec fn mood_spec(&self) -> Option<u8> {
        valid_mood(self.frontmatter.mood)
    }

    /// The stated context, or Meeting for an entry without one whose content
    /// is not empty.
    pub open spec fn context_spec(&self) -> Option<Context> {
        match self.frontmatter.context {
            Some(c) => Some(c),
            None => if self.content@.len() == 0 {
                None
            } else {
                Some(Context::Meeting)
            },
        }
    }

    /// Whether this entry counts as a meeting: its context is Meeting, or it
    /// has no context and its content is not empty.
    pub open spec fn is_meeting_spec(&self) -> bool {
        match self.frontmatter.context {
            Some(Context::Meeting) => true,
            Some(_) => false,
            None => self.content@.len() > 0,
        }
    }

    /// An entry made of its four parts.
    pub fn new(
        timestamp: Timestamp,
        path: PathBuf,
        frontmatter: JournalEntryFrontmatter,
        content: String,
    ) -> (e: JournalEntry)
        ensures
            e == (JournalEntry { timestamp, path, frontmatter, content }),
    {
        JournalEntry { timestamp, path, frontmatter, content }
    }

    /// Get validated mood (1-5 range)
    pub fn mood(&self) -> (m: Option<u8>)
        ensures
            m == self.mood_spec(),
    {
        match self.frontmatter.mood {
            Some(m) => if 1 <= m && m <= 5 {
                Some(m)
            } else {
                None
            },
            None => None,
        }
    }

    /// Get the context, defaulting to Meeting if not specified but has content
    pub fn context(&self) -> (c: Option<Context>)
        ensures
            c == self.context_spec(),
    {
        match self.frontmatter.context {
            Some(c) => Some(c),
            None => if self.content.as_str().is_empty() {
                None
            } else {
                Some(Context::Meeting)
            },
        }
    }

    /// Check if this entry represents a "meeting" for scheduling purposes
    pub fn is_meeting(&self) -> (r: bool)
        ensures
            r == self.is_meeting_spec(),
    {
        match self.frontmatter.context {
            Some(Context::Meeting) => true,
            Some(_) => false,
            None => !self.content.as_str().is_empty(),
        }
    }

    /// Get just the date portion
    pub fn date(&self) -> (d: Date)
        ensures
            d == self.timestamp.date,
    {
        self.timestamp.date
    }

    /// Check if entry has time component (not midnight)
    pub fn has_time(&self) -> (r: bool)
        ensures
            r == self.timestamp.has_time_spec(),
    {
        self.timestamp.second != 0 || self.timestamp.nano != 0
    }

    /// A copy of this entry, field by field.
    pub fn duplicate(&self) -> (e: JournalEntry)
        ensures
            e == *self,
    {
        JournalEntry {
            timestamp: self.timestamp,
            path: self.path.clone(),
            frontmatter: self.frontmatter,
            content: self.content.clone(),
        }
    }
}

/// An entry with an explicit context other than Meeting is never a meeting,
/// whatever its text holds; one marked Meeting always is.
pub proof fn lemma_explicit_context_decides(e: JournalEntry)
    ensures
        e.frontmatter.context is Some && e.frontmatter.context != Some(Context::Meeting)
            ==> !e.is_meeting_spec(),
        e.frontmatter.context == Some(Context::Meeting) ==> e.is_meeting_spec(),
        e.is_meeting_spec() <==> e.context_spec() == Some(Context::Meeting),
{
}

/// The file name suffix of journal entries.
pub open spec fn entry_suffix() -> Seq<char> {
    seq!['.', 'm', 'd']
}

/// The timestamp that a file name stands for: the name must end in `.md`;
/// what comes before is read as a full timestamp, or failing that as a date
/// alone, which stands for midnight.
pub open spec fn entry_timestamp(filename: Seq<char>) -> Option<Timestamp> {
    if filename.len() >= 3 && filename.skip(filename.len() - 3) == entry_suffix() {
        let stem = filename.take(filename.len() - 3);
        timestamp_from_parses(
            timestamp_of(parsed_timestamp(stem, "%Y-%m-%dT%H%M%S"@)),
            date_of(parsed_date(stem, "%Y-%m-%d"@)),
        )
    } else {
        None
    }
}

/// The full timestamp where there is one, else midnight of the date.
pub open spec fn timestamp_from_parses(full: Option<Timestamp>, date_only: Option<Date>) -> Option<
    Timestamp,
> {
    match full {
        Some(t) => Some(t),
        None => match date_only {
            Some(d) => Some(Timestamp { date: d, second: 0, nano: 0 }),
            None => None,
        },
    }
}

/// The timestamp of an entry from the two readings of its file name: the
/// full timestamp wins, a date alone stands for midnight.
pub fn choose_timestamp(full: Option<Timestamp>, date_only: Option<Date>) -> (r: Option<Timestamp>)
    ensures
        r == timestamp_from_parses(full, date_only),
{
    match full {
        Some(t) => Some(t),
        None => match date_only {
            Some(d) => Some(d.at_midnight()),
            None => None,
        },
    }
}

/// Parse entry timestamp from filename
/// Supports:
/// - YYYY-MM-DDTHHMMSS.md (full timestamp)
/// - YYYY-MM-DD.md (date only, treated as midnight)
pub fn parse_entry_timestamp(filename: &str) -> (r: Option<Timestamp>)
    ensures
        r == entry_timestamp(filename@),
        r matches Some(t) ==> t.wf(),
{
    let v: Vec<char> = chars_of(filename);
    let n: usize = v.len();
    if n < 3 || v[n - 3] != '.' || v[n - 2] != 'm' || v[n - 1] != 'd' {
        proof {
            if n >= 3 {
                let tail = filename@.skip(n - 3);
                assert(tail[0] == v@[n - 3] && tail[1] == v@[n - 2] && tail[2] == v@[n - 1]);
            }
        }
        return None;
    }
    proof {
        assert(filename@.skip(n - 3) =~= entry_suffix());
        assert(filename@.take(n - 3) =~= filename@.subrange(0, n - 3));
    }
    let stem: &str = filename.substring_char(0, n - 3);
    match parse_timestamp(stem, "%Y-%m-%dT%H%M%S") {
        Some(t) => Some(t),
        None => choose_timestamp(None, parse_date(stem, "%Y-%m-%d")),
    }
}

/// The file name of an entry: its timestamp as year, month, day, the
/// letter T, hour, minute and second, followed by `.md`.
pub open spec fn entry_filename(t: Timestamp) -> Seq<char> {
    formatted_timestamp(t.date.days as int, t.second as int, t.nano as int, "%Y-%m-%dT%H%M%S"@)
        + ".md"@
}

/// Format timestamp for filename
pub fn format_entry_filename(timestamp: Timestamp) -> (s: String)
    requires
        timestamp.wf(),
    ensures
        s@ == entry_filename(timestamp),
{
    format_timestamp(timestamp, "%Y-%m-%dT%H%M%S").concat(".md")
}

} // verus!
