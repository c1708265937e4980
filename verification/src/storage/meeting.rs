//! Journal entries on their way to and from files: what a new entry holds
//! and how its file is named, which moods may be stored, and whether a note
//! holds anything beyond its template.

use crate::model::meeting::{
    entry_filename, entry_timestamp, format_entry_filename, parse_entry_timestamp, Context,
    JournalEntry, JournalEntryFrontmatter,
};
use crate::model::time::{format_timestamp, formatted_timestamp, Date, Timestamp};
use crate::ranking::{
    insert_position, lemma_insert_position_is, lemma_ranked_order, placed_scores, ranked_order,
};
use crate::storage::{fence, fence_chars, StorageError};
use crate::text::{
    chars_of, find, has_prefix, index_of, occurs, skip_space, skip_space_back, text_view, trim,
    trim_start,
};
use vstd::prelude::*;
use vstd::string::StringExecFns;

verus! {

/// A journal entry that has not been written yet: everything but the
/// directory it will go to.
#[derive(Debug, Clone)]
pub struct EntryDraft {
    /// When this entry was created
    pub timestamp: Timestamp,
    /// Name of the entry's file within the journal directory
    pub filename: String,
    /// Header block (mood, context)
    pub frontmatter: JournalEntryFrontmatter,
    /// Body text
    pub content: String,
}

/// The date as year, month and day, followed by `.md`: the name under which
/// the one entry of a day used to be kept.
pub open spec fn dated_filename(d: Date) -> Seq<char> {
    formatted_timestamp(d.days as int, 0, 0, "%Y-%m-%d"@) + ".md"@
}

/// The note that a new meeting starts from: a heading with the date in
/// words, and empty sections for discussion, notes and action items.
pub open spec fn meeting_template(d: Date) -> Seq<char> {
    "# 1-on-1 - "@ + formatted_timestamp(d.days as int, 0, 0, "%B %d, %Y"@)
        + "\n\n## Discussion\n\n## Notes\n\n## Action Items\n- [ ] \n"@
}

/// The name under which a meeting of that day may still be kept: the date
/// alone, followed by `.md`.
pub fn legacy_filename(date: Date) -> (s: String)
    requires
        date.wf(),
    ensures
        s@ == dated_filename(date),
{
    format_timestamp(date.at_midnight(), "%Y-%m-%d").concat(".md")
}

/// A new entry (mood observation or meeting) made at `now`, named by its
/// full timestamp.
pub fn draft_entry(now: Timestamp, mood: Option<u8>, context: Option<Context>, notes: String) -> (d:
    EntryDraft)
    requires
        now.wf(),
    ensures
        d.timestamp == now,
        d.filename@ == entry_filename(now),
        d.frontmatter == (JournalEntryFrontmatter { mood, context }),
        d.content == notes,
{
    EntryDraft {
        timestamp: now,
        filename: format_entry_filename(now),
        frontmatter: JournalEntryFrontmatter { mood, context },
        content: notes,
    }
}

/// A new 1-on-1 meeting with template content. With a date it is stamped
/// midnight of that date, without one it is stamped `now`; either way its
/// file is named by the full timestamp.
pub fn draft_meeting(date: Option<Date>, now: Timestamp) -> (d: EntryDraft)
    requires
        now.wf(),
        date matches Some(day) ==> day.wf(),
    ensures
        d.timestamp == match date {
            Some(day) => Timestamp { date: day, second: 0, nano: 0 },
            None => now,
        },
        d.filename@ == entry_filename(d.timestamp),
        d.frontmatter == (JournalEntryFrontmatter { mood: None, context: Some(Context::Meeting) }),
        d.content@ == meeting_template(d.timestamp.date),
        d.timestamp.wf(),
{
    let timestamp: Timestamp = match date {
        Some(day) => day.at_midnight(),
        None => now,
    };
    let content: String = String::from_str("# 1-on-1 - ").concat(
        format_timestamp(timestamp.date.at_midnight(), "%B %d, %Y").as_str(),
    ).concat("\n\n## Discussion\n\n## Notes\n\n## Action Items\n- [ ] \n");
    EntryDraft {
        timestamp,
        filename: format_entry_filename(timestamp),
        frontmatter: JournalEntryFrontmatter { mood: None, context: Some(Context::Meeting) },
        content,
    }
}

/// The entry that a written draft becomes at `path`.
pub fn entry_from_draft(draft: EntryDraft, path: std::path::PathBuf) -> (e: JournalEntry)
    ensures
        e == (JournalEntry {
            timestamp: draft.timestamp,
            path,
            frontmatter: draft.frontmatter,
            content: draft.content,
        }),
{
    JournalEntry {
        timestamp: draft.timestamp,
        path,
        frontmatter: draft.frontmatter,
        content: draft.content,
    }
}

/// Set an entry's mood. Only 1 to 5 are accepted; any other value is
/// refused and leaves the entry as it was.
pub fn update_entry_mood(entry: &mut JournalEntry, mood: u8) -> (r: Result<(), StorageError>)
    ensures
        1 <= mood <= 5 ==> r is Ok && *final(entry) == (JournalEntry {
            frontmatter: JournalEntryFrontmatter { mood: Some(mood), ..old(entry).frontmatter },
            ..*old(entry)
        }),
        !(1 <= mood <= 5) ==> *final(entry) == *old(entry) && (r matches Err(
            StorageError::InvalidWorkspace(m),
        ) && m@ == "Mood must be between 1 and 5"@),
{
    if !(1 <= mood && mood <= 5) {
        return Err(StorageError::InvalidWorkspace(String::from_str("Mood must be between 1 and 5")));
    }
    entry.frontmatter.mood = Some(mood);
    Ok(())
}

/// Alias of `update_entry_mood`.
pub fn update_meeting_mood(entry: &mut JournalEntry, mood: u8) -> (r: Result<(), StorageError>)
    ensures
        1 <= mood <= 5 ==> r is Ok && *final(entry) == (JournalEntry {
            frontmatter: JournalEntryFrontmatter { mood: Some(mood), ..old(entry).frontmatter },
            ..*old(entry)
        }),
        !(1 <= mood <= 5) ==> *final(entry) == *old(entry) && (r matches Err(
            StorageError::InvalidWorkspace(m),
        ) && m@ == "Mood must be between 1 and 5"@),
{
    update_entry_mood(entry, mood)
}

// ---------------------------------------------------------------------------
// Notes that hold nothing but their template
// ---------------------------------------------------------------------------

/// An unticked checkbox at the start of a list item.
pub open spec fn checkbox() -> Seq<char> {
    seq!['-', ' ', '[', ' ', ']']
}

/// The part of a note that is looked at: for a text that opens with three
/// dashes, what follows the next three dashes, or nothing if there are no
/// more; any other text as a whole.
pub open spec fn note_body_start(content: Seq<char>) -> int {
    if has_prefix(content, fence()) {
        match index_of(content, fence(), 3) {
            Some(at) => at + 3,
            None => content.len() as int,
        }
    } else {
        0
    }
}

/// A line that says nothing: after trimming it is empty, a heading, an
/// unticked checkbox item, or a single dash.
pub open spec fn is_template_line(line: Seq<char>) -> bool {
    let t = trim(line);
    ||| t.len() == 0
    ||| t[0] == '#'
    ||| has_prefix(t, checkbox())
    ||| t == seq!['-']
}

/// `s[a..b]` is a line of `s` at or after `from`: it starts at `from` or
/// behind a line break, ends at the end of `s` or in front of a line break,
/// and holds no line break.
pub open spec fn is_line(s: Seq<char>, from: int, a: int, b: int) -> bool {
    &&& from <= a <= b <= s.len()
    &&& (a == from || s[a - 1] == '\n')
    &&& (b == s.len() || s[b] == '\n')
    &&& forall|k: int| a <= k < b ==> s[k] != '\n'
}

/// Whether a note is effectively empty: every line of its body is a
/// template line.
pub open spec fn content_is_empty(content: Seq<char>) -> bool {
    forall|a: int, b: int| #[trigger]
        is_line(content, note_body_start(content), a, b) ==> is_template_line(
            content.subrange(a, b),
        )
}

fn template_line(v: &Vec<char>, a: usize, b: usize) -> (r: bool)
    requires
        a <= b <= v.len(),
    ensures
        r == is_template_line(v@.subrange(a as int, b as int)),
{
    let x: usize = skip_space(v, a, b);
    let y: usize = skip_space_back(v, x, b);
    let ghost line = v@.subrange(a as int, b as int);
    let ghost t = trim(line);
    proof {
        assert(trim_start(line) =~= v@.subrange(x as int, b as int));
        assert(t =~= v@.subrange(x as int, y as int));
    }
    if x == y {
        return true;
    }
    assert(t[0] == v@[x as int]);
    if v[x] == '#' {
        return true;
    }
    let boxed: Vec<char> = vec!['-', ' ', '[', ' ', ']'];
    let has_box: bool = y - x >= 5 && occurs(v, x, &boxed);
    proof {
        if y - x >= 5 {
            assert(t.subrange(0, 5) =~= v@.subrange(x as int, x + 5));
        }
    }
    if has_box {
        return true;
    }
    let dash: bool = y - x == 1 && v[x] == '-';
    proof {
        if dash {
            assert(t =~= seq!['-']);
        } else if y - x == 1 {
            assert(t[0] != '-');
        }
    }
    dash
}

/// Check if meeting note content is effectively empty
/// (only holds a header block and whitespace or template lines)
pub fn is_content_empty(content: &str) -> (r: bool)
    ensures
        r == content_is_empty(content@),
{
    let v: Vec<char> = chars_of(content);
    let n: usize = v.len();
    let marks: Vec<char> = fence_chars();
    let start: usize = if occurs(&v, 0, &marks) {
        match find(&v, 3, &marks) {
            Some(at) => at + 3,
            None => n,
        }
    } else {
        0
    };
    assert(start == note_body_start(content@));
    let mut line_start: usize = start;
    let mut i: usize = start;
    while i < n
        invariant
            v@ == content@,
            n == v.len(),
            start == note_body_start(content@),
            start <= line_start <= i <= n,
            line_start == start || v@[line_start - 1] == '\n',
            forall|k: int| line_start <= k < i ==> v@[k] != '\n',
            forall|a: int, b: int|
                b < line_start && #[trigger] is_line(v@, start as int, a, b) ==> is_template_line(
                    v@.subrange(a, b),
                ),
        decreases n - i,
    {
        if v[i] == '\n' {
            if !template_line(&v, line_start, i) {
                assert(is_line(v@, start as int, line_start as int, i as int));
                return false;
            }
            proof {
                assert forall|a: int, b: int|
                    b < i + 1 && #[trigger] is_line(v@, start as int, a, b) implies is_template_line(
                    v@.subrange(a, b),
                ) by {
                    if b >= line_start {
                        lemma_line_start(v@, start as int, a, b, line_start as int, i as int);
                    }
                }
            }
            line_start = i + 1;
        }
        i += 1;
    }
    let last: bool = template_line(&v, line_start, n);
    proof {
        if last {
            assert forall|a: int, b: int| #[trigger]
                is_line(v@, start as int, a, b) implies is_template_line(v@.subrange(a, b)) by {
                if b >= line_start {
                    lemma_line_start(v@, start as int, a, b, line_start as int, n as int);
                }
            }
        } else {
            assert(is_line(v@, start as int, line_start as int, n as int));
        }
    }
    last
}

/// A line that ends at or after the start of the current line, and not
/// after the place reached, is the current line.
proof fn lemma_line_start(s: Seq<char>, from: int, a: int, b: int, line_start: int, i: int)
    requires
        from <= line_start <= i <= s.len(),
        line_start == from || s[line_start - 1] == '\n',
        forall|k: int| line_start <= k < i ==> s[k] != '\n',
        i == s.len() || s[i] == '\n',
        is_line(s, from, a, b),
        line_start <= b <= i,
    ensures
        a == line_start,
        b == i,
{
    if b < i {
        assert(s[b] == '\n');
    }
    if a < line_start {
        assert(s[line_start - 1] != '\n');
    }
    if a > line_start {
        assert(s[a - 1] != '\n');
    }
}

// ---------------------------------------------------------------------------
// Entries in order of time
// ---------------------------------------------------------------------------

/// A number that orders timestamps as they are ordered in time: by date,
/// then second, then nanosecond.
pub open spec fn time_key(t: Timestamp) -> int {
    (t.date.days * 0x1_0000_0000 + t.second) * 0x1_0000_0000 + t.nano
}

/// The scores by which entries are ranked into ascending order of time.
pub open spec fn time_scores(entries: Seq<JournalEntry>) -> Seq<int> {
    Seq::new(entries.len(), |i: int| -time_key(entries[i].timestamp))
}

/// The entries in ascending order of time: `time_order(e)[k]` is the index
/// in `e` of the entry at place `k`. Entries with the same timestamp keep
/// their order.
pub open spec fn time_order(entries: Seq<JournalEntry>) -> Seq<int> {
    ranked_order(time_scores(entries))
}

/// The entries in ascending order of time, entries with the same timestamp
/// in the order in which they came.
pub open spec fn sorted_entries(entries: Seq<JournalEntry>) -> Seq<JournalEntry> {
    Seq::new(entries.len(), |k: int| entries[time_order(entries)[k]])
}

/// The entries stand in ascending order of time: none is before an earlier
/// one.
pub open spec fn is_time_ordered(entries: Seq<JournalEntry>) -> bool {
    forall|a: int, b: int|
        0 <= a < b < entries.len() ==> !(#[trigger] entries[b]).timestamp.before_spec(
            (#[trigger] entries[a]).timestamp,
        )
}

/// Where an entry stamped `stamp` goes among `entries`: behind every entry
/// that is not later.
pub open spec fn time_place(entries: Seq<JournalEntry>, stamp: Timestamp) -> nat {
    insert_position(time_scores(entries), -time_key(stamp))
}

/// `sorted` holds the first `count` of `entries` in ascending order of time.
pub open spec fn in_time_order(sorted: Seq<JournalEntry>, entries: Seq<JournalEntry>, count: int) -> bool {
    let order = ranked_order(time_scores(entries).take(count));
    &&& sorted.len() == count
    &&& order.len() == count
    &&& forall|k: int|
        0 <= k < count ==> 0 <= #[trigger] order[k] < count && sorted[k] == entries[order[k]]
}

/// One timestamp is before another exactly when its key is smaller.
pub proof fn lemma_time_key(a: Timestamp, b: Timestamp)
    ensures
        a.before_spec(b) <==> time_key(a) < time_key(b),
        a == b <==> time_key(a) == time_key(b),
{
}

/// Entries in time order: every entry is there once, none comes before an
/// earlier one, and entries with the same timestamp keep their order.
pub proof fn lemma_time_order(entries: Seq<JournalEntry>)
    ensures
        crate::ranking::is_permutation(time_order(entries), entries.len() as int),
        forall|a: int, b: int|
            0 <= a < b < entries.len() ==> !entries[#[trigger] time_order(
                entries,
            )[b]].timestamp.before_spec(entries[#[trigger] time_order(entries)[a]].timestamp),
        forall|a: int, b: int|
            0 <= a < b < entries.len() && entries[#[trigger] time_order(entries)[a]].timestamp
                == entries[#[trigger] time_order(entries)[b]].timestamp ==> time_order(entries)[a]
                < time_order(entries)[b],
{
    let scores = time_scores(entries);
    let order = time_order(entries);
    lemma_ranked_order(scores);
    assert forall|a: int, b: int| 0 <= a < b < entries.len() implies !entries[#[trigger] order[b]].timestamp.before_spec(
        entries[#[trigger] order[a]].timestamp,
    ) by {
        assert(scores[order[a]] >= scores[order[b]]);
        lemma_time_key(entries[order[b]].timestamp, entries[order[a]].timestamp);
    }
    assert forall|a: int, b: int|
        0 <= a < b < entries.len() && entries[#[trigger] order[a]].timestamp
            == entries[#[trigger] order[b]].timestamp implies order[a] < order[b] by {
        assert(scores[order[a]] == scores[order[b]]);
    }
}

/// Where an entry stamped `stamp` goes among `sorted`: behind every entry
/// that is not later.
pub fn time_position(sorted: &Vec<JournalEntry>, stamp: Timestamp) -> (at: usize)
    ensures
        at <= sorted.len(),
        at == time_place(sorted@, stamp),
{
    let mut k: usize = 0;
    while k < sorted.len() && !stamp.before(sorted[k].timestamp)
        invariant
            k <= sorted.len(),
            forall|j: int| 0 <= j < k ==> time_key(sorted@[j].timestamp) <= time_key(stamp),
        decreases sorted.len() - k,
    {
        proof {
            lemma_time_key(stamp, sorted@[k as int].timestamp);
        }
        k += 1;
    }
    proof {
        if k < sorted.len() {
            lemma_time_key(stamp, sorted@[k as int].timestamp);
        }
        lemma_insert_position_is(time_scores(sorted@), -time_key(stamp), k as int);
    }
    k
}

/// Put entries in ascending order of time. Entries with the same timestamp
/// keep their order.
pub fn sort_entries(entries: Vec<JournalEntry>) -> (sorted: Vec<JournalEntry>)
    ensures
        sorted@ == sorted_entries(entries@),
        is_time_ordered(sorted@),
{
    let ghost all = entries@;
    let ghost scores = time_scores(all);
    let mut rest: Vec<JournalEntry> = entries;
    let mut sorted: Vec<JournalEntry> = Vec::new();
    let ghost mut done: int = 0;
    proof {
        assert(all.skip(0) =~= all);
        assert(scores.take(0) =~= Seq::<int>::empty());
    }
    while rest.len() > 0
        invariant
            0 <= done <= all.len(),
            rest@ == all.skip(done),
            scores == time_scores(all),
            in_time_order(sorted@, all, done),
        decreases rest.len(),
    {
        let ghost before = ranked_order(scores.take(done));
        let ghost old_sorted = sorted@;
        let entry: JournalEntry = rest.remove(0);
        proof {
            assert(entry == all[done]);
            assert(rest@ =~= all.skip(done + 1));
        }
        let at: usize = time_position(&sorted, entry.timestamp);
        proof {
            let longer = scores.take(done + 1);
            assert(longer.drop_last() =~= scores.take(done));
            assert(longer.last() == scores[done]);
            assert(time_scores(old_sorted) =~= placed_scores(before, longer)) by {
                assert forall|j: int| 0 <= j < before.len() implies time_scores(old_sorted)[j]
                    == longer[before[j]] by {
                    assert(0 <= before[j] < done);
                    assert(old_sorted[j] == all[before[j]]);
                }
            }
            assert(ranked_order(longer) == before.insert(at as int, done));
        }
        sorted.insert(at, entry);
        proof {
            let after = ranked_order(scores.take(done + 1));
            assert forall|k: int| 0 <= k < done + 1 implies 0 <= #[trigger] after[k] < done + 1
                && sorted@[k] == all[after[k]] by {
                if k < at {
                    assert(after[k] == before[k]);
                } else if k > at {
                    assert(after[k] == before[k - 1]);
                    assert(sorted@[k] == old_sorted[k - 1]);
                } else {
                    assert(after[k] == done);
                }
            }
            done = done + 1;
        }
    }
    proof {
        assert(all.skip(done).len() == 0);
        assert(scores.take(done) =~= scores);
        assert(sorted@ =~= sorted_entries(all));
        lemma_time_order(all);
        assert forall|a: int, b: int| 0 <= a < b < sorted@.len() implies !(
        #[trigger] sorted@[b]).timestamp.before_spec((#[trigger] sorted@[a]).timestamp) by {
            assert(sorted@[a] == all[time_order(all)[a]]);
            assert(sorted@[b] == all[time_order(all)[b]]);
        }
    }
    sorted
}

/// An entry put at its place in time leaves ordered entries ordered.
pub proof fn lemma_insert_keeps_order(entries: Seq<JournalEntry>, entry: JournalEntry)
    requires
        is_time_ordered(entries),
    ensures
        time_place(entries, entry.timestamp) <= entries.len(),
        is_time_ordered(entries.insert(time_place(entries, entry.timestamp) as int, entry)),
{
    let scores = time_scores(entries);
    let at = time_place(entries, entry.timestamp) as int;
    crate::ranking::lemma_insert_position(scores, -time_key(entry.timestamp));
    let after = entries.insert(at, entry);
    assert forall|a: int, b: int| 0 <= a < b < after.len() implies !(
    #[trigger] after[b]).timestamp.before_spec((#[trigger] after[a]).timestamp) by {
        lemma_time_key(after[b].timestamp, after[a].timestamp);
        if b == at {
            assert(after[a] == entries[a]);
            assert(scores[a] >= -time_key(entry.timestamp));
        } else if a == at {
            assert(after[b] == entries[b - 1]);
            assert(scores[at] < -time_key(entry.timestamp));
            if b - 1 > at {
                assert(!entries[b - 1].timestamp.before_spec(entries[at].timestamp));
                lemma_time_key(entries[b - 1].timestamp, entries[at].timestamp);
            }
        } else {
            let ia = if a < at {
                a
            } else {
                a - 1
            };
            let ib = if b < at {
                b
            } else {
                b - 1
            };
            assert(after[a] == entries[ia]);
            assert(after[b] == entries[ib]);
            assert(!entries[ib].timestamp.before_spec(entries[ia].timestamp));
        }
    }
}

/// Ordered entries stay ordered where one is taken out, and where one is
/// replaced by an entry of the same timestamp.
pub proof fn lemma_change_keeps_order(entries: Seq<JournalEntry>, at: int, entry: JournalEntry)
    requires
        is_time_ordered(entries),
        0 <= at < entries.len(),
    ensures
        is_time_ordered(entries.remove(at)),
        entry.timestamp == entries[at].timestamp ==> is_time_ordered(entries.update(at, entry)),
{
    let fewer = entries.remove(at);
    assert forall|a: int, b: int| 0 <= a < b < fewer.len() implies !(
    #[trigger] fewer[b]).timestamp.before_spec((#[trigger] fewer[a]).timestamp) by {
        let ia = if a < at {
            a
        } else {
            a + 1
        };
        let ib = if b < at {
            b
        } else {
            b + 1
        };
        assert(fewer[a] == entries[ia]);
        assert(fewer[b] == entries[ib]);
        assert(!entries[ib].timestamp.before_spec(entries[ia].timestamp));
    }
    if entry.timestamp == entries[at].timestamp {
        let changed = entries.update(at, entry);
        assert forall|a: int, b: int| 0 <= a < b < changed.len() implies !(
        #[trigger] changed[b]).timestamp.before_spec((#[trigger] changed[a]).timestamp) by {
            assert(changed[a].timestamp == entries[a].timestamp);
            assert(changed[b].timestamp == entries[b].timestamp);
            assert(!entries[b].timestamp.before_spec(entries[a].timestamp));
        }
    }
}

/// Put an entry at its place in time: behind every entry that is not
/// later. Returns the index at which it stands.
pub fn insert_entry(entries: &mut Vec<JournalEntry>, entry: JournalEntry) -> (at: usize)
    ensures
        at == time_place(old(entries)@, entry.timestamp),
        at <= old(entries)@.len(),
        final(entries)@ == old(entries)@.insert(at as int, entry),
        is_time_ordered(old(entries)@) ==> is_time_ordered(final(entries)@),
{
    let at: usize = time_position(entries, entry.timestamp);
    proof {
        if is_time_ordered(entries@) {
            lemma_insert_keeps_order(entries@, entry);
        }
    }
    entries.insert(at, entry);
    at
}

// ---------------------------------------------------------------------------
// Entries as they are found in files
// ---------------------------------------------------------------------------

/// The timestamp of the entry that a file of this name holds. A file whose
/// name starts with an underscore holds no entry; any other file holds one
/// if its name stands for a timestamp.
pub open spec fn entry_file_timestamp(filename: Seq<char>) -> Option<Timestamp> {
    if filename.len() > 0 && filename[0] == '_' {
        None
    } else {
        entry_timestamp(filename)
    }
}

/// The timestamp of the entry that a file of this name holds, if it holds
/// one
pub fn journal_file_timestamp(filename: &str) -> (r: Option<Timestamp>)
    ensures
        r == entry_file_timestamp(filename@),
        r matches Some(t) ==> t.wf(),
{
    let v: Vec<char> = chars_of(filename);
    if v.len() > 0 && v[0] == '_' {
        None
    } else {
        parse_entry_timestamp(filename)
    }
}

/// The header text that is to be read: the header of the file, unless the
/// file has none or an empty one.
pub open spec fn header_text(header: Option<Seq<char>>) -> Option<Seq<char>> {
    match header {
        Some(text) => if text.len() > 0 {
            Some(text)
        } else {
            None
        },
        None => None,
    }
}

/// The header text that is to be read, if there is any
pub fn header_to_read<'a>(header: Option<&'a str>) -> (r: Option<&'a str>)
    ensures
        text_view(r) == header_text(text_view(header)),
{
    match header {
        Some(text) => if text.is_empty() {
            None
        } else {
            Some(text)
        },
        None => None,
    }
}

/// The entry that a file holds: its header as read, and without a header
/// to read neither mood nor context.
pub fn loaded_entry(
    timestamp: Timestamp,
    path: std::path::PathBuf,
    header: Option<JournalEntryFrontmatter>,
    body: String,
) -> (e: JournalEntry)
    ensures
        e == (JournalEntry {
            timestamp,
            path,
            frontmatter: match header {
                Some(fm) => fm,
                None => JournalEntryFrontmatter { mood: None, context: None },
            },
            content: body,
        }),
{
    let frontmatter: JournalEntryFrontmatter = match header {
        Some(fm) => fm,
        None => JournalEntryFrontmatter { mood: None, context: None },
    };
    JournalEntry { timestamp, path, frontmatter, content: body }
}

} // verus!
