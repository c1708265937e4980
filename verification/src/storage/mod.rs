//! The text side of storage: splitting a file into header block and body,
//! putting one together again, and telling whether a note holds anything
//! beyond its template. Reading and writing the files is left to the caller.

pub mod meeting;

pub use meeting::{
    draft_entry, draft_meeting, entry_from_draft, header_to_read, is_content_empty,
    journal_file_timestamp, legacy_filename, loaded_entry,
    update_entry_mood,
    insert_entry, sort_entries, update_meeting_mood, EntryDraft,
};

use crate::text::{
    chars_of, find, has_prefix, index_of, lemma_index_of, lemma_trim_skips_space, occurs,
    occurs_at, skip_space, skip_space_back, trim, trim_start,
};
use crate::model::workspace::WorkspaceConfig;
use crate::text::{decimal, push_decimal};
use vstd::prelude::*;
use vstd::string::StrSliceExecFns;
use vstd::string::StringExecFns;

verus! {

/// What can go wrong in storage, with the text that describes it.
#[derive(Debug, Clone)]
pub enum StorageError {
    /// Reading or writing a file failed
    Io(String),
    /// A header block could not be read
    Yaml(String),
    /// The workspace or a request on it is not valid
    InvalidWorkspace(String),
    /// A report directory has no profile
    ProfileNotFound(String),
}

impl StorageError {
    /// The text shown for this error.
    pub open spec fn message_spec(&self) -> Seq<char> {
        match self {
            StorageError::Io(e) => "IO error: "@ + e@,
            StorageError::Yaml(e) => "YAML parsing error: "@ + e@,
            StorageError::InvalidWorkspace(e) => "Invalid workspace: "@ + e@,
            StorageError::ProfileNotFound(e) => "Profile not found: "@ + e@,
        }
    }

    /// The text shown for this error.
    pub fn message(&self) -> (s: String)
        ensures
            s@ == self.message_spec(),
    {
        match self {
            StorageError::Io(e) => String::from_str("IO error: ").concat(e.as_str()),
            StorageError::Yaml(e) => String::from_str("YAML parsing error: ").concat(e.as_str()),
            StorageError::InvalidWorkspace(e) => String::from_str("Invalid workspace: ").concat(
                e.as_str(),
            ),
            StorageError::ProfileNotFound(e) => String::from_str("Profile not found: ").concat(
                e.as_str(),
            ),
        }
    }
}

/// The result of a storage operation.
pub type StorageResult<T> = Result<T, StorageError>;

/// The three dashes that open a header block.
pub open spec fn fence() -> Seq<char> {
    seq!['-', '-', '-']
}

/// The line break and three dashes that close a header block.
pub open spec fn closing_fence() -> Seq<char> {
    seq!['\n', '-', '-', '-']
}

/// What follows the closing dashes, without the line break that ends their
/// line and without the one empty line behind it: at most two line breaks
/// are taken off, and nothing else.
pub open spec fn body_behind_fence(rest: Seq<char>) -> Seq<char> {
    if rest.len() >= 2 && rest[0] == '\n' && rest[1] == '\n' {
        rest.skip(2)
    } else if rest.len() >= 1 && rest[0] == '\n' {
        rest.skip(1)
    } else {
        rest
    }
}

/// A file's text split into header block and body. After leading
/// whitespace, a text that opens with three dashes and later holds a line
/// break followed by three dashes has a header: the trimmed text between
/// them; its body is what follows the line of the closing dashes and the
/// empty line behind it, character for character. Any other text has no
/// header and is all body.
pub open spec fn split_frontmatter(content: Seq<char>) -> (Option<Seq<char>>, Seq<char>) {
    let text = trim_start(content);
    if !has_prefix(text, fence()) {
        (None, text)
    } else {
        let after_start = text.skip(3);
        match index_of(after_start, closing_fence(), 0) {
            Some(end) => (
                Some(trim(after_start.take(end))),
                body_behind_fence(after_start.skip(end + 4)),
            ),
            None => (None, text),
        }
    }
}

/// The views of a split made of text slices.
pub open spec fn split_view(r: (Option<&str>, &str)) -> (Option<Seq<char>>, Seq<char>) {
    (
        match r.0 {
            Some(f) => Some(f@),
            None => None,
        },
        r.1@,
    )
}

/// The three dashes that open a header block, as characters.
pub fn fence_chars() -> (v: Vec<char>)
    ensures
        v@ == fence(),
{
    vec!['-', '-', '-']
}

fn closing_fence_chars() -> (v: Vec<char>)
    ensures
        v@ == closing_fence(),
{
    vec!['\n', '-', '-', '-']
}

/// Searching `s` from `from + k` finds what searching `s.skip(from)` from
/// `k` finds, `from` places further on.
pub proof fn lemma_index_of_shift(s: Seq<char>, p: Seq<char>, from: int, k: int)
    requires
        0 <= from <= s.len(),
        0 <= k,
    ensures
        index_of(s, p, from + k) == match index_of(s.skip(from), p, k) {
            Some(at) => Some(at + from),
            None => None,
        },
    decreases s.len() - from - k + 1,
{
    let t = s.skip(from);
    if k > t.len() {
    } else {
        if k + p.len() <= t.len() {
            assert(t.subrange(k, k + p.len()) =~= s.subrange(from + k, from + k + p.len()));
        }
        assert(occurs_at(t, k, p) == occurs_at(s, from + k, p));
        if !occurs_at(t, k, p) {
            lemma_index_of_shift(s, p, from, k + 1);
        }
    }
}

/// Parse the header block from a file's text.
/// Returns (header, body) where header is the text between --- delimiters
pub fn parse_frontmatter<'a>(content: &'a str) -> (r: (Option<&'a str>, &'a str))
    ensures
        split_view(r) == split_frontmatter(content@),
{
    let v: Vec<char> = chars_of(content);
    let n: usize = v.len();
    let start: usize = skip_space(&v, 0, n);
    let ghost text = trim_start(content@);
    proof {
        assert(v@.subrange(0, n as int) =~= v@);
        assert(text =~= v@.subrange(start as int, n as int));
    }
    let open: Vec<char> = fence_chars();
    let opened: bool = occurs(&v, start, &open);
    proof {
        if start + 3 <= n {
            assert(text.subrange(0, 3) =~= v@.subrange(start as int, start + 3));
        }
    }
    if !opened {
        return (None, content.substring_char(start, n));
    }
    let from: usize = start + 3;
    let ghost after_start = text.skip(3);
    let close: Vec<char> = closing_fence_chars();
    let found: Option<usize> = find(&v, from, &close);
    proof {
        assert(after_start =~= v@.subrange(from as int, n as int));
        lemma_index_of_shift(v@, close@, from as int, 0);
        assert(v@.skip(from as int) =~= after_start);
    }
    match found {
        Some(at) => {
            let ghost end = at - from;
            let a: usize = skip_space(&v, from, at);
            let b: usize = skip_space_back(&v, a, at);
            let behind: usize = at + 4;
            let c: usize = if n - behind >= 2 && v[behind] == '\n' && v[behind + 1] == '\n' {
                behind + 2
            } else if n - behind >= 1 && v[behind] == '\n' {
                behind + 1
            } else {
                behind
            };
            proof {
                let head = after_start.take(end);
                assert(head =~= v@.subrange(from as int, at as int));
                assert(trim_start(head) =~= v@.subrange(a as int, at as int));
                assert(trim(head) =~= v@.subrange(a as int, b as int));
                let tail = after_start.skip(end + 4);
                assert(tail =~= v@.subrange(at + 4, n as int));
                if tail.len() >= 1 {
                    assert(tail[0] == v@[behind as int]);
                }
                if tail.len() >= 2 {
                    assert(tail[1] == v@[behind + 1]);
                }
                assert(body_behind_fence(tail) =~= v@.subrange(c as int, n as int));
            }
            (Some(content.substring_char(a, b)), content.substring_char(c, n))
        },
        None => (None, content.substring_char(start, n)),
    }
}

/// The header block as it is written in front of a body: the header's text
/// between two lines of three dashes, then an empty line.
pub open spec fn framed(yaml: Seq<char>) -> Seq<char> {
    "---\n"@ + yaml + "---\n\n"@
}

/// Generate the header block of a file from the header's text
pub fn generate_frontmatter(yaml: &str) -> (s: String)
    ensures
        s@ == framed(yaml@),
{
    String::from_str("---\n").concat(yaml).concat("---\n\n")
}

/// The text of a file: the framed header followed by the body.
pub fn render_document(yaml: &str, body: &str) -> (s: String)
    ensures
        s@ == framed(yaml@) + body@,
{
    generate_frontmatter(yaml).concat(body)
}

/// No line of the header's text starts with three dashes: written behind
/// the opening line and in front of the closing one, the text holds no line
/// break followed by three dashes before its end.
pub open spec fn has_no_fence_line(yaml: Seq<char>) -> bool {
    forall|p: int|
        0 <= p < yaml.len() ==> !occurs_at(seq!['\n'] + yaml + fence(), p, closing_fence())
}

/// Splitting a written file gives back what was written: the header's
/// text, trimmed, and the body, character for character. This holds of
/// every body, and of a header text that is empty or ends its last line and
/// of which no line starts with three dashes.
pub proof fn lemma_document_round_trip(yaml: Seq<char>, body: Seq<char>)
    requires
        yaml.len() == 0 || yaml.last() == '\n',
        has_no_fence_line(yaml),
    ensures
        split_frontmatter(framed(yaml) + body) == (Some(trim(yaml)), body),
{
    reveal_strlit("---\n");
    reveal_strlit("---\n\n");
    let doc = framed(yaml) + body;
    let n = yaml.len() as int;
    assert(doc.len() == 4 + n + 5 + body.len());
    assert(doc[0] == '-' && doc[1] == '-' && doc[2] == '-' && doc[3] == '\n');
    assert forall|i: int| 0 <= i < n implies doc[4 + i] == yaml[i] by {}
    assert(doc[4 + n] == '-' && doc[5 + n] == '-' && doc[6 + n] == '-');
    assert(doc[7 + n] == '\n' && doc[8 + n] == '\n');
    assert forall|i: int| 0 <= i < body.len() implies doc[9 + n + i] == body[i] by {}
    // nothing is trimmed off the start, and the text opens with the fence
    assert(trim_start(doc) =~= doc);
    assert(doc.subrange(0, 3) =~= fence());
    let after_start = doc.skip(3);
    let closing = closing_fence();
    // the closing fence stands right behind the header's text
    assert(after_start[n] == '\n');
    assert(after_start.subrange(n, n + 4) =~= closing);
    let written = seq!['\n'] + yaml + fence();
    assert forall|p: int| 0 <= p < n implies !occurs_at(after_start, p, closing) by {
        assert(!occurs_at(written, p, closing));
        assert(after_start.subrange(p, p + 4) =~= written.subrange(p, p + 4));
    }
    lemma_index_of(after_start, closing, 0);
    match index_of(after_start, closing, 0) {
        Some(at) => {
            if at > n {
                assert(!occurs_at(after_start, n, closing));
            }
        },
        None => {
            assert(!occurs_at(after_start, n, closing));
        },
    }
    assert(index_of(after_start, closing, 0) == Some(n));
    // the header's text, but for whitespace around it
    if n == 0 {
        assert(after_start.take(n) =~= yaml);
    } else {
        let lines = yaml.drop_last();
        assert(yaml =~= lines.push('\n'));
        assert(after_start.take(n) =~= seq!['\n'] + lines);
        lemma_trim_skips_space(lines, '\n');
    }
    // the body, behind the empty line
    let rest = after_start.skip(n + 4);
    assert(rest[0] == '\n' && rest[1] == '\n');
    assert(rest.skip(2) =~= body);
}

/// The notes that a new report's profile starts with: a heading with the
/// name, and empty sections for background, working style and notes.
pub open spec fn profile_notes_text(name: Seq<char>) -> Seq<char> {
    "# "@ + name + "\n\n## Background\n\n## Working Style\n\n## Notes\n"@
}

/// The notes that a new report's profile starts with
pub fn profile_notes_template(name: &str) -> (s: String)
    ensures
        s@ == profile_notes_text(name@),
{
    String::from_str("# ").concat(name).concat("\n\n## Background\n\n## Working Style\n\n## Notes\n")
}

/// The settings file of a workspace: a comment line, the version, and the
/// default meeting frequency and the overdue threshold under `settings`.
pub open spec fn workspace_file_spec(config: WorkspaceConfig) -> Seq<char> {
    "# Vibe Manager workspace\nversion: "@ + decimal(config.version as nat)
        + "\n\nsettings:\n  default_meeting_frequency: "@
        + config.settings.default_meeting_frequency@ + "\n  overdue_threshold_days: "@ + decimal(
        config.settings.overdue_threshold_days as nat,
    ) + "\n"@
}

/// The text of a workspace's settings file
pub fn workspace_file_text(config: &WorkspaceConfig) -> (s: String)
    ensures
        s@ == workspace_file_spec(*config),
{
    let mut s: String = String::from_str("# Vibe Manager workspace\nversion: ");
    push_decimal(&mut s, config.version as u128);
    let mut s: String = s.concat("\n\nsettings:\n  default_meeting_frequency: ").concat(
        config.settings.default_meeting_frequency.as_str(),
    ).concat("\n  overdue_threshold_days: ");
    push_decimal(&mut s, config.settings.overdue_threshold_days as u128);
    s.concat("\n")
}

} // verus!
