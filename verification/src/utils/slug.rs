//! Name slugs: "Alex Chen" becomes "alex-chen".

use crate::text::{chars_of, unicode_lowercase, unicode_white_space};
use vstd::prelude::*;

verus! {

/// An ASCII letter or digit.
pub open spec fn is_ascii_alphanumeric(c: char) -> bool {
    ('0' <= c <= '9') || ('a' <= c <= 'z') || ('A' <= c <= 'Z')
}

/// The plain letter for an accented lowercase letter.
pub open spec fn unaccented(c: char) -> Option<char> {
    if c == 'á' || c == 'à' || c == 'â' || c == 'ä' || c == 'ã' {
        Some('a')
    } else if c == 'é' || c == 'è' || c == 'ê' || c == 'ë' {
        Some('e')
    } else if c == 'í' || c == 'ì' || c == 'î' || c == 'ï' {
        Some('i')
    } else if c == 'ó' || c == 'ò' || c == 'ô' || c == 'ö' || c == 'õ' {
        Some('o')
    } else if c == 'ú' || c == 'ù' || c == 'û' || c == 'ü' {
        Some('u')
    } else if c == 'ñ' {
        Some('n')
    } else if c == 'ç' {
        Some('c')
    } else {
        None
    }
}

/// What a character becomes in a slug: ASCII letters and digits stay,
/// accented letters lose their accent, everything else is a dash.
pub open spec fn slug_char(c: char) -> char {
    if is_ascii_alphanumeric(c) {
        c
    } else if unicode_white_space(c) || c == '-' {
        '-'
    } else {
        match unaccented(c) {
            Some(plain) => plain,
            None => '-',
        }
    }
}

/// The characters of `s`, each as it stands in a slug.
pub open spec fn slug_chars(s: Seq<char>) -> Seq<char> {
    Seq::new(s.len(), |i: int| slug_char(s[i]))
}

/// The runs of characters between the dashes of `s`, joined by single
/// dashes. `started` says that a run has been written before `s`, `pending`
/// that a dash is due in front of the next run.
pub open spec fn joined_runs(s: Seq<char>, started: bool, pending: bool) -> Seq<char>
    decreases s.len(),
{
    if s.len() == 0 {
        Seq::empty()
    } else if s[0] == '-' {
        joined_runs(s.drop_first(), started, started)
    } else if pending {
        seq!['-', s[0]] + joined_runs(s.drop_first(), true, false)
    } else {
        seq![s[0]] + joined_runs(s.drop_first(), true, false)
    }
}

/// The slug of a text that is already in lowercase: its words of letters
/// and digits, joined by single dashes.
pub open spec fn slug_of(lower: Seq<char>) -> Seq<char> {
    joined_runs(slug_chars(lower), false, false)
}

/// A text without a dash at either end and without two dashes in a row.
pub open spec fn is_tidy(s: Seq<char>) -> bool {
    &&& s.len() > 0 ==> s[0] != '-' && s.last() != '-'
    &&& forall|i: int| 0 <= i < s.len() - 1 ==> !(#[trigger] s[i] == '-' && s[i + 1] == '-')
}

/// Joined runs never end in a dash, never hold two dashes in a row, and
/// start with a dash only behind an earlier run.
pub proof fn lemma_joined_runs_tidy(s: Seq<char>, started: bool, pending: bool)
    requires
        pending ==> started,
    ensures
        ({
            let r = joined_runs(s, started, pending);
            &&& r.len() > 0 ==> r.last() != '-'
            &&& r.len() > 0 && !started ==> r[0] != '-'
            &&& r.len() > 0 && r[0] == '-' ==> r.len() > 1 && r[1] != '-'
            &&& forall|i: int| 0 <= i < r.len() - 1 ==> !(#[trigger] r[i] == '-' && r[i + 1] == '-')
        }),
    decreases s.len(),
{
    if s.len() == 0 {
    } else {
        let rest = s.drop_first();
        let r = joined_runs(s, started, pending);
        if s[0] == '-' {
            lemma_joined_runs_tidy(rest, started, started);
        } else {
            lemma_joined_runs_tidy(rest, true, false);
            let tail = joined_runs(rest, true, false);
            let head = if pending {
                seq!['-', s[0]]
            } else {
                seq![s[0]]
            };
            assert(r == head + tail);
            assert forall|i: int| 0 <= i < r.len() - 1 implies !(#[trigger] r[i] == '-' && r[i + 1]
                == '-') by {
                if i >= head.len() {
                    assert(r[i] == tail[i - head.len()]);
                    assert(r[i + 1] == tail[i + 1 - head.len()]);
                } else if i == head.len() - 1 {
                    assert(r[i] == s[0]);
                } else {
                    assert(r[i + 1] == s[0]);
                }
            }
            if tail.len() > 0 {
                assert(r.last() == tail.last());
            } else {
                assert(r.last() == s[0]);
            }
        }
    }
}

/// A slug has no dash at either end and no two dashes in a row.
pub proof fn lemma_slug_is_tidy(lower: Seq<char>)
    ensures
        is_tidy(slug_of(lower)),
{
    lemma_joined_runs_tidy(slug_chars(lower), false, false);
}

fn plain_letter(c: char) -> (r: Option<char>)
    ensures
        r == unaccented(c),
{
    if c == 'á' || c == 'à' || c == 'â' || c == 'ä' || c == 'ã' {
        Some('a')
    } else if c == 'é' || c == 'è' || c == 'ê' || c == 'ë' {
        Some('e')
    } else if c == 'í' || c == 'ì' || c == 'î' || c == 'ï' {
        Some('i')
    } else if c == 'ó' || c == 'ò' || c == 'ô' || c == 'ö' || c == 'õ' {
        Some('o')
    } else if c == 'ú' || c == 'ù' || c == 'û' || c == 'ü' {
        Some('u')
    } else if c == 'ñ' {
        Some('n')
    } else if c == 'ç' {
        Some('c')
    } else {
        None
    }
}

fn to_slug_char(c: char) -> (r: char)
    ensures
        r == slug_char(c),
{
    if ('0' <= c && c <= '9') || ('a' <= c && c <= 'z') || ('A' <= c && c <= 'Z') {
        c
    } else if c.is_whitespace() || c == '-' {
        '-'
    } else {
        match plain_letter(c) {
            Some(plain) => plain,
            None => '-',
        }
    }
}

/// The slug of a text that is already in lowercase.
pub fn slug_from_lowercase(lower: &str) -> (s: String)
    ensures
        s@ == slug_of(lower@),
{
    let v: Vec<char> = chars_of(lower);
    let ghost mapped = slug_chars(lower@);
    let mut out: String = String::new();
    let mut started: bool = false;
    let mut pending: bool = false;
    let mut i: usize = 0;
    proof {
        assert(mapped.skip(0) =~= mapped);
    }
    while i < v.len()
        invariant
            i <= v.len(),
            v@ == lower@,
            mapped == slug_chars(lower@),
            out@ + joined_runs(mapped.skip(i as int), started, pending) == slug_of(lower@),
        decreases v.len() - i,
    {
        let c: char = to_slug_char(v[i]);
        proof {
            let rest = mapped.skip(i as int);
            assert(rest[0] == c);
            assert(rest.drop_first() =~= mapped.skip(i + 1));
        }
        let ghost before = out@;
        if c == '-' {
            pending = started;
        } else {
            if pending {
                out.push('-');
            }
            out.push(c);
            proof {
                let tail = joined_runs(mapped.skip(i + 1), true, false);
                if pending {
                    assert(out@ + tail =~= before + (seq!['-', c] + tail));
                } else {
                    assert(out@ + tail =~= before + (seq![c] + tail));
                }
            }
            started = true;
            pending = false;
        }
        i += 1;
    }
    proof {
        assert(mapped.skip(i as int) =~= Seq::<char>::empty());
        assert(out@ + Seq::<char>::empty() =~= out@);
    }
    out
}

/// Convert a name to a URL-friendly slug
/// "Alex Chen" -> "alex-chen"
/// "María García" -> "maria-garcia"
pub fn name_to_slug(name: &str) -> (s: String)
    ensures
        s@ == slug_of(unicode_lowercase(name@)),
{
    let lower: String = name.to_lowercase();
    slug_from_lowercase(lower.as_str())
}

} // verus!
