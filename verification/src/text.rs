//! Character-level helpers shared by the parsers and formatters.
//!
//! Strings are modelled by their view, a `Seq<char>`. The executable helpers
//! work on a `Vec<char>` copy of the text, addressed by character index.

use vstd::prelude::*;

verus! {

/// Whether `c` counts as whitespace: the characters with the Unicode
/// property `White_Space`. These are tab to carriage return, the space, the
/// next-line control, the no-break space, the ogham space mark, the spaces
/// from en quad to hair space, the line and paragraph separators, the narrow
/// no-break space, the medium mathematical space and the ideographic space.
pub open spec fn unicode_white_space(c: char) -> bool {
    ||| '\u{9}' <= c <= '\u{d}'
    ||| c == ' '
    ||| c == '\u{85}'
    ||| c == '\u{a0}'
    ||| c == '\u{1680}'
    ||| '\u{2000}' <= c <= '\u{200a}'
    ||| c == '\u{2028}'
    ||| c == '\u{2029}'
    ||| c == '\u{202f}'
    ||| c == '\u{205f}'
    ||| c == '\u{3000}'
}

/// `char::is_whitespace` of std says whether the character has the Unicode
/// property `White_Space`.
pub assume_specification[ char::is_whitespace ](c: char) -> (r: bool)
    ensures
        r == unicode_white_space(c),
;

/// Whether `c` is one of the whitespace characters, decided by comparing it
/// with each of them.
pub fn in_white_space_set(c: char) -> (r: bool)
    ensures
        r == unicode_white_space(c),
{
    ('\u{9}' <= c && c <= '\u{d}') || c == ' ' || c == '\u{85}' || c == '\u{a0}' || c
        == '\u{1680}' || ('\u{2000}' <= c && c <= '\u{200a}') || c == '\u{2028}' || c
        == '\u{2029}' || c == '\u{202f}' || c == '\u{205f}' || c == '\u{3000}'
}

/// The lowercase form of a text: the answer of `str::to_lowercase`, which
/// follows the Unicode case mappings and may change the number of characters.
pub uninterp spec fn unicode_lowercase(s: Seq<char>) -> Seq<char>;

/// The uppercase form of a text: the answer of `str::to_uppercase`.
pub uninterp spec fn unicode_uppercase(s: Seq<char>) -> Seq<char>;

/// `str::to_lowercase` of std: the result depends on the text alone.
pub assume_specification[ str::to_lowercase ](s: &str) -> (r: String)
    ensures
        r@ == unicode_lowercase(s@),
;

/// `str::to_uppercase` of std: the result depends on the text alone.
pub assume_specification[ str::to_uppercase ](s: &str) -> (r: String)
    ensures
        r@ == unicode_uppercase(s@),
;

/// `String::push` of std appends one character at the end.
pub assume_specification[ String::push ](s: &mut String, c: char)
    ensures
        final(s)@ == old(s)@.push(c),
;

/// `String::pop` of std removes the last character and returns it, or returns
/// `None` and leaves the string empty.
pub assume_specification[ String::pop ](s: &mut String) -> (r: Option<char>)
    ensures
        old(s)@.len() == 0 ==> r is None && final(s)@ == old(s)@,
        old(s)@.len() > 0 ==> r == Some(old(s)@.last()) && final(s)@ == old(s)@.drop_last(),
;

/// The view of a text that may be absent.
pub open spec fn text_view(text: Option<&str>) -> Option<Seq<char>> {
    match text {
        Some(t) => Some(t@),
        None => None,
    }
}

/// Every character of `s` is whitespace (true of the empty text).
pub open spec fn is_blank(s: Seq<char>) -> bool {
    forall|i: int| 0 <= i < s.len() ==> unicode_white_space(#[trigger] s[i])
}

/// Number of whitespace characters at the start of `s`.
pub open spec fn leading_space(s: Seq<char>) -> nat
    decreases s.len(),
{
    if s.len() > 0 && unicode_white_space(s[0]) {
        1 + leading_space(s.drop_first())
    } else {
        0
    }
}

/// Number of whitespace characters at the end of `s`.
pub open spec fn trailing_space(s: Seq<char>) -> nat
    decreases s.len(),
{
    if s.len() > 0 && unicode_white_space(s.last()) {
        1 + trailing_space(s.drop_last())
    } else {
        0
    }
}

/// `s` without its leading whitespace.
pub open spec fn trim_start(s: Seq<char>) -> Seq<char> {
    s.skip(leading_space(s) as int)
}

/// `s` without its trailing whitespace.
pub open spec fn trim_end(s: Seq<char>) -> Seq<char> {
    s.take(s.len() - trailing_space(s))
}

/// `s` without leading and trailing whitespace.
pub open spec fn trim(s: Seq<char>) -> Seq<char> {
    trim_end(trim_start(s))
}

/// `p` occurs in `s` at character index `at`.
pub open spec fn occurs_at(s: Seq<char>, at: int, p: Seq<char>) -> bool {
    &&& 0 <= at
    &&& at + p.len() <= s.len()
    &&& s.subrange(at, at + p.len()) == p
}

/// `s` begins with `p`.
pub open spec fn has_prefix(s: Seq<char>, p: Seq<char>) -> bool {
    occurs_at(s, 0, p)
}

/// `at` is the first index not before `from` at which `p` occurs in `s`.
pub open spec fn first_occurrence(s: Seq<char>, from: int, p: Seq<char>, at: int) -> bool {
    &&& from <= at
    &&& occurs_at(s, at, p)
    &&& forall|j: int| from <= j < at ==> !occurs_at(s, j, p)
}

/// `p` occurs nowhere in `s` at or after `from`.
pub open spec fn no_occurrence(s: Seq<char>, from: int, p: Seq<char>) -> bool {
    forall|j: int| from <= j ==> !occurs_at(s, j, p)
}

/// The leading whitespace is whitespace throughout, lies within the text,
/// and ends in front of a character that is none.
pub proof fn lemma_leading_space_bound(s: Seq<char>)
    ensures
        leading_space(s) <= s.len(),
        forall|i: int| 0 <= i < leading_space(s) ==> unicode_white_space(#[trigger] s[i]),
        leading_space(s) < s.len() ==> !unicode_white_space(s[leading_space(s) as int]),
    decreases s.len(),
{
    if s.len() > 0 && unicode_white_space(s[0]) {
        let t = s.drop_first();
        lemma_leading_space_bound(t);
        assert forall|i: int| 0 <= i < leading_space(s) implies unicode_white_space(
            #[trigger] s[i],
        ) by {
            if i > 0 {
                assert(s[i] == t[i - 1]);
            }
        }
        if leading_space(s) < s.len() {
            assert(s[leading_space(s) as int] == t[leading_space(t) as int]);
        }
    }
}

/// The trailing whitespace is whitespace throughout, lies within the text,
/// and starts behind a character that is none.
pub proof fn lemma_trailing_space_bound(s: Seq<char>)
    ensures
        trailing_space(s) <= s.len(),
        forall|i: int|
            s.len() - trailing_space(s) <= i < s.len() ==> unicode_white_space(#[trigger] s[i]),
        trailing_space(s) < s.len() ==> !unicode_white_space(
            s[s.len() - trailing_space(s) - 1],
        ),
    decreases s.len(),
{
    if s.len() > 0 && unicode_white_space(s.last()) {
        let t = s.drop_last();
        lemma_trailing_space_bound(t);
        assert forall|i: int| s.len() - trailing_space(s) <= i < s.len() implies unicode_white_space(
            #[trigger] s[i],
        ) by {
            if i < s.len() - 1 {
                assert(s[i] == t[i]);
            }
        }
        if trailing_space(s) < s.len() {
            assert(s[s.len() - trailing_space(s) - 1] == t[t.len() - trailing_space(t) - 1]);
        }
    }
}

/// The leading whitespace of `s` ends at `n` when the first `n` characters are
/// whitespace and the next one, if any, is not.
pub proof fn lemma_leading_space_is(s: Seq<char>, n: int)
    requires
        0 <= n <= s.len(),
        forall|i: int| 0 <= i < n ==> unicode_white_space(#[trigger] s[i]),
        n < s.len() ==> !unicode_white_space(s[n]),
    ensures
        leading_space(s) == n,
    decreases s.len(),
{
    if s.len() > 0 && unicode_white_space(s[0]) {
        let t = s.drop_first();
        assert(n > 0);
        assert forall|i: int| 0 <= i < n - 1 implies unicode_white_space(#[trigger] t[i]) by {
            assert(t[i] == s[i + 1]);
        }
        lemma_leading_space_is(t, n - 1);
    }
}

/// The trailing whitespace of `s` starts at `s.len() - n` when the last `n`
/// characters are whitespace and the one before them, if any, is not.
pub proof fn lemma_trailing_space_is(s: Seq<char>, n: int)
    requires
        0 <= n <= s.len(),
        forall|i: int| s.len() - n <= i < s.len() ==> unicode_white_space(#[trigger] s[i]),
        n < s.len() ==> !unicode_white_space(s[s.len() - n - 1]),
    ensures
        trailing_space(s) == n,
    decreases s.len(),
{
    if s.len() > 0 && unicode_white_space(s.last()) {
        let t = s.drop_last();
        assert(n > 0);
        assert forall|i: int| t.len() - (n - 1) <= i < t.len() implies unicode_white_space(
            #[trigger] t[i],
        ) by {
            assert(t[i] == s[i]);
        }
        lemma_trailing_space_is(t, n - 1);
    }
}

/// A text is blank exactly when trimming leaves nothing.
pub proof fn lemma_blank_iff_trim_empty(s: Seq<char>)
    ensures
        is_blank(s) <==> trim(s).len() == 0,
{
    lemma_leading_space_bound(s);
    let t = trim_start(s);
    lemma_trailing_space_bound(t);
    let k = leading_space(s) as int;
    if is_blank(s) {
        if k < s.len() {
            assert(unicode_white_space(s[k]));
        }
        assert(t.len() == 0);
    }
    if trim(s).len() == 0 {
        assert(trailing_space(t) == t.len());
        assert forall|i: int| 0 <= i < s.len() implies unicode_white_space(#[trigger] s[i]) by {
            if i >= k {
                assert(t[i - k] == s[i]);
            }
        }
    }
}

/// Whitespace in front of a text does not change what is left after
/// trimming its start.
pub proof fn lemma_trim_start_skips_space(s: Seq<char>, c: char)
    requires
        unicode_white_space(c),
    ensures
        trim_start(seq![c] + s) == trim_start(s),
{
    let x = seq![c] + s;
    assert(x.drop_first() =~= s);
    lemma_leading_space_bound(s);
    assert(x.skip(1 + leading_space(s) as int) =~= s.skip(leading_space(s) as int));
}

/// Whitespace behind a text does not change what is left after trimming
/// its end.
pub proof fn lemma_trim_end_skips_space(s: Seq<char>, c: char)
    requires
        unicode_white_space(c),
    ensures
        trim_end(s.push(c)) == trim_end(s),
{
    let x = s.push(c);
    assert(x.drop_last() =~= s);
    lemma_trailing_space_bound(s);
    assert(x.take(x.len() - (1 + trailing_space(s))) =~= s.take(s.len() - trailing_space(s)));
}

/// Whitespace in front of or behind a text does not change what trimming
/// leaves of it.
pub proof fn lemma_trim_skips_space(s: Seq<char>, c: char)
    requires
        unicode_white_space(c),
    ensures
        trim(seq![c] + s) == trim(s),
        trim(s.push(c)) == trim(s),
{
    lemma_trim_start_skips_space(s, c);
    lemma_leading_space_bound(s);
    let k = leading_space(s) as int;
    let x = s.push(c);
    if k == s.len() {
        assert forall|i: int| 0 <= i < x.len() implies unicode_white_space(#[trigger] x[i]) by {
            if i < s.len() {
                assert(x[i] == s[i]);
            }
        }
        lemma_leading_space_is(x, x.len() as int);
        assert(trim_start(x) =~= Seq::<char>::empty());
        assert(trim_start(s) =~= Seq::<char>::empty());
    } else {
        assert forall|i: int| 0 <= i < k implies unicode_white_space(#[trigger] x[i]) by {
            assert(x[i] == s[i]);
        }
        assert(x[k] == s[k]);
        lemma_leading_space_is(x, k);
        assert(trim_start(x) =~= trim_start(s).push(c));
        lemma_trim_end_skips_space(trim_start(s), c);
    }
}

/// The characters of `s`, in order.
pub fn chars_of(s: &str) -> (v: Vec<char>)
    ensures
        v@ == s@,
{
    let mut v: Vec<char> = Vec::new();
    for c in it: s.chars()
        invariant
            v@ == it.seq().take(it.index@),
    {
        v.push(c);
    }
    v
}

/// The text made of `v[from..to]`.
pub fn text_of(v: &Vec<char>, from: usize, to: usize) -> (s: String)
    requires
        from <= to <= v.len(),
    ensures
        s@ == v@.subrange(from as int, to as int),
{
    let mut s = String::new();
    let mut i: usize = from;
    while i < to
        invariant
            from <= i <= to <= v.len(),
            s@ == v@.subrange(from as int, i as int),
        decreases to - i,
    {
        s.push(v[i]);
        i += 1;
        assert(s@ =~= v@.subrange(from as int, i as int));
    }
    s
}

/// Whether two texts hold the same characters.
pub fn same_text(a: &str, b: &str) -> (r: bool)
    ensures
        r == (a@ == b@),
{
    let x: String = a.to_owned();
    let y: String = b.to_owned();
    x == y
}

/// Whether `s` holds nothing but whitespace.
pub fn blank(s: &str) -> (r: bool)
    ensures
        r == is_blank(s@),
{
    let v: Vec<char> = chars_of(s);
    let mut i: usize = 0;
    while i < v.len()
        invariant
            v@ == s@,
            i <= v.len(),
            forall|j: int| 0 <= j < i ==> unicode_white_space(#[trigger] v@[j]),
        decreases v.len() - i,
    {
        if !v[i].is_whitespace() {
            assert(!unicode_white_space(s@[i as int]));
            return false;
        }
        i += 1;
    }
    true
}

/// Index of the first character at or after `from` that is not whitespace, or
/// `to` if there is none before `to`.
pub fn skip_space(v: &Vec<char>, from: usize, to: usize) -> (at: usize)
    requires
        from <= to <= v.len(),
    ensures
        from <= at <= to,
        at == from + leading_space(v@.subrange(from as int, to as int)),
{
    let mut i: usize = from;
    while i < to && v[i].is_whitespace()
        invariant
            from <= i <= to <= v.len(),
            forall|j: int| from <= j < i ==> unicode_white_space(#[trigger] v@[j]),
        decreases to - i,
    {
        i += 1;
    }
    proof {
        let w = v@.subrange(from as int, to as int);
        assert forall|j: int| 0 <= j < i - from implies unicode_white_space(#[trigger] w[j]) by {
            assert(w[j] == v@[from + j]);
        }
        lemma_leading_space_is(w, i - from);
    }
    i
}

/// One past the index of the last character before `to` that is not
/// whitespace, or `from` if there is none at or after `from`.
pub fn skip_space_back(v: &Vec<char>, from: usize, to: usize) -> (at: usize)
    requires
        from <= to <= v.len(),
    ensures
        from <= at <= to,
        at == to - trailing_space(v@.subrange(from as int, to as int)),
{
    let mut i: usize = to;
    while i > from && v[i - 1].is_whitespace()
        invariant
            from <= i <= to <= v.len(),
            forall|j: int| i <= j < to ==> unicode_white_space(#[trigger] v@[j]),
        decreases i,
    {
        i -= 1;
    }
    proof {
        let w = v@.subrange(from as int, to as int);
        assert forall|j: int| w.len() - (to - i) <= j < w.len() implies unicode_white_space(
            #[trigger] w[j],
        ) by {
            assert(w[j] == v@[from + j]);
        }
        lemma_trailing_space_is(w, to - i);
    }
    i
}

/// Whether `p` occurs in `v` at index `at`.
pub fn occurs(v: &Vec<char>, at: usize, p: &Vec<char>) -> (r: bool)
    ensures
        r == occurs_at(v@, at as int, p@),
{
    if p.len() > v.len() || at > v.len() - p.len() {
        return false;
    }
    let mut k: usize = 0;
    while k < p.len()
        invariant
            k <= p.len(),
            at + p.len() <= v.len(),
            forall|j: int| 0 <= j < k ==> v@[at + j] == p@[j],
        decreases p.len() - k,
    {
        if v[at + k] != p[k] {
            proof {
                let w = v@.subrange(at as int, at + p.len());
                assert(w[k as int] == v@[at + k]);
            }
            return false;
        }
        k += 1;
    }
    assert(v@.subrange(at as int, at + p.len()) =~= p@);
    true
}

/// The first index at or after `from` where `p` occurs in `v`.
pub fn find_from(v: &Vec<char>, from: usize, p: &Vec<char>) -> (r: Option<usize>)
    ensures
        match r {
            Some(at) => first_occurrence(v@, from as int, p@, at as int),
            None => no_occurrence(v@, from as int, p@),
        },
{
    if from > v.len() {
        return None;
    }
    let mut i: usize = from;
    loop
        invariant
            from <= i <= v.len(),
            forall|j: int| from <= j < i ==> !occurs_at(v@, j, p@),
        decreases v.len() - i,
    {
        if occurs(v, i, p) {
            return Some(i);
        }
        if i >= v.len() {
            return None;
        }
        i += 1;
    }
}

/// The character for a decimal digit.
pub open spec fn digit_char(d: int) -> char {
    if d == 0 {
        '0'
    } else if d == 1 {
        '1'
    } else if d == 2 {
        '2'
    } else if d == 3 {
        '3'
    } else if d == 4 {
        '4'
    } else if d == 5 {
        '5'
    } else if d == 6 {
        '6'
    } else if d == 7 {
        '7'
    } else if d == 8 {
        '8'
    } else {
        '9'
    }
}

/// A number written in decimal, without sign or leading zeros.
pub open spec fn decimal(n: nat) -> Seq<char>
    decreases n,
{
    if n < 10 {
        seq![digit_char(n as int)]
    } else {
        decimal(n / 10).push(digit_char((n % 10) as int))
    }
}

fn digit(d: u128) -> (c: char)
    requires
        d < 10,
    ensures
        c == digit_char(d as int),
{
    if d == 0 {
        '0'
    } else if d == 1 {
        '1'
    } else if d == 2 {
        '2'
    } else if d == 3 {
        '3'
    } else if d == 4 {
        '4'
    } else if d == 5 {
        '5'
    } else if d == 6 {
        '6'
    } else if d == 7 {
        '7'
    } else if d == 8 {
        '8'
    } else {
        '9'
    }
}

/// Appends `n` in decimal to `s`.
pub fn push_decimal(s: &mut String, n: u128)
    ensures
        final(s)@ == old(s)@ + decimal(n as nat),
    decreases n,
{
    if n >= 10 {
        push_decimal(s, n / 10);
    }
    s.push(digit(n % 10));
    proof {
        if n >= 10 {
            assert(final(s)@ =~= old(s)@ + decimal(n as nat));
        } else {
            assert(final(s)@ =~= old(s)@ + decimal(n as nat));
        }
    }
}

/// Appends `count` copies of `c` to `s`.
pub fn push_repeated(s: &mut String, c: char, count: usize)
    ensures
        final(s)@ == old(s)@ + Seq::new(count as nat, |i: int| c),
{
    let mut i: usize = 0;
    while i < count
        invariant
            i <= count,
            s@ == old(s)@ + Seq::new(i as nat, |j: int| c),
        decreases count - i,
    {
        s.push(c);
        i += 1;
        assert(s@ =~= old(s)@ + Seq::new(i as nat, |j: int| c));
    }
}

/// Index of the first occurrence of `p` in `s` at or after `from`.
pub open spec fn index_of(s: Seq<char>, p: Seq<char>, from: int) -> Option<int>
    decreases s.len() - from + 1,
{
    if from < 0 || from > s.len() {
        None
    } else if occurs_at(s, from, p) {
        Some(from)
    } else {
        index_of(s, p, from + 1)
    }
}

/// `index_of` finds the first occurrence, and finds one if there is any.
pub proof fn lemma_index_of(s: Seq<char>, p: Seq<char>, from: int)
    requires
        0 <= from,
    ensures
        match index_of(s, p, from) {
            Some(at) => first_occurrence(s, from, p, at),
            None => no_occurrence(s, from, p),
        },
    decreases s.len() - from + 1,
{
    if from > s.len() {
    } else if occurs_at(s, from, p) {
    } else {
        lemma_index_of(s, p, from + 1);
    }
}

/// The index of the first occurrence of `p` at or after `from`, if any.
pub fn find(v: &Vec<char>, from: usize, p: &Vec<char>) -> (r: Option<usize>)
    ensures
        match r {
            Some(at) => index_of(v@, p@, from as int) == Some(at as int) && from <= at && at
                + p@.len() <= v@.len(),
            None => index_of(v@, p@, from as int) is None,
        },
{
    let r: Option<usize> = find_from(v, from, p);
    proof {
        lemma_index_of(v@, p@, from as int);
        match index_of(v@, p@, from as int) {
            Some(at) => {
                match r {
                    Some(found) => {
                        if found < at {
                            assert(!occurs_at(v@, found as int, p@));
                        }
                        if at < found {
                            assert(!occurs_at(v@, at, p@));
                        }
                    },
                    None => {
                        assert(!occurs_at(v@, at, p@));
                    },
                }
            },
            None => {
                match r {
                    Some(found) => {
                        assert(!occurs_at(v@, found as int, p@));
                    },
                    None => {},
                }
            },
        }
    }
    r
}

/// `s` without its last character; the empty text stays empty.
pub open spec fn without_last(s: Seq<char>) -> Seq<char> {
    if s.len() > 0 {
        s.drop_last()
    } else {
        s
    }
}

} // verus!
