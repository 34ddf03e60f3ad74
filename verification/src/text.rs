//! Splitting and trimming of query-string lists.

use vstd::prelude::*;
use vstd::string::*;

verus! {

/// Whether `c` has the Unicode `White_Space` property, as `char::is_whitespace` decides it.
pub uninterp spec fn is_whitespace(c: char) -> bool;

/// Calls `char::is_whitespace`. The result is named, not spelled out: the
/// Unicode table behind it is long, and it depends on the character alone.
#[verifier::external_body]
fn char_is_whitespace(c: char) -> (b: bool)
    ensures
        b == is_whitespace(c),
{
    c.is_whitespace()
}

/// `s` without its leading white space.
pub open spec fn trim_start(s: Seq<char>) -> Seq<char>
    decreases s.len(),
{
    if s.len() > 0 && is_whitespace(s[0]) {
        trim_start(s.skip(1))
    } else {
        s
    }
}

/// `s` without its trailing white space.
pub open spec fn trim_end(s: Seq<char>) -> Seq<char>
    decreases s.len(),
{
    if s.len() > 0 && is_whitespace(s.last()) {
        trim_end(s.drop_last())
    } else {
        s
    }
}

/// `s` without leading and trailing white space.
pub open spec fn trimmed(s: Seq<char>) -> Seq<char> {
    trim_end(trim_start(s))
}

/// The pieces of `s` between occurrences of `sep`. There is always at least
/// one piece; an empty text gives one empty piece.
pub open spec fn split(s: Seq<char>, sep: char) -> Seq<Seq<char>>
    decreases s.len(),
{
    if s.len() == 0 {
        seq![Seq::<char>::empty()]
    } else {
        let before = split(s.drop_last(), sep);
        if s.last() == sep {
            before.push(Seq::<char>::empty())
        } else {
            before.drop_last().push(before.last().push(s.last()))
        }
    }
}

/// Each piece of `s` between commas, trimmed.
pub open spec fn comma_list(s: Seq<char>) -> Seq<Seq<char>> {
    split(s, ',').map_values(|p: Seq<char>| trimmed(p))
}

/// The views of a vector of strings.
pub open spec fn views(v: Seq<String>) -> Seq<Seq<char>> {
    v.map_values(|s: String| s@)
}

/// A text always splits into at least one piece.
pub proof fn split_nonempty(s: Seq<char>, sep: char)
    ensures
        split(s, sep).len() >= 1,
    decreases s.len(),
{
    if s.len() > 0 {
        split_nonempty(s.drop_last(), sep);
    }
}

/// Trims white space from both ends of `s`.
pub fn trim(s: &str) -> (t: String)
    ensures
        t@ == trimmed(s@),
{
    let n = s.unicode_len();
    let mut a: usize = 0;
    proof {
        assert(s@.skip(0) =~= s@);
    }
    while a < n && char_is_whitespace(s.get_char(a))
        invariant
            a <= n,
            n == s@.len(),
            trim_start(s@) == trim_start(s@.skip(a as int)),
        decreases n - a,
    {
        proof {
            assert(s@.skip(a as int).skip(1) =~= s@.skip(a + 1));
            assert(s@.skip(a as int)[0] == s@[a as int]);
        }
        a = a + 1;
    }
    proof {
        assert(a < n ==> s@.skip(a as int)[0] == s@[a as int]);
        assert(trim_start(s@) == s@.skip(a as int));
        assert(s@.skip(a as int) =~= s@.subrange(a as int, n as int));
    }
    let mut b: usize = n;
    while b > a && char_is_whitespace(s.get_char(b - 1))
        invariant
            a <= b <= n,
            n == s@.len(),
            trimmed(s@) == trim_end(s@.subrange(a as int, b as int)),
        decreases b,
    {
        proof {
            assert(s@.subrange(a as int, b as int).drop_last() =~= s@.subrange(a as int, b - 1));
            assert(s@.subrange(a as int, b as int).last() == s@[b - 1]);
        }
        b = b - 1;
    }
    proof {
        assert(b > a ==> s@.subrange(a as int, b as int).last() == s@[b - 1]);
    }
    String::from_str(s.substring_char(a, b))
}

/// Splits `s` at each comma and trims every piece.
pub fn split_commas(s: &str) -> (parts: Vec<String>)
    ensures
        views(parts@) == comma_list(s@),
{
    let n = s.unicode_len();
    let mut parts: Vec<String> = Vec::new();
    let ghost mut raw: Seq<Seq<char>> = Seq::empty();
    let mut start: usize = 0;
    let mut i: usize = 0;
    proof {
        assert(s@.take(0) =~= Seq::<char>::empty());
        assert(s@.subrange(0, 0) =~= Seq::<char>::empty());
        assert(split(s@.take(0), ',') =~= raw.push(s@.subrange(0, 0)));
        assert(views(parts@) =~= raw.map_values(|p: Seq<char>| trimmed(p)));
    }
    while i < n
        invariant
            start <= i <= n,
            n == s@.len(),
            split(s@.take(i as int), ',') == raw.push(s@.subrange(start as int, i as int)),
            views(parts@) == raw.map_values(|p: Seq<char>| trimmed(p)),
        decreases n - i,
    {
        let c = s.get_char(i);
        proof {
            assert(s@.take(i + 1).drop_last() =~= s@.take(i as int));
            assert(s@.take(i + 1).last() == s@[i as int]);
        }
        if c == ',' {
            let piece = trim(s.substring_char(start, i));
            proof {
                let ghost cut = s@.subrange(start as int, i as int);
                assert(views(parts@.push(piece)) =~= views(parts@).push(piece@));
                assert(raw.push(cut).map_values(|p: Seq<char>| trimmed(p))
                    =~= raw.map_values(|p: Seq<char>| trimmed(p)).push(trimmed(cut)));
                raw = raw.push(cut);
                assert(s@.subrange(i + 1, i + 1) =~= Seq::<char>::empty());
            }
            parts.push(piece);
            start = i + 1;
        } else {
            proof {
                let ghost before = raw.push(s@.subrange(start as int, i as int));
                assert(before.drop_last() =~= raw);
                assert(before.last().push(c) =~= s@.subrange(start as int, i + 1));
            }
        }
        i = i + 1;
    }
    let piece = trim(s.substring_char(start, n));
    proof {
        let ghost cut = s@.subrange(start as int, n as int);
        assert(s@.take(n as int) =~= s@);
        assert(views(parts@.push(piece)) =~= views(parts@).push(piece@));
        assert(raw.push(cut).map_values(|p: Seq<char>| trimmed(p))
            =~= raw.map_values(|p: Seq<char>| trimmed(p)).push(trimmed(cut)));
    }
    parts.push(piece);
    parts
}

/// Why a comma-separated list is refused.
#[derive(Debug, Clone, Copy, PartialEq, Eq, Structural)]
pub enum ListError {
    /// The parameter was given with an empty value.
    Empty,
}

impl ListError {
    /// The message shown to the caller of the API.
    pub fn message(&self) -> (m: String)
        ensures
            m@ == "Tags cannot be empty"@,
    {
        String::from_str("Tags cannot be empty")
    }
}

/// What an optional comma-separated parameter stands for.
pub open spec fn comma_separated(s: Option<Seq<char>>) -> Result<Option<Seq<Seq<char>>>, ListError> {
    match s {
        None => Ok(None),
        Some(t) => if t.len() == 0 {
            Err(ListError::Empty)
        } else {
            Ok(Some(comma_list(t)))
        },
    }
}

/// The view of an optional string.
pub open spec fn opt_view(s: Option<String>) -> Option<Seq<char>> {
    match s {
        None => None,
        Some(t) => Some(t@),
    }
}

/// The view of an optional list of strings.
pub open spec fn opt_views(v: Option<Vec<String>>) -> Option<Seq<Seq<char>>> {
    match v {
        None => None,
        Some(l) => Some(views(l@)),
    }
}

/// Reads an optional comma-separated parameter: absent stays absent, an
/// empty value is refused, anything else is split at commas and trimmed.
pub fn parse_comma_separated(s: Option<String>) -> (r: Result<Option<Vec<String>>, ListError>)
    ensures
        match comma_separated(opt_view(s)) {
            Ok(l) => r.is_ok() && opt_views(r.unwrap()) == l,
            Err(e) => r == Err::<Option<Vec<String>>, ListError>(e),
        },
{
    match s {
        None => Ok(None),
        Some(t) => {
            if t.as_str().unicode_len() == 0 {
                Err(ListError::Empty)
            } else {
                Ok(Some(split_commas(t.as_str())))
            }
        },
    }
}

} // verus!
