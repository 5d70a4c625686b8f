use vstd::prelude::*;

verus! {

/// `needle` occurs in `hay` at some position.
pub open spec fn is_substring(needle: Seq<char>, hay: Seq<char>) -> bool {
    exists|i: int|
        0 <= i && i + needle.len() <= hay.len() && #[trigger] hay.subrange(i, i + needle.len())
            == needle
}

/// A character with the Unicode `White_Space` property, as `char::is_whitespace`
/// documents it.
pub open spec fn is_white_space(c: char) -> bool {
    let u = c as u32;
    (0x9 <= u && u <= 0xd) || u == 0x20 || u == 0x85 || u == 0xa0 || u == 0x1680 || (0x2000 <= u
        && u <= 0x200a) || u == 0x2028 || u == 0x2029 || u == 0x202f || u == 0x205f || u == 0x3000
}

/// The text without its trailing whitespace.
pub open spec fn trimmed_end(s: Seq<char>) -> Seq<char>
    decreases s.len(),
{
    if s.len() > 0 && is_white_space(s.last()) {
        trimmed_end(s.drop_last())
    } else {
        s
    }
}

/// The text with each occurrence of `from` replaced by `to`, scanning from
/// the start and never overlapping; `from` is not empty.
pub open spec fn replaced(s: Seq<char>, from: Seq<char>, to: Seq<char>) -> Seq<char>
    decreases s.len(),
{
    if s.len() == 0 || from.len() == 0 {
        s
    } else if from.len() <= s.len() && s.subrange(0, from.len() as int) == from {
        to + replaced(s.subrange(from.len() as int, s.len() as int), from, to)
    } else {
        seq![s[0]] + replaced(s.drop_first(), from, to)
    }
}

/// Relies on `str::contains` with a string pattern: true exactly when the
/// pattern occurs in the text.
#[verifier::external_body]
pub(crate) fn contains(hay: &str, needle: &str) -> (r: bool)
    ensures
        r == is_substring(needle@, hay@),
{
    hay.contains(needle)
}

/// Relies on `str::trim_end`: the text with its trailing whitespace, as
/// `char::is_whitespace` defines it, removed.
#[verifier::external_body]
pub(crate) fn trim_end(s: &str) -> (r: String)
    ensures
        r@ == trimmed_end(s@),
{
    s.trim_end().to_string()
}

/// Relies on `str::replace` with a non-empty string pattern: the
/// occurrences of `from`, found left to right without overlap, are replaced
/// by `to`.
#[verifier::external_body]
pub(crate) fn replace(s: &str, from: &str, to: &str) -> (r: String)
    requires
        from@.len() > 0,
    ensures
        r@ == replaced(s@, from@, to@),
{
    s.replace(from, to)
}


/// `p` is a prefix of `s`.
pub open spec fn has_prefix(s: Seq<char>, p: Seq<char>) -> bool {
    p.len() <= s.len() && s.subrange(0, p.len() as int) == p
}

/// Relies on `str::split_once` with a `char` delimiter: the text before and
/// after the first occurrence, or `None` when there is none.
#[verifier::external_body]
pub(crate) fn split_once(s: &str, c: char) -> (r: Option<(String, String)>)
    ensures
        match r {
            None => !s@.contains(c),
            Some((a, b)) => s@ == a@ + seq![c] + b@ && !a@.contains(c),
        },
{
    s.split_once(c).map(|(a, b)| (a.to_string(), b.to_string()))
}

/// Relies on `str::rsplit_once` with a `char` delimiter: the text before and
/// after the last occurrence, or `None` when there is none.
#[verifier::external_body]
pub(crate) fn rsplit_once(s: &str, c: char) -> (r: Option<(String, String)>)
    ensures
        match r {
            None => !s@.contains(c),
            Some((a, b)) => s@ == a@ + seq![c] + b@ && !b@.contains(c),
        },
{
    s.rsplit_once(c).map(|(a, b)| (a.to_string(), b.to_string()))
}

/// Relies on `str::strip_prefix`: the text after the prefix, removed once,
/// or `None` when the text does not start with it.
#[verifier::external_body]
pub(crate) fn strip_prefix(s: &str, prefix: &str) -> (r: Option<String>)
    ensures
        match r {
            None => !has_prefix(s@, prefix@),
            Some(rest) => has_prefix(s@, prefix@) && rest@ == s@.subrange(
                prefix@.len() as int,
                s@.len() as int,
            ),
        },
{
    s.strip_prefix(prefix).map(|rest| rest.to_string())
}

/// The text before the first `c`, or all of it when there is none.
pub open spec fn before_first(s: Seq<char>, c: char) -> Seq<char>
    decreases s.len(),
{
    if s.len() == 0 {
        s
    } else if s[0] == c {
        Seq::empty()
    } else {
        seq![s[0]] + before_first(s.drop_first(), c)
    }
}

/// The text after the last `c`, or all of it when there is none.
pub open spec fn after_last(s: Seq<char>, c: char) -> Seq<char>
    decreases s.len(),
{
    if s.len() == 0 {
        s
    } else if s.last() == c {
        Seq::empty()
    } else {
        after_last(s.drop_last(), c).push(s.last())
    }
}

/// The text with every leading repetition of `p` removed.
pub open spec fn trim_start_matches(s: Seq<char>, p: Seq<char>) -> Seq<char>
    decreases s.len(),
{
    if p.len() > 0 && has_prefix(s, p) {
        trim_start_matches(s.subrange(p.len() as int, s.len() as int), p)
    } else {
        s
    }
}

proof fn lemma_before_first(a: Seq<char>, b: Seq<char>, c: char)
    requires
        !a.contains(c),
    ensures
        before_first(a + seq![c] + b, c) == a,
    decreases a.len(),
{
    let s = a + seq![c] + b;
    if a.len() == 0 {
        assert(s[0] == c);
    } else {
        assert(s[0] == a[0]);
        assert(s.drop_first() =~= a.drop_first() + seq![c] + b);
        assert forall|i: int| 0 <= i < a.drop_first().len() implies a.drop_first()[i] != c by {
            assert(a[i + 1] != c);
        }
        lemma_before_first(a.drop_first(), b, c);
        assert(a =~= seq![a[0]] + a.drop_first());
    }
}

proof fn lemma_before_first_none(s: Seq<char>, c: char)
    requires
        !s.contains(c),
    ensures
        before_first(s, c) == s,
    decreases s.len(),
{
    if s.len() > 0 {
        assert(s[0] != c);
        assert forall|i: int| 0 <= i < s.drop_first().len() implies s.drop_first()[i] != c by {
            assert(s[i + 1] != c);
        }
        lemma_before_first_none(s.drop_first(), c);
        assert(s =~= seq![s[0]] + s.drop_first());
    }
}

proof fn lemma_after_last(a: Seq<char>, b: Seq<char>, c: char)
    requires
        !b.contains(c),
    ensures
        after_last(a + seq![c] + b, c) == b,
    decreases b.len(),
{
    let s = a + seq![c] + b;
    if b.len() == 0 {
        assert(s.last() == c);
    } else {
        assert(s.last() == b.last());
        assert(s.drop_last() =~= a + seq![c] + b.drop_last());
        assert forall|i: int| 0 <= i < b.drop_last().len() implies b.drop_last()[i] != c by {
            assert(b[i] != c);
        }
        lemma_after_last(a, b.drop_last(), c);
        assert(b =~= b.drop_last().push(b.last()));
    }
}

proof fn lemma_after_last_none(s: Seq<char>, c: char)
    requires
        !s.contains(c),
    ensures
        after_last(s, c) == s,
    decreases s.len(),
{
    if s.len() > 0 {
        assert(s.last() != c);
        assert forall|i: int| 0 <= i < s.drop_last().len() implies s.drop_last()[i] != c by {
            assert(s[i] != c);
        }
        lemma_after_last_none(s.drop_last(), c);
        assert(s =~= s.drop_last().push(s.last()));
    }
}

/// The text before the first `c`, or all of it when there is none.
pub fn first_segment(s: &str, c: char) -> (r: String)
    ensures
        r@ == before_first(s@, c),
{
    match split_once(s, c) {
        Some((a, b)) => {
            proof {
                lemma_before_first(a@, b@, c);
            }
            a
        },
        None => {
            proof {
                lemma_before_first_none(s@, c);
            }
            s.to_owned()
        },
    }
}

/// The text after the last `c`, or all of it when there is none.
pub fn last_segment(s: &str, c: char) -> (r: String)
    ensures
        r@ == after_last(s@, c),
{
    match rsplit_once(s, c) {
        Some((a, b)) => {
            proof {
                lemma_after_last(a@, b@, c);
            }
            b
        },
        None => {
            proof {
                lemma_after_last_none(s@, c);
            }
            s.to_owned()
        },
    }
}

/// The text with every leading repetition of `p` removed.
pub fn trim_start_prefix(s: &str, p: &str) -> (r: String)
    ensures
        r@ == trim_start_matches(s@, p@),
{
    let mut rest = s.to_owned();
    if p.is_empty() {
        return rest;
    }
    loop
        invariant
            p@.len() > 0,
            trim_start_matches(rest@, p@) == trim_start_matches(s@, p@),
        decreases rest@.len(),
    {
        match strip_prefix(rest.as_str(), p) {
            Some(next) => {
                rest = next;
            },
            None => {
                return rest;
            },
        }
    }
}
} // verus!
