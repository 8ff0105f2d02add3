//! Character and string primitives shared by the builders and the renderer.

use vstd::prelude::*;

verus! {

/// Appends one character to a string.
///
/// Trusted: `String::push` is documented to append the given `char` to the
/// end of the string and to leave what was there untouched.
#[verifier::external_body]
pub(crate) fn push_char(s: &mut String, c: char)
    ensures
        final(s)@ == old(s)@.push(c),
{
    s.push(c);
}

/// The views of a sequence of values, in order.
pub open spec fn views<T: View>(items: Seq<T>) -> Seq<T::V> {
    Seq::new(items.len(), |i: int| items[i]@)
}

/// The view of an optional string.
pub open spec fn option_view(text: Option<String>) -> Option<Seq<char>> {
    match text {
        Some(s) => Some(s@),
        None => None,
    }
}

/// `c` with an ASCII uppercase letter replaced by its lowercase form.
pub open spec fn ascii_lower(c: char) -> char {
    if 'A' <= c && c <= 'Z' {
        ((c as u8) + 32) as char
    } else {
        c
    }
}

/// Whether `a` and `b` are equal up to the case of ASCII letters.
pub open spec fn eq_ignore_ascii_case(a: Seq<char>, b: Seq<char>) -> bool {
    &&& a.len() == b.len()
    &&& forall|i: int| 0 <= i < a.len() ==> ascii_lower(#[trigger] a[i]) == ascii_lower(b[i])
}

/// Whether `c` is one of the two horizontal white-space characters.
pub open spec fn is_horizontal_space(c: char) -> bool {
    c == ' ' || c == '\t'
}

/// `s` without its trailing run of spaces and tabs.
pub open spec fn trim_end_horizontal(s: Seq<char>) -> Seq<char>
    decreases s.len(),
{
    if s.len() > 0 && is_horizontal_space(s.last()) {
        trim_end_horizontal(s.drop_last())
    } else {
        s
    }
}

/// The parts in order, with `sep` between each two neighbours.
pub open spec fn joined(parts: Seq<Seq<char>>, sep: Seq<char>) -> Seq<char>
    decreases parts.len(),
{
    if parts.len() == 0 {
        Seq::empty()
    } else if parts.len() == 1 {
        parts[0]
    } else {
        joined(parts.drop_last(), sep) + sep + parts.last()
    }
}

/// The parts in order, each preceded by `prefix`.
pub open spec fn prefixed(parts: Seq<Seq<char>>, prefix: Seq<char>) -> Seq<char>
    decreases parts.len(),
{
    if parts.len() == 0 {
        Seq::empty()
    } else {
        prefixed(parts.drop_last(), prefix) + prefix + parts.last()
    }
}

/// The parts in order, one after the other.
pub open spec fn concatenated(parts: Seq<Seq<char>>) -> Seq<char> {
    prefixed(parts, Seq::empty())
}

/// The text of an optional doc comment: the comment as it is, or nothing.
pub open spec fn doc_text(doc_comment: Option<Seq<char>>) -> Seq<char> {
    match doc_comment {
        Some(text) => text,
        None => Seq::empty(),
    }
}

/// How `joined` over the first `i + 1` parts follows from the first `i`.
pub proof fn lemma_joined_step(parts: Seq<Seq<char>>, sep: Seq<char>, i: int)
    requires
        0 <= i < parts.len(),
    ensures
        joined(parts.take(i + 1), sep) == if i == 0 {
            parts[i]
        } else {
            joined(parts.take(i), sep) + sep + parts[i]
        },
{
    assert(parts.take(i + 1).drop_last() =~= parts.take(i));
}

/// How `prefixed` over the first `i + 1` parts follows from the first `i`.
pub proof fn lemma_prefixed_step(parts: Seq<Seq<char>>, prefix: Seq<char>, i: int)
    requires
        0 <= i < parts.len(),
    ensures
        prefixed(parts.take(i + 1), prefix) == prefixed(parts.take(i), prefix) + prefix
            + parts[i],
{
    assert(parts.take(i + 1).drop_last() =~= parts.take(i));
}

/// Lowers an ASCII uppercase letter and leaves every other character as it is.
pub fn to_ascii_lower(c: char) -> (lower: char)
    ensures
        lower == ascii_lower(c),
{
    if 'A' <= c && c <= 'Z' {
        ((c as u8) + 32) as char
    } else {
        c
    }
}

/// Compares two strings up to the case of ASCII letters.
pub fn equals_ignore_ascii_case(a: &str, b: &str) -> (equal: bool)
    ensures
        equal == eq_ignore_ascii_case(a@, b@),
{
    let n = a.unicode_len();
    if n != b.unicode_len() {
        return false;
    }
    let mut i: usize = 0;
    while i < n
        invariant
            i <= n,
            n == a@.len(),
            n == b@.len(),
            forall|j: int| 0 <= j < i ==> ascii_lower(#[trigger] a@[j]) == ascii_lower(b@[j]),
        decreases n - i,
    {
        if to_ascii_lower(a.get_char(i)) != to_ascii_lower(b.get_char(i)) {
            return false;
        }
        i = i + 1;
    }
    true
}

/// Whether the first character of `s` is `first`.
pub fn starts_with_char(s: &str, first: char) -> (starts: bool)
    ensures
        starts == (s@.len() > 0 && s@[0] == first),
{
    !s.is_empty() && s.get_char(0) == first
}

/// What is cut off by `trim_end_horizontal` is white space, and what is left
/// is the longest prefix that does not end in white space.
pub proof fn lemma_trim_end_horizontal(s: Seq<char>)
    ensures
        trim_end_horizontal(s).len() <= s.len(),
        trim_end_horizontal(s) == s.take(trim_end_horizontal(s).len() as int),
        forall|i: int|
            trim_end_horizontal(s).len() <= i < s.len() ==> is_horizontal_space(#[trigger] s[i]),
        trim_end_horizontal(s).len() > 0 ==> !is_horizontal_space(trim_end_horizontal(s).last()),
    decreases s.len(),
{
    if s.len() > 0 && is_horizontal_space(s.last()) {
        lemma_trim_end_horizontal(s.drop_last());
        let t = trim_end_horizontal(s);
        assert(t =~= s.take(t.len() as int));
        assert forall|i: int| t.len() <= i < s.len() implies is_horizontal_space(
            #[trigger] s[i],
        ) by {
            if i < s.len() - 1 {
                assert(s[i] == s.drop_last()[i]);
            }
        }
    } else {
        assert(s =~= s.take(s.len() as int));
    }
}

/// Copies `s` without its trailing spaces and tabs. Line breaks stay.
pub fn trim_end(s: &str) -> (trimmed: String)
    ensures
        trimmed@ == trim_end_horizontal(s@),
{
    let n = s.unicode_len();
    let mut keep: usize = 0;
    let mut i: usize = 0;
    for c in it: s.chars()
        invariant
            it.seq() == s@,
            n == s@.len(),
            i == it.index(),
            keep == trim_end_horizontal(s@.take(i as int)).len(),
            keep <= i,
    {
        proof {
            assert(s@.take(i + 1).drop_last() =~= s@.take(i as int));
        }
        i = i + 1;
        if !(c == ' ' || c == '\t') {
            keep = i;
        }
    }
    proof {
        assert(s@.take(n as int) =~= s@);
        lemma_trim_end_horizontal(s@);
    }
    String::from_str(s.substring_char(0, keep))
}

/// Appends a doc comment to `out` as it is; nothing where there is none.
pub fn push_doc_comment(out: &mut String, doc_comment: &Option<String>)
    ensures
        final(out)@ == old(out)@ + doc_text(option_view(*doc_comment)),
{
    match doc_comment {
        Some(text) => {
            out.append(text.as_str());
        },
        None => {
            assert(out@ =~= old(out)@ + Seq::<char>::empty());
        },
    }
}

/// Appends the strings of `parts` to `out`, with `sep` between each two
/// neighbours.
pub fn push_joined(out: &mut String, parts: &Vec<String>, sep: &str)
    ensures
        final(out)@ == old(out)@ + joined(views(parts@), sep@),
{
    let ghost texts = views(parts@);
    let mut i: usize = 0;
    while i < parts.len()
        invariant
            i <= parts.len(),
            texts == views(parts@),
            out@ == old(out)@ + joined(texts.take(i as int), sep@),
        decreases parts.len() - i,
    {
        proof {
            lemma_joined_step(texts, sep@, i as int);
        }
        if i > 0 {
            out.append(sep);
        }
        out.append(parts[i].as_str());
        i = i + 1;
        assert(out@ =~= old(out)@ + joined(texts.take(i as int), sep@));
    }
    proof {
        assert(texts.take(parts.len() as int) =~= texts);
    }
}

} // verus!
