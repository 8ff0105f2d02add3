//! The casing transform: mixed-case method names become lowercase words
//! separated by underscores.

use crate::text::push_char;
use vstd::prelude::*;

verus! {

/// Whether the character tables of the standard library count `c` as an
/// uppercase character.
pub uninterp spec fn char_is_uppercase(c: char) -> bool;

/// The lowercase mapping that the standard library gives for `c`: one or more
/// characters.
pub uninterp spec fn char_lowercase(c: char) -> Seq<char>;

/// Trusted: `char::is_uppercase` depends on its argument alone; its result is
/// given the name `char_is_uppercase`. Nothing more is claimed of it.
#[verifier::external_body]
fn is_uppercase(c: char) -> (upper: bool)
    ensures
        upper == char_is_uppercase(c),
{
    c.is_uppercase()
}

/// Trusted: `char::to_lowercase` yields the lowercase mapping of its
/// argument, which depends on the argument alone; collected into a string it
/// is given the name `char_lowercase`. Nothing more is claimed of it.
#[verifier::external_body]
fn to_lowercase(c: char) -> (lower: String)
    ensures
        lower@ == char_lowercase(c),
{
    c.to_lowercase().to_string()
}

/// The lowercase mapping of `c` if `c` is uppercase, `None` otherwise.
pub open spec fn lowered(c: char) -> Option<Seq<char>> {
    if char_is_uppercase(c) {
        Some(char_lowercase(c))
    } else {
        None
    }
}

/// What one character contributes to the transformed name. `lowered` is
/// `Some` exactly for an uppercase character and then holds its lowercase
/// mapping; `in_lowercase_run` tells whether the character before it was
/// neither uppercase nor an underscore.
pub open spec fn snake_piece(
    in_lowercase_run: bool,
    c: char,
    lowered: Option<Seq<char>>,
) -> Seq<char> {
    match lowered {
        Some(lower) => if in_lowercase_run {
            seq!['_'] + lower
        } else {
            lower
        },
        None => seq![c],
    }
}

/// Whether a character leaves the transform inside a lowercase run: it does
/// unless it is uppercase or an underscore.
pub open spec fn continues_lowercase_run(c: char, lowered: Option<Seq<char>>) -> bool {
    lowered is None && c != '_'
}

/// Whether the transform is inside a lowercase run after reading all of `s`.
/// The run is decided by the last character alone.
pub open spec fn in_lowercase_run(s: Seq<char>) -> bool {
    s.len() > 0 && continues_lowercase_run(s.last(), lowered(s.last()))
}

/// The transformed name: every uppercase character is replaced by its
/// lowercase mapping, preceded by an underscore where the character before
/// it is neither uppercase nor an underscore; all other characters stay.
pub open spec fn snake_case(s: Seq<char>) -> Seq<char>
    decreases s.len(),
{
    if s.len() == 0 {
        Seq::empty()
    } else {
        snake_case(s.drop_last()) + snake_piece(
            in_lowercase_run(s.drop_last()),
            s.last(),
            lowered(s.last()),
        )
    }
}

/// Whether no character of `s` is uppercase.
pub open spec fn has_no_uppercase(s: Seq<char>) -> bool {
    forall|i: int| 0 <= i < s.len() ==> !char_is_uppercase(#[trigger] s[i])
}

/// Appends to `out` what the character `c` contributes to a transformed
/// name, and returns whether the transform is inside a lowercase run
/// afterwards. `lowered` is `Some` for an uppercase character and holds its
/// lowercase mapping.
pub fn push_snake_char(
    out: &mut String,
    in_lowercase_run: bool,
    c: char,
    lowered: Option<&str>,
) -> (next: bool)
    ensures
        final(out)@ == old(out)@ + snake_piece(
            in_lowercase_run,
            c,
            match lowered {
                Some(lower) => Some(lower@),
                None => None,
            },
        ),
        next == (lowered is None && c != '_'),
{
    match lowered {
        Some(lower) => {
            if in_lowercase_run {
                push_char(out, '_');
            }
            out.append(lower);
            assert(out@ =~= old(out)@ + snake_piece(in_lowercase_run, c, Some(lower@)));
            false
        },
        None => {
            push_char(out, c);
            assert(out@ =~= old(out)@ + snake_piece(in_lowercase_run, c, None));
            c != '_'
        },
    }
}

/// Converts a mixed-case identifier to lowercase words separated by
/// underscores. A run of uppercase characters gets no underscores inside it.
pub fn camel_to_snake(input: &str) -> (output: String)
    ensures
        output@ == snake_case(input@),
{
    let mut output = String::new();
    let mut seen_lowercase = false;
    for c in it: input.chars()
        invariant
            it.seq() == input@,
            output@ == snake_case(input@.take(it.index() as int)),
            seen_lowercase == in_lowercase_run(input@.take(it.index() as int)),
    {
        proof {
            let i = it.index() as int;
            assert(input@.take(i + 1).drop_last() =~= input@.take(i));
        }
        if is_uppercase(c) {
            let lower = to_lowercase(c);
            seen_lowercase = push_snake_char(&mut output, seen_lowercase, c, Some(lower.as_str()));
        } else {
            seen_lowercase = push_snake_char(&mut output, seen_lowercase, c, None);
        }
    }
    proof {
        assert(input@.take(input@.len() as int) =~= input@);
    }
    output
}

/// A name without uppercase characters is a fixed point of the transform, so
/// applying the transform again to such a name changes nothing.
pub proof fn lemma_snake_case_stable(s: Seq<char>)
    requires
        has_no_uppercase(s),
    ensures
        snake_case(s) == s,
        snake_case(snake_case(s)) == snake_case(s),
    decreases s.len(),
{
    if s.len() > 0 {
        lemma_snake_case_stable(s.drop_last());
        assert(s.drop_last().push(s.last()) =~= s);
        assert(snake_case(s) =~= s);
    }
}

} // verus!
