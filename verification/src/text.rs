//! Text without the white space around it.

use vstd::prelude::*;

verus! {

/// Whether a character has Unicode's `White_Space` property, which is what
/// `char::is_whitespace` tells. The property belongs to twenty-five
/// characters: the controls from tab to carriage return, the space, the next
/// line control, the no-break space, the Ogham space mark, the spaces from en
/// quad to hair space, the line and the paragraph separator, the narrow
/// no-break space, the medium mathematical space and the ideographic space.
pub open spec fn is_white_space(c: char) -> bool {
    let n = c as u32;
    ||| 0x0009 <= n <= 0x000D
    ||| n == 0x0020
    ||| n == 0x0085
    ||| n == 0x00A0
    ||| n == 0x1680
    ||| 0x2000 <= n <= 0x200A
    ||| n == 0x2028
    ||| n == 0x2029
    ||| n == 0x202F
    ||| n == 0x205F
    ||| n == 0x3000
}

/// Whether `c` is white space.
pub fn white_space(c: char) -> (r: bool)
    ensures
        r == is_white_space(c),
{
    let n = c as u32;
    if n <= 0x00A0 {
        (0x0009 <= n && n <= 0x000D) || n == 0x0020 || n == 0x0085 || n == 0x00A0
    } else if n <= 0x200A {
        n == 0x1680 || 0x2000 <= n
    } else {
        n == 0x2028 || n == 0x2029 || n == 0x202F || n == 0x205F || n == 0x3000
    }
}

/// How many characters of white space a text starts with.
pub open spec fn leading_space(s: Seq<char>) -> nat
    decreases s.len(),
{
    if s.len() > 0 && is_white_space(s.first()) {
        1 + leading_space(s.drop_first())
    } else {
        0
    }
}

/// How many characters of white space a text ends with.
pub open spec fn trailing_space(s: Seq<char>) -> nat
    decreases s.len(),
{
    if s.len() > 0 && is_white_space(s.last()) {
        1 + trailing_space(s.drop_last())
    } else {
        0
    }
}

/// A text without the white space that it starts and ends with.
pub open spec fn trimmed(s: Seq<char>) -> Seq<char> {
    let rest = s.skip(leading_space(s) as int);
    rest.take(rest.len() - trailing_space(rest))
}

/// `str::trim` returns the slice that is left when the white space at both
/// ends is taken away, white space being what has the `White_Space`
/// property.
pub assume_specification[ str::trim ](s: &str) -> (r: &str)
    ensures
        r@ == trimmed(s@),
;

/// The leading white space is white space, it ends within the text, and what
/// follows it is none.
proof fn lemma_leading_space_is_space(s: Seq<char>)
    ensures
        leading_space(s) <= s.len(),
        forall|k: int| 0 <= k < leading_space(s) ==> is_white_space(#[trigger] s[k]),
        leading_space(s) < s.len() ==> !is_white_space(s[leading_space(s) as int]),
    decreases s.len(),
{
    if s.len() > 0 && is_white_space(s.first()) {
        let rest = s.drop_first();
        lemma_leading_space_is_space(rest);
        assert forall|k: int| 0 <= k < leading_space(s) implies is_white_space(#[trigger] s[k]) by {
            if k > 0 {
                assert(s[k] == rest[k - 1]);
            }
        }
    }
}

/// The same of the trailing white space.
proof fn lemma_trailing_space_is_space(s: Seq<char>)
    ensures
        trailing_space(s) <= s.len(),
        forall|k: int|
            s.len() - trailing_space(s) <= k < s.len() ==> is_white_space(#[trigger] s[k]),
        trailing_space(s) < s.len() ==> !is_white_space(s[s.len() - trailing_space(s) - 1]),
    decreases s.len(),
{
    if s.len() > 0 && is_white_space(s.last()) {
        let rest = s.drop_last();
        lemma_trailing_space_is_space(rest);
        assert forall|k: int| s.len() - trailing_space(s) <= k < s.len() implies is_white_space(
            #[trigger] s[k],
        ) by {
            if k < s.len() - 1 {
                assert(s[k] == rest[k]);
            }
        }
        if trailing_space(s) < s.len() {
            assert(s[s.len() - trailing_space(s) - 1] == rest[rest.len() - trailing_space(rest)
                - 1]);
        }
    }
}

/// A text that starts with `i` characters of white space and then ends or
/// goes on with another character has `i` characters of leading white space.
proof fn lemma_leading_space_is(s: Seq<char>, i: int)
    requires
        0 <= i <= s.len(),
        forall|k: int| 0 <= k < i ==> is_white_space(#[trigger] s[k]),
        i < s.len() ==> !is_white_space(s[i]),
    ensures
        leading_space(s) == i,
    decreases i,
{
    if i > 0 {
        lemma_leading_space_is(s.drop_first(), i - 1);
    }
}

/// The same from the other end: `n` characters of white space at the end,
/// and before them the start of the text or another character.
proof fn lemma_trailing_space_is(s: Seq<char>, n: int)
    requires
        0 <= n <= s.len(),
        forall|k: int| s.len() - n <= k < s.len() ==> is_white_space(#[trigger] s[k]),
        n < s.len() ==> !is_white_space(s[s.len() - n - 1]),
    ensures
        trailing_space(s) == n,
    decreases n,
{
    if n > 0 {
        lemma_trailing_space_is(s.drop_last(), n - 1);
    }
}

/// What is left of a text neither starts nor ends with white space.
pub proof fn lemma_trimmed_has_no_space_around(s: Seq<char>)
    ensures
        trimmed(s).len() > 0 ==> !is_white_space(trimmed(s).first()) && !is_white_space(
            trimmed(s).last(),
        ),
{
    lemma_leading_space_is_space(s);
    lemma_trailing_space_is_space(s.skip(leading_space(s) as int));
}

/// There is one way only to take the white space off both ends: a slice of
/// the text that has nothing but white space before it and after it, and
/// neither starts nor ends with white space, is what `trimmed` gives.
pub proof fn lemma_trimmed_is_unique(s: Seq<char>, i: int, j: int)
    requires
        0 <= i <= j <= s.len(),
        forall|k: int| 0 <= k < i ==> is_white_space(#[trigger] s[k]),
        forall|k: int| j <= k < s.len() ==> is_white_space(#[trigger] s[k]),
        i < j ==> !is_white_space(s[i]) && !is_white_space(s[j - 1]),
    ensures
        s.subrange(i, j) == trimmed(s),
{
    if i < j {
        lemma_leading_space_is(s, i);
        lemma_trailing_space_is(s.skip(i), s.len() - j);
    } else {
        lemma_leading_space_is(s, s.len() as int);
    }
}

/// A copy of `s` without the white space around it.
pub fn trim_text(s: &String) -> (r: String)
    ensures
        r@ == trimmed(s@),
{
    String::from_str(s.as_str().trim())
}

} // verus!
