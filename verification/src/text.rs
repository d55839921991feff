//! Reading a type name off the debug output of a failure.

use vstd::prelude::*;
use vstd::std_specs::iter::IteratorSpec;

verus! {

/// Whether the character is white space: one of the twenty-five characters
/// with Unicode's `White_Space` property.
pub open spec fn white_space(c: char) -> bool {
    ('\u{9}' <= c <= '\u{d}') || c == ' ' || c == '\u{85}' || c == '\u{a0}' || c == '\u{1680}'
        || ('\u{2000}' <= c <= '\u{200a}') || c == '\u{2028}' || c == '\u{2029}' || c
        == '\u{202f}' || c == '\u{205f}' || c == '\u{3000}'
}

/// The characters at which the leading token of a debug output ends: white
/// space of any kind, which includes the line breaks, and the two opening
/// brackets.
pub open spec fn is_delimiter(c: char) -> bool {
    white_space(c) || c == '(' || c == '{'
}

/// How many characters stand before the first delimiter.
pub open spec fn token_len(text: Seq<char>) -> nat
    decreases text.len(),
{
    if text.len() == 0 || is_delimiter(text[0]) {
        0
    } else {
        1 + token_len(text.drop_first())
    }
}

/// The text up to its first delimiter, or all of it where it has none.
pub open spec fn leading_token(text: Seq<char>) -> Seq<char> {
    text.take(token_len(text) as int)
}

/// How many white-space characters the text begins with.
pub open spec fn space_prefix(text: Seq<char>) -> nat
    decreases text.len(),
{
    if text.len() > 0 && white_space(text[0]) {
        1 + space_prefix(text.drop_first())
    } else {
        0
    }
}

/// How many white-space characters the text ends with.
pub open spec fn space_suffix(text: Seq<char>) -> nat
    decreases text.len(),
{
    if text.len() > 0 && white_space(text.last()) {
        1 + space_suffix(text.drop_last())
    } else {
        0
    }
}

/// The text without the white space it begins with.
pub open spec fn trim_start(text: Seq<char>) -> Seq<char> {
    text.skip(space_prefix(text) as int)
}

/// The text without the white space it ends with.
pub open spec fn trim_end(text: Seq<char>) -> Seq<char> {
    text.take(text.len() - space_suffix(text))
}

/// The text without the white space at either end.
pub open spec fn trimmed(text: Seq<char>) -> Seq<char> {
    trim_end(trim_start(text))
}

/// A text whose first `n` characters are no delimiters and whose next
/// character is one, or which ends there, has a token of `n` characters.
pub proof fn lemma_token_len_is(text: Seq<char>, n: int)
    requires
        0 <= n <= text.len(),
        forall|i: int| 0 <= i < n ==> !is_delimiter(#[trigger] text[i]),
        n < text.len() ==> is_delimiter(text[n]),
    ensures
        token_len(text) == n,
    decreases n,
{
    if n > 0 {
        let rest = text.drop_first();
        assert(!is_delimiter(text[0]));
        assert forall|i: int| 0 <= i < n - 1 implies !is_delimiter(#[trigger] rest[i]) by {
            assert(rest[i] == text[i + 1]);
        }
        lemma_token_len_is(rest, n - 1);
    }
}

/// A text that neither begins nor ends with white space is its own trimmed
/// text.
pub proof fn lemma_trimmed_is_same(text: Seq<char>)
    requires
        text.len() > 0 ==> !white_space(text.first()) && !white_space(text.last()),
    ensures
        trimmed(text) == text,
{
    assert(trim_start(text) =~= text);
    assert(trim_end(text) =~= text);
}

/// The leading token holds no delimiter, so no white space, and trimming
/// leaves it as it is. The character after it, where there is one, is a
/// delimiter.
pub proof fn lemma_leading_token(text: Seq<char>)
    ensures
        token_len(text) <= text.len(),
        forall|i: int|
            0 <= i < leading_token(text).len() ==> !is_delimiter(#[trigger] leading_token(text)[i]),
        token_len(text) < text.len() ==> is_delimiter(text[token_len(text) as int]),
        trimmed(leading_token(text)) == leading_token(text),
    decreases text.len(),
{
    if text.len() > 0 && !is_delimiter(text[0]) {
        let rest = text.drop_first();
        lemma_leading_token(rest);
        assert forall|i: int| 0 <= i < leading_token(text).len() implies !is_delimiter(
            #[trigger] leading_token(text)[i],
        ) by {
            if i > 0 {
                assert(leading_token(text)[i] == leading_token(rest)[i - 1]);
            }
        }
        if token_len(text) < text.len() {
            assert(text[token_len(text) as int] == rest[token_len(rest) as int]);
        }
    }
    let token = leading_token(text);
    if token.len() > 0 {
        assert(!is_delimiter(token[0]));
        assert(!is_delimiter(token[token.len() - 1]));
    }
    lemma_trimmed_is_same(token);
}

/// A text that begins with a token and goes on with a delimiter has that
/// token as its leading token, trimmed or not.
pub proof fn lemma_token_before_delimiter(token: Seq<char>, delimiter: char, rest: Seq<char>)
    requires
        forall|i: int| 0 <= i < token.len() ==> !is_delimiter(#[trigger] token[i]),
        is_delimiter(delimiter),
    ensures
        leading_token(token + seq![delimiter] + rest) == token,
        trimmed(leading_token(token + seq![delimiter] + rest)) == token,
{
    let text = token + seq![delimiter] + rest;
    assert forall|i: int| 0 <= i < token.len() implies !is_delimiter(#[trigger] text[i]) by {
        assert(text[i] == token[i]);
    }
    assert(text[token.len() as int] == delimiter);
    lemma_token_len_is(text, token.len() as int);
    assert(leading_token(text) =~= token);
    lemma_leading_token(text);
}

/// Whether the character is white space.
pub fn is_white_space(c: char) -> (answer: bool)
    ensures
        answer == white_space(c),
{
    ('\u{9}' <= c && c <= '\u{d}') || c == ' ' || c == '\u{85}' || c == '\u{a0}' || c
        == '\u{1680}' || ('\u{2000}' <= c && c <= '\u{200a}') || c == '\u{2028}' || c
        == '\u{2029}' || c == '\u{202f}' || c == '\u{205f}' || c == '\u{3000}'
}

/// Whether the leading token ends at the character.
fn delimits(c: char) -> (answer: bool)
    ensures
        answer == is_delimiter(c),
{
    is_white_space(c) || c == '(' || c == '{'
}

/// The characters of a string, one by one.
fn chars_of(text: &str) -> (chars: Vec<char>)
    ensures
        chars@ == text@,
{
    let mut chars: Vec<char> = Vec::new();
    let mut rest = text.chars();
    loop
        invariant
            chars@ + rest.remaining() == text@,
        ensures
            chars@ == text@,
        decreases text@.len() - chars@.len(),
    {
        match rest.next() {
            Some(c) => {
                chars.push(c);
            },
            None => {
                assert(chars@ =~= text@);
                break ;
            },
        }
    }
    chars
}

/// The leading token of a debug output, without the white space at its
/// ends. The token ends at the first white space, so there is none to take
/// off.
pub fn type_token(debug: &str) -> (token: String)
    ensures
        token@ == trimmed(leading_token(debug@)),
{
    let chars = chars_of(debug);
    let mut stop: usize = 0;
    while stop < chars.len() && !delimits(chars[stop])
        invariant
            stop <= chars.len(),
            forall|i: int| 0 <= i < stop ==> !is_delimiter(#[trigger] chars@[i]),
        decreases chars.len() - stop,
    {
        stop = stop + 1;
    }
    proof {
        lemma_token_len_is(chars@, stop as int);
        lemma_leading_token(debug@);
        assert(leading_token(debug@) =~= debug@.subrange(0, stop as int));
    }
    debug.substring_char(0, stop).to_owned()
}

} // verus!
