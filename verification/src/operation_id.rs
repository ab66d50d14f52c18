//! Normal form of operation identifiers.
//!
//! An identifier arrives as a path of namespace segments, such as `::routes::list_items`.
//! Its normal form has the leading colons removed and every remaining `::` replaced by one
//! underscore, matched from left to right.

use vstd::prelude::*;

verus! {

/// The text without the colons that it starts with.
pub open spec fn strip_leading_colons(text: Seq<char>) -> Seq<char>
    decreases text.len(),
{
    if text.len() > 0 && text[0] == ':' {
        strip_leading_colons(text.drop_first())
    } else {
        text
    }
}

/// The text with each `::` replaced by `_`, matched from left to right without overlap.
pub open spec fn join_segments(text: Seq<char>) -> Seq<char>
    decreases text.len(),
{
    if text.len() == 0 {
        Seq::empty()
    } else if text.len() >= 2 && text[0] == ':' && text[1] == ':' {
        seq!['_'] + join_segments(text.skip(2))
    } else {
        seq![text[0]] + join_segments(text.drop_first())
    }
}

/// The normal form of an operation identifier.
pub open spec fn normalized_id(text: Seq<char>) -> Seq<char> {
    join_segments(strip_leading_colons(text))
}

/// The text holds no colon at all.
pub open spec fn colon_free(text: Seq<char>) -> bool {
    forall|i: int| 0 <= i < text.len() ==> text[i] != ':'
}

/// An identifier without colons is its own normal form.
pub proof fn lemma_colon_free_is_normal(text: Seq<char>)
    requires
        colon_free(text),
    ensures
        normalized_id(text) == text,
    decreases text.len(),
{
    if text.len() > 0 {
        let rest = text.drop_first();
        assert(colon_free(rest));
        lemma_colon_free_is_normal(rest);
        assert(strip_leading_colons(rest) == rest);
    }
}

/// The text has no colon directly after another.
pub open spec fn free_of_double_colons(text: Seq<char>) -> bool {
    forall|i: int| 0 <= i < text.len() - 1 ==> !(text[i] == ':' && #[trigger] text[i + 1] == ':')
}

/// What is left after stripping does not start with a colon.
pub proof fn lemma_stripped_starts_without_colon(text: Seq<char>)
    ensures
        strip_leading_colons(text).len() > 0 ==> strip_leading_colons(text)[0] != ':',
    decreases text.len(),
{
    if text.len() > 0 && text[0] == ':' {
        lemma_stripped_starts_without_colon(text.drop_first());
    }
}

/// Joining leaves no colon directly after another, and the joined text starts with a colon
/// only where the text starts with a single one.
pub proof fn lemma_joined_has_no_double_colon(text: Seq<char>)
    ensures
        free_of_double_colons(join_segments(text)),
        join_segments(text).len() > 0 && join_segments(text)[0] == ':' ==> {
            &&& text[0] == ':'
            &&& text.len() == 1 || text[1] != ':'
        },
        text.len() > 0 ==> join_segments(text).len() > 0,
    decreases text.len(),
{
    if text.len() > 0 {
        let joined = join_segments(text);
        let paired = text.len() >= 2 && text[0] == ':' && text[1] == ':';
        let tail = if paired { text.skip(2) } else { text.drop_first() };
        let rest = join_segments(tail);
        lemma_joined_has_no_double_colon(tail);
        assert forall|i: int| 0 <= i < joined.len() - 1 implies !(joined[i] == ':'
            && #[trigger] joined[i + 1] == ':') by {
            if i > 0 {
                assert(joined[i + 1] == rest[i - 1 + 1]);
            }
        }
    }
}

/// Joining changes nothing in a text that has no colon directly after another.
pub proof fn lemma_join_without_double_colon(text: Seq<char>)
    requires
        free_of_double_colons(text),
    ensures
        join_segments(text) == text,
    decreases text.len(),
{
    if text.len() > 0 {
        let tail = text.drop_first();
        assert(free_of_double_colons(tail));
        lemma_join_without_double_colon(tail);
    }
}

/// A normal form does not start with a colon and has no colon directly after another.
pub proof fn lemma_normal_form(text: Seq<char>)
    ensures
        normalized_id(text).len() > 0 ==> normalized_id(text)[0] != ':',
        free_of_double_colons(normalized_id(text)),
{
    lemma_stripped_starts_without_colon(text);
    lemma_joined_has_no_double_colon(strip_leading_colons(text));
}

/// A normal form is its own normal form: bringing an identifier into normal form twice gives
/// what doing it once gives.
pub proof fn lemma_normal_form_is_stable(text: Seq<char>)
    ensures
        normalized_id(normalized_id(text)) == normalized_id(text),
{
    lemma_normal_form(text);
    lemma_join_without_double_colon(normalized_id(text));
}

/// `String::push` appends the character to the end of the text.
#[verifier::external_body]
fn push_char(text: &mut String, c: char)
    ensures
        final(text)@ == old(text)@.push(c),
{
    text.push(c)
}

/// The characters of a text, in order.
fn chars_of(text: &str) -> (chars: Vec<char>)
    ensures
        chars@ == text@,
{
    let mut chars: Vec<char> = Vec::new();
    for c in it: text.chars()
        invariant
            it.seq() == text@,
            chars@ == it.seq().take(it.index() as int),
    {
        chars.push(c);
    }
    chars
}

/// Brings an operation identifier into its normal form.
pub fn normalize_operation_id(id: &str) -> (normalized: String)
    ensures
        normalized@ == normalized_id(id@),
{
    let chars = chars_of(id);
    let n: usize = chars.len();
    let mut i: usize = 0;
    assert(chars@.skip(0) =~= chars@);
    while i < n && chars[i] == ':'
        invariant
            i <= n,
            n == chars.len(),
            strip_leading_colons(chars@) == strip_leading_colons(chars@.skip(i as int)),
        decreases n - i,
    {
        assert(chars@.skip(i as int).drop_first() =~= chars@.skip(i + 1));
        i += 1;
    }
    let ghost stripped = chars@.skip(i as int);
    let mut normalized = String::new();
    while i < n
        invariant
            i <= n,
            n == chars.len(),
            normalized@ + join_segments(chars@.skip(i as int)) == join_segments(stripped),
        decreases n - i,
    {
        let ghost rest = chars@.skip(i as int);
        if chars[i] == ':' && i + 1 < n && chars[i + 1] == ':' {
            assert(rest.skip(2) =~= chars@.skip(i + 2));
            push_char(&mut normalized, '_');
            i += 2;
        } else {
            assert(rest.drop_first() =~= chars@.skip(i + 1));
            push_char(&mut normalized, chars[i]);
            i += 1;
        }
    }
    normalized
}

} // verus!
