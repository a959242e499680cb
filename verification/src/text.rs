//! Text that the lab prints, compares or files its results under.

use vstd::prelude::*;
use vstd::string::*;

verus! {

/// How a flag is written in names and messages.
pub open spec fn bool_text(flag: bool) -> Seq<char> {
    if flag {
        "true"@
    } else {
        "false"@
    }
}

/// Writes a flag as a word.
pub fn bool_str(flag: bool) -> (word: &'static str)
    ensures
        word@ == bool_text(flag),
{
    if flag {
        "true"
    } else {
        "false"
    }
}

/// The view of an optional text.
pub open spec fn optional_view(text: Option<String>) -> Option<Seq<char>> {
    match text {
        Some(text) => Some(text@),
        None => None,
    }
}

/// What `format!("{:?}")` writes for a string slice with these characters.
pub uninterp spec fn debug_literal(text: Seq<char>) -> Seq<char>;

/// Writes a string slice with the `Debug` impl of `str`.
///
/// Claimed of std: the output depends on the characters of the slice alone.
/// Which escapes it uses is left unsaid.
#[verifier::external_body]
pub(crate) fn debug_str(text: &str) -> (literal: String)
    ensures
        literal@ == debug_literal(text@),
{
    format!("{:?}", text)
}

/// How an optional text reads in a message: `None`, or `Some("..")` with the
/// text as a quoted literal.
pub open spec fn optional_literal(text: Option<Seq<char>>) -> Seq<char> {
    match text {
        Some(text) => "Some("@ + debug_literal(text) + ")"@,
        None => "None"@,
    }
}

/// Writes an optional text for a message.
pub fn write_optional(text: &Option<String>) -> (written: String)
    ensures
        written@ == optional_literal(optional_view(*text)),
{
    match text {
        Some(text) => {
            let mut written = String::from_str("Some(");
            written.append(debug_str(text.as_str()).as_str());
            written.append(")");
            written
        },
        None => String::from_str("None"),
    }
}

/// The characters with the Unicode property White_Space.
pub open spec fn is_white_space(c: char) -> bool {
    ||| '\u{9}' <= c <= '\u{d}'
    ||| c == '\u{20}'
    ||| c == '\u{85}'
    ||| c == '\u{a0}'
    ||| c == '\u{1680}'
    ||| '\u{2000}' <= c <= '\u{200a}'
    ||| c == '\u{2028}'
    ||| c == '\u{2029}'
    ||| c == '\u{202f}'
    ||| c == '\u{205f}'
    ||| c == '\u{3000}'
}

/// Whether a character counts as white space.
pub fn white_space(c: char) -> (yes: bool)
    ensures
        yes == is_white_space(c),
{
    ('\u{9}' <= c && c <= '\u{d}') || c == '\u{20}' || c == '\u{85}' || c == '\u{a0}' || c
        == '\u{1680}' || ('\u{2000}' <= c && c <= '\u{200a}') || c == '\u{2028}' || c == '\u{2029}'
        || c == '\u{202f}' || c == '\u{205f}' || c == '\u{3000}'
}

/// Whether a text consists of white space only.
pub open spec fn all_white_space(text: Seq<char>) -> bool {
    forall|i: int| 0 <= i < text.len() ==> is_white_space(#[trigger] text[i])
}

/// The characters of a string slice, in order.
pub fn characters(text: &str) -> (chars: Vec<char>)
    ensures
        chars@ == text@,
{
    let mut chars: Vec<char> = Vec::new();
    for c in iter: text.chars()
        invariant
            chars@ == iter.seq().take(iter.index()),
            iter.seq() == text@,
    {
        chars.push(c);
    }
    chars
}

/// A flag is written as the word for it, letter by letter.
pub proof fn law_flags_are_words(flag: bool)
    ensures
        flag ==> bool_text(flag) == seq!['t', 'r', 'u', 'e'],
        !flag ==> bool_text(flag) == seq!['f', 'a', 'l', 's', 'e'],
{
    reveal_strlit("true");
    reveal_strlit("false");
    assert("true"@ =~= seq!['t', 'r', 'u', 'e']);
    assert("false"@ =~= seq!['f', 'a', 'l', 's', 'e']);
}

/// An optional text is there or not, and keeps its characters, whatever they
/// are.
pub proof fn law_optional_text_is_kept(text: Option<String>)
    ensures
        optional_view(text) is Some <==> text is Some,
        text is Some ==> optional_view(text)->0 == text->0@,
{
}

/// In a message an optional text stands whole, as a quoted literal between
/// `Some(` and `)`, and a missing one is never taken for one that is there.
pub proof fn law_optional_text_is_written_whole(text: Seq<char>)
    ensures
        optional_literal(None) == seq!['N', 'o', 'n', 'e'],
        ({
            let written = optional_literal(Some(text));
            let literal = debug_literal(text);
            &&& written.len() == literal.len() + 6
            &&& written.take(5) == seq!['S', 'o', 'm', 'e', '(']
            &&& written.skip(5).drop_last() == literal
            &&& written.last() == ')'
        }),
{
    reveal_strlit("None");
    reveal_strlit("Some(");
    reveal_strlit(")");
    let written = optional_literal(Some(text));
    let literal = debug_literal(text);
    assert("None"@ =~= seq!['N', 'o', 'n', 'e']);
    assert(written.take(5) =~= seq!['S', 'o', 'm', 'e', '(']);
    assert(written.skip(5).drop_last() =~= literal);
}

/// The white space characters, one by one, by their code points. No other
/// character counts, such as the zero width space.
pub proof fn law_white_space_by_code_point(c: char)
    ensures
        is_white_space(c) <==> set![
            0x9int,
            0xa,
            0xb,
            0xc,
            0xd,
            0x20,
            0x85,
            0xa0,
            0x1680,
            0x2000,
            0x2001,
            0x2002,
            0x2003,
            0x2004,
            0x2005,
            0x2006,
            0x2007,
            0x2008,
            0x2009,
            0x200a,
            0x2028,
            0x2029,
            0x202f,
            0x205f,
            0x3000,
        ].contains(c as int),
{
}

/// A text is white space if each of its characters is, and the texts before and
/// after a place in it are then white space too. One character that is not spoils
/// it.
pub proof fn law_white_space_is_told_by_character(c: char, left: Seq<char>, right: Seq<char>)
    ensures
        all_white_space(Seq::empty()),
        all_white_space(seq![c]) <==> is_white_space(c),
        all_white_space(left + right) <==> all_white_space(left) && all_white_space(right),
{
    let whole = left + right;
    if all_white_space(seq![c]) {
        assert(is_white_space(seq![c][0]));
    }
    if all_white_space(whole) {
        assert forall|i: int| 0 <= i < left.len() implies is_white_space(#[trigger] left[i]) by {
            assert(whole[i] == left[i]);
        }
        assert forall|i: int| 0 <= i < right.len() implies is_white_space(#[trigger] right[i]) by {
            assert(whole[left.len() + i] == right[i]);
        }
    }
}

} // verus!
