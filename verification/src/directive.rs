//! The text of filter directives, made fit for the parser.
//!
//! A directive text is a list of pieces separated by commas. The parser
//! measures each piece without the white space around it and then cuts the
//! piece as it was given, so a piece that begins with white space is cut at
//! the wrong places, and, where the text holds characters of more than one
//! byte, possibly inside one of them. A text is handed to the parser only
//! where that cannot happen: where every character is ASCII, or where no
//! piece begins with white space. `prepare` leaves a text of the first kind
//! as it is and removes the white space at the head of each piece of any
//! other.

use vstd::prelude::*;
use vstd::string::{StrSliceExecFns, StringExecFns};
use vstd::utf8::is_ascii_chars;

verus! {

/// The characters with the Unicode property White_Space: those that trimming
/// a string removes.
pub open spec fn is_white_space(c: char) -> bool {
    ||| '\u{9}' <= c <= '\u{d}'
    ||| c == ' '
    ||| c == '\u{85}'
    ||| c == '\u{a0}'
    ||| c == '\u{1680}'
    ||| '\u{2000}' <= c <= '\u{200a}'
    ||| c == '\u{2028}'
    ||| c == '\u{2029}'
    ||| c == '\u{202f}'
    ||| c == '\u{205f}'
    ||| c == '\u{3000}'
}

/// Whether a piece begins at position `i` of `text`: at the start of the text
/// and after each comma.
pub open spec fn piece_begins(text: Seq<char>, i: int) -> bool {
    i == 0 || text[i - 1] == ','
}

/// No piece of the text begins with white space.
pub open spec fn leads_cleanly(text: Seq<char>) -> bool {
    forall|i: int| 0 <= i < text.len() && piece_begins(text, i) ==> !is_white_space(#[trigger] text[i])
}

/// The parser cuts every piece of the text where it measured: all of the
/// text is ASCII, or no piece begins with white space.
pub open spec fn fit_for_parser(text: Seq<char>) -> bool {
    is_ascii_chars(text) || leads_cleanly(text)
}

/// The text without the white space at the head of its pieces; `at_head`
/// says whether the text starts at the head of a piece.
pub open spec fn without_leading_space(text: Seq<char>, at_head: bool) -> Seq<char>
    decreases text.len(),
{
    if text.len() == 0 {
        text
    } else if at_head && is_white_space(text[0]) {
        without_leading_space(text.drop_first(), true)
    } else {
        seq![text[0]] + without_leading_space(text.drop_first(), text[0] == ',')
    }
}

/// The text that is handed to the parser for `text`.
pub open spec fn prepared(text: Seq<char>) -> Seq<char> {
    if is_ascii_chars(text) {
        text
    } else {
        without_leading_space(text, true)
    }
}

/// After the white space at the head of its pieces is removed, a text has a
/// piece that begins with white space only at its start, and only where the
/// text does not start at the head of a piece.
proof fn lemma_heads_are_clean(text: Seq<char>, at_head: bool)
    ensures
        forall|i: int|
            0 <= i < without_leading_space(text, at_head).len() && (if i == 0 {
                at_head
            } else {
                without_leading_space(text, at_head)[i - 1] == ','
            }) ==> !is_white_space(#[trigger] without_leading_space(text, at_head)[i]),
    decreases text.len(),
{
    let whole = without_leading_space(text, at_head);
    if text.len() == 0 {
        assert(whole.len() == 0);
    } else if at_head && is_white_space(text[0]) {
        lemma_heads_are_clean(text.drop_first(), true);
        assert(whole == without_leading_space(text.drop_first(), true));
    } else {
        let rest = without_leading_space(text.drop_first(), text[0] == ',');
        lemma_heads_are_clean(text.drop_first(), text[0] == ',');
        assert(whole == seq![text[0]] + rest);
        assert forall|i: int|
            0 <= i < whole.len() && (if i == 0 {
                at_head
            } else {
                whole[i - 1] == ','
            }) implies !is_white_space(#[trigger] whole[i]) by {
            if i == 0 {
                assert(whole[0] == text[0]);
            } else if i == 1 {
                assert(whole[0] == text[0]);
                assert(whole[1] == rest[0]);
            } else {
                assert(whole[i] == rest[i - 1]);
                assert(whole[i - 1] == rest[i - 2]);
            }
        }
    }
}

/// Every prepared text is fit for the parser.
pub proof fn prepared_is_fit(text: Seq<char>)
    ensures
        fit_for_parser(prepared(text)),
{
    if !is_ascii_chars(text) {
        lemma_heads_are_clean(text, true);
    }
}

/// A text in which no piece begins with white space loses nothing when the
/// white space at the head of its pieces is removed.
pub proof fn clean_text_is_kept(text: Seq<char>)
    requires
        leads_cleanly(text),
    ensures
        without_leading_space(text, true) == text,
{
    lemma_clean_suffix_is_kept(text, true);
}

proof fn lemma_clean_suffix_is_kept(text: Seq<char>, at_head: bool)
    requires
        forall|i: int|
            0 <= i < text.len() && (if i == 0 {
                at_head
            } else {
                text[i - 1] == ','
            }) ==> !is_white_space(#[trigger] text[i]),
    ensures
        without_leading_space(text, at_head) == text,
    decreases text.len(),
{
    if text.len() > 0 {
        let rest = text.drop_first();
        assert forall|i: int|
            0 <= i < rest.len() && (if i == 0 {
                text[0] == ','
            } else {
                rest[i - 1] == ','
            }) implies !is_white_space(#[trigger] rest[i]) by {
            assert(rest[i] == text[i + 1]);
        }
        lemma_clean_suffix_is_kept(rest, text[0] == ',');
        assert(seq![text[0]] + rest =~= text);
    }
}

/// Whether `c` is white space.
pub fn white_space(c: char) -> (yes: bool)
    ensures
        yes == is_white_space(c),
{
    ('\u{9}' <= c && c <= '\u{d}') || c == ' ' || c == '\u{85}' || c == '\u{a0}' || c
        == '\u{1680}' || ('\u{2000}' <= c && c <= '\u{200a}') || c == '\u{2028}' || c
        == '\u{2029}' || c == '\u{202f}' || c == '\u{205f}' || c == '\u{3000}'
}

/// Removes the white space at the head of each piece of `text`.
pub fn strip_piece_heads(text: &str) -> (stripped: String)
    ensures
        stripped@ == without_leading_space(text@, true),
        leads_cleanly(stripped@),
{
    let length = text.unicode_len();
    let mut stripped = String::new();
    let mut at_head = true;
    let mut i: usize = 0;
    proof {
        assert(text@.subrange(0, length as int) =~= text@);
        assert(stripped@ + without_leading_space(text@, true) =~= without_leading_space(
            text@,
            true,
        ));
    }
    while i < length
        invariant
            i <= length,
            length == text@.len(),
            without_leading_space(text@, true) == stripped@ + without_leading_space(
                text@.subrange(i as int, length as int),
                at_head,
            ),
        decreases length - i,
    {
        let c = text.get_char(i);
        proof {
            let tail = text@.subrange(i as int, length as int);
            assert(tail[0] == c);
            assert(tail.drop_first() =~= text@.subrange(i + 1, length as int));
        }
        if !(at_head && white_space(c)) {
            let ghost before = stripped@;
            stripped.append(text.substring_char(i, i + 1));
            at_head = c == ',';
            proof {
                assert(text@.subrange(i as int, i + 1) =~= seq![c]);
                assert(stripped@ + without_leading_space(
                    text@.subrange(i + 1, length as int),
                    at_head,
                ) =~= before + (seq![c] + without_leading_space(
                    text@.subrange(i + 1, length as int),
                    at_head,
                )));
            }
        }
        i += 1;
    }
    proof {
        assert(text@.subrange(length as int, length as int) =~= Seq::<char>::empty());
        assert(stripped@ + Seq::<char>::empty() =~= stripped@);
        lemma_heads_are_clean(text@, true);
    }
    stripped
}

/// Makes a text fit for the parser: a text of ASCII alone is kept as it is,
/// any other loses the white space at the head of each piece.
pub fn prepare(text: &str) -> (fit: String)
    ensures
        fit@ == prepared(text@),
        fit_for_parser(fit@),
{
    proof {
        prepared_is_fit(text@);
    }
    if text.is_ascii() {
        String::from_str(text)
    } else {
        strip_piece_heads(text)
    }
}

} // verus!
