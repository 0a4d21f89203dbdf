//! What the collector asks of a tool's output: whether it is text at all,
//! and whether anything but white space stands in it.

use vstd::prelude::*;
use vstd::string::StringSliceAdditionalSpecFns;
use vstd::utf8::{decode_utf8, encode_utf8_decode_utf8, valid_utf8};

verus! {

/// Whether `c` is white space: one of the 25 characters to which Unicode
/// gives the property `White_Space`.
pub open spec fn is_whitespace(c: char) -> bool {
    let code = c as u32;
    ||| 0x09 <= code <= 0x0d
    ||| code == 0x20
    ||| code == 0x85
    ||| code == 0xa0
    ||| code == 0x1680
    ||| 0x2000 <= code <= 0x200a
    ||| code == 0x2028
    ||| code == 0x2029
    ||| code == 0x202f
    ||| code == 0x205f
    ||| code == 0x3000
}

/// Whether `text` holds nothing but white space; the empty text does.
pub open spec fn is_blank(text: Seq<char>) -> bool {
    forall|i: int| 0 <= i < text.len() ==> is_whitespace(#[trigger] text[i])
}

/// `text` without the white space it starts with.
pub open spec fn trim_start(text: Seq<char>) -> Seq<char>
    decreases text.len(),
{
    if text.len() > 0 && is_whitespace(text[0]) {
        trim_start(text.drop_first())
    } else {
        text
    }
}

/// `text` without the white space it ends with.
pub open spec fn trim_end(text: Seq<char>) -> Seq<char>
    decreases text.len(),
{
    if text.len() > 0 && is_whitespace(text.last()) {
        trim_end(text.drop_last())
    } else {
        text
    }
}

/// `text` without the white space at either end.
pub open spec fn trimmed(text: Seq<char>) -> Seq<char> {
    trim_end(trim_start(text))
}

/// What is left of a text without its leading white space is empty, or
/// starts with something else; it is empty exactly where the text is blank.
pub proof fn lemma_trim_start(text: Seq<char>)
    ensures
        trim_start(text).len() == 0 <==> is_blank(text),
        trim_start(text).len() > 0 ==> !is_whitespace(trim_start(text)[0]),
    decreases text.len(),
{
    if text.len() > 0 && is_whitespace(text[0]) {
        let rest = text.drop_first();
        lemma_trim_start(rest);
        if is_blank(rest) {
            assert forall|i: int| 0 <= i < text.len() implies is_whitespace(
                #[trigger] text[i],
            ) by {
                if i > 0 {
                    assert(text[i] == rest[i - 1]);
                }
            }
        }
        if is_blank(text) {
            assert forall|i: int| 0 <= i < rest.len() implies is_whitespace(
                #[trigger] rest[i],
            ) by {
                assert(rest[i] == text[i + 1]);
            }
        }
    }
}

/// A text that starts with something other than white space keeps its start,
/// and so some length, when the white space at its end is taken away.
pub proof fn lemma_trim_end_keeps_start(text: Seq<char>)
    requires
        text.len() > 0,
        !is_whitespace(text[0]),
    ensures
        trim_end(text).len() > 0,
    decreases text.len(),
{
    if is_whitespace(text.last()) {
        let rest = text.drop_last();
        assert(rest.len() > 0);
        assert(rest[0] == text[0]);
        lemma_trim_end_keeps_start(rest);
    }
}

/// Nothing is left of a text once trimmed exactly where the text is blank.
pub proof fn lemma_trimmed_empty_iff_blank(text: Seq<char>)
    ensures
        trimmed(text).len() == 0 <==> is_blank(text),
{
    lemma_trim_start(text);
    let rest = trim_start(text);
    if rest.len() > 0 {
        lemma_trim_end_keeps_start(rest);
    }
}

/// Whether `c` is white space.
pub fn char_is_whitespace(c: char) -> (white: bool)
    ensures
        white == is_whitespace(c),
{
    let code: u32 = c as u32;
    (0x09 <= code && code <= 0x0d) || code == 0x20 || code == 0x85 || code == 0xa0 || code
        == 0x1680 || (0x2000 <= code && code <= 0x200a) || code == 0x2028 || code == 0x2029
        || code == 0x202f || code == 0x205f || code == 0x3000
}

/// Whether nothing is left of `text` once the white space at both ends is
/// taken away, which is to say that `text` holds nothing else.
pub fn text_is_blank(text: &str) -> (blank: bool)
    ensures
        blank == (trimmed(text@).len() == 0),
        blank == is_blank(text@),
{
    proof {
        lemma_trimmed_empty_iff_blank(text@);
    }
    for c in chars: text.chars()
        invariant
            chars.seq() == text@,
            trimmed(text@).len() == 0 <==> is_blank(text@),
            forall|i: int| 0 <= i < chars.index() ==> is_whitespace(#[trigger] text@[i]),
    {
        if !char_is_whitespace(c) {
            assert(!is_whitespace(text@[chars.index()]));
            return false;
        }
    }
    true
}

/// `core::str::from_utf8`, with its error dropped: `Some` exactly where
/// `bytes` is well-formed UTF-8, and then the string slice over these very
/// bytes.
#[verifier::external_body]
fn str_from_utf8(bytes: &[u8]) -> (text: Option<&str>)
    ensures
        text is Some <==> valid_utf8(bytes@),
        text matches Some(s) ==> s.spec_bytes() == bytes@,
{
    core::str::from_utf8(bytes).ok()
}

/// The text that `bytes` encodes in UTF-8; `None` where they encode none.
pub fn decode_text(bytes: &[u8]) -> (text: Option<&str>)
    ensures
        text is Some <==> valid_utf8(bytes@),
        text matches Some(s) ==> s@ == decode_utf8(bytes@),
{
    let text = str_from_utf8(bytes);
    proof {
        if let Some(s) = text {
            encode_utf8_decode_utf8(s@);
        }
    }
    text
}

} // verus!
