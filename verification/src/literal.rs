//! The source-level literals that a stamp file is made of: decimal numbers,
//! booleans and strings, each with the text it is written as and with what
//! that text is read back as.

use vstd::prelude::*;
use vstd::string::StringExecFns;

verus! {

/// The character that stands for the digit `d`.
pub open spec fn digit_char(d: nat) -> char
    recommends
        d < 10,
{
    if d == 0 {
        '0'
    } else if d == 1 {
        '1'
    } else if d == 2 {
        '2'
    } else if d == 3 {
        '3'
    } else if d == 4 {
        '4'
    } else if d == 5 {
        '5'
    } else if d == 6 {
        '6'
    } else if d == 7 {
        '7'
    } else if d == 8 {
        '8'
    } else {
        '9'
    }
}

/// The decimal numeral of `n`: no sign, no separators, no leading zero
/// except for zero itself.
pub open spec fn decimal(n: nat) -> Seq<char>
    decreases n,
{
    if n < 10 {
        seq![digit_char(n)]
    } else {
        decimal(n / 10).push(digit_char(n % 10))
    }
}

/// The number that the digit `c` stands for.
pub open spec fn digit_value(c: char) -> nat
    recommends
        is_digit(c),
{
    (c as u32 - '0' as u32) as nat
}

/// Whether `c` is one of the ten decimal digits.
pub open spec fn is_digit(c: char) -> bool {
    '0' <= c <= '9'
}

/// Whether `text` is a decimal numeral: one digit or more, and nothing else.
pub open spec fn is_decimal(text: Seq<char>) -> bool {
    &&& text.len() > 0
    &&& forall|i: int| 0 <= i < text.len() ==> is_digit(#[trigger] text[i])
}

/// The number that a decimal numeral is read as.
pub open spec fn decimal_value(text: Seq<char>) -> nat
    recommends
        is_decimal(text),
    decreases text.len(),
{
    if text.len() == 0 {
        0
    } else {
        decimal_value(text.drop_last()) * 10 + digit_value(text.last())
    }
}

/// A number written as a decimal numeral is read back as the same number.
pub proof fn lemma_decimal_round_trip(n: nat)
    ensures
        is_decimal(decimal(n)),
        decimal_value(decimal(n)) == n,
    decreases n,
{
    if n < 10 {
        let text = decimal(n);
        assert(text.drop_last() =~= Seq::<char>::empty());
        assert(decimal_value(text.drop_last()) == 0);
    } else {
        lemma_decimal_round_trip(n / 10);
        let head = decimal(n / 10);
        let text = decimal(n);
        assert(text.drop_last() =~= head);
        assert(text.last() == digit_char(n % 10));
    }
}

/// The one-character text of the digit `d`.
fn digit_text(d: u64) -> (text: &'static str)
    requires
        d < 10,
    ensures
        text@ == seq![digit_char(d as nat)],
{
    proof {
        reveal_strlit("0");
        reveal_strlit("1");
        reveal_strlit("2");
        reveal_strlit("3");
        reveal_strlit("4");
        reveal_strlit("5");
        reveal_strlit("6");
        reveal_strlit("7");
        reveal_strlit("8");
        reveal_strlit("9");
    }
    let text = if d == 0 {
        "0"
    } else if d == 1 {
        "1"
    } else if d == 2 {
        "2"
    } else if d == 3 {
        "3"
    } else if d == 4 {
        "4"
    } else if d == 5 {
        "5"
    } else if d == 6 {
        "6"
    } else if d == 7 {
        "7"
    } else if d == 8 {
        "8"
    } else {
        "9"
    };
    assert(text@ =~= seq![digit_char(d as nat)]);
    text
}

/// Appends the decimal numeral of `n` to `out`.
pub fn push_decimal(out: &mut String, n: u64)
    ensures
        final(out)@ == old(out)@ + decimal(n as nat),
    decreases n,
{
    if n >= 10 {
        push_decimal(out, n / 10);
    }
    out.append(digit_text(n % 10));
    assert(final(out)@ =~= old(out)@ + decimal(n as nat));
}

/// The decimal numeral of `n`, as `n.to_string()` writes it.
pub fn decimal_text(n: u64) -> (text: String)
    ensures
        text@ == decimal(n as nat),
{
    let mut text = String::new();
    push_decimal(&mut text, n);
    assert(text@ =~= decimal(n as nat));
    text
}

/// The text of a boolean literal.
pub open spec fn bool_literal(value: bool) -> Seq<char> {
    if value {
        "true"@
    } else {
        "false"@
    }
}

/// What a boolean literal is read as; `None` where `text` is none.
pub open spec fn bool_literal_value(text: Seq<char>) -> Option<bool> {
    if text == "true"@ {
        Some(true)
    } else if text == "false"@ {
        Some(false)
    } else {
        None
    }
}

/// A boolean written as a literal is read back as the same boolean.
pub proof fn lemma_bool_round_trip(value: bool)
    ensures
        bool_literal_value(bool_literal(value)) == Some(value),
{
    reveal_strlit("true");
    reveal_strlit("false");
    assert("true"@.len() == 4 && "false"@.len() == 5);
}

/// The text of the boolean literal for `value`.
pub fn bool_text(value: bool) -> (text: &'static str)
    ensures
        text@ == bool_literal(value),
{
    if value {
        "true"
    } else {
        "false"
    }
}

/// What opens a raw string literal with one hash.
pub open spec fn raw_string_open() -> Seq<char> {
    seq!['r', '#', '"']
}

/// What closes a raw string literal with one hash.
pub open spec fn raw_string_close() -> Seq<char> {
    seq!['"', '#']
}

/// The raw string literal, with one hash on each side, that holds `content`
/// as it stands: nothing in it is escaped.
pub open spec fn raw_string(content: Seq<char>) -> Seq<char> {
    raw_string_open() + content + raw_string_close()
}

/// Whether a quote followed by a hash stands at index `i` of `text`: the two
/// characters at which a reader ends a raw string of one hash.
pub open spec fn closes_at(text: Seq<char>, i: int) -> bool {
    &&& 0 <= i
    &&& i + 1 < text.len()
    &&& text[i] == '"'
    &&& text[i + 1] == '#'
}

/// Whether `content` comes through a raw string literal unchanged: it holds
/// no quote followed by a hash, which would end the literal early, and no
/// carriage return, which a source file may not hold in a raw string (alone)
/// or loses when it is loaded (before a line feed).
pub open spec fn survives_raw_string(content: Seq<char>) -> bool {
    &&& forall|i: int| !closes_at(content, i)
    &&& forall|i: int| 0 <= i < content.len() ==> content[i] != '\r'
}

/// Whether the first closing mark of `literal` behind its opening stands at `end`.
pub open spec fn first_close_at(literal: Seq<char>, end: int) -> bool {
    &&& 3 <= end
    &&& closes_at(literal, end)
    &&& forall|i: int| 3 <= i < end ==> !closes_at(literal, i)
}

/// What a raw string literal of one hash is read as: the characters between
/// its opening and the first closing mark. `None` where `literal` is not such
/// a literal and nothing more: it does not open as one, is not closed, goes
/// on behind its closing mark, or holds a carriage return.
pub open spec fn raw_string_content(literal: Seq<char>) -> Option<Seq<char>> {
    if literal.len() >= 5 && literal.subrange(0, 3) == raw_string_open() && exists|end: int|
        first_close_at(literal, end) {
        let end = choose|end: int| first_close_at(literal, end);
        let content = literal.subrange(3, end);
        if end + 2 == literal.len() && forall|i: int|
            0 <= i < content.len() ==> content[i] != '\r' {
            Some(content)
        } else {
            None
        }
    } else {
        None
    }
}

/// A text written as a raw string literal is read back as the same text
/// exactly where it holds neither a quote followed by a hash nor a carriage
/// return.
pub proof fn lemma_raw_string_round_trip(content: Seq<char>)
    ensures
        raw_string_content(raw_string(content)) == Some(content) <==> survives_raw_string(content),
{
    let literal = raw_string(content);
    let close = 3 + content.len() as int;
    assert(literal.len() == content.len() + 5);
    assert(literal.subrange(0, 3) =~= raw_string_open());
    assert(literal[close] == '"' && literal[close + 1] == '#');
    assert(literal.subrange(3, close) =~= content);
    if survives_raw_string(content) {
        assert forall|i: int| 3 <= i < close implies !closes_at(literal, i) by {
            assert(literal[i] == content[i - 3]);
            if i + 1 < close {
                assert(literal[i + 1] == content[i - 2]);
                assert(!closes_at(content, i - 3));
            } else {
                assert(literal[i + 1] == '"');
            }
        }
        assert(first_close_at(literal, close));
        let end = choose|end: int| first_close_at(literal, end);
        assert(end == close) by {
            if end < close {
                assert(!closes_at(literal, end));
            }
            if close < end {
                assert(!closes_at(literal, close));
            }
        }
    } else if exists|i: int| closes_at(content, i) {
        let i = choose|i: int| closes_at(content, i);
        assert(literal[i + 3] == content[i] && literal[i + 4] == content[i + 1]);
        assert(closes_at(literal, i + 3));
        if raw_string_content(literal) is Some {
            let end = choose|end: int| first_close_at(literal, end);
            assert(end <= i + 3) by {
                if i + 3 < end {
                    assert(!closes_at(literal, i + 3));
                }
            }
            assert(literal.subrange(3, end).len() < content.len());
        }
    }
}

/// Appends to `out` the raw string literal that holds `content`.
pub fn push_raw_string(out: &mut String, content: &str)
    ensures
        final(out)@ == old(out)@ + raw_string(content@),
{
    proof {
        reveal_strlit("r#\"");
        reveal_strlit("\"#");
    }
    out.append("r#\"");
    out.append(content);
    out.append("\"#");
    assert("r#\""@ =~= raw_string_open());
    assert("\"#"@ =~= raw_string_close());
    assert(final(out)@ =~= old(out)@ + raw_string(content@));
}

/// Whether `content` comes through a raw string literal unchanged.
pub fn text_survives_raw_string(content: &str) -> (survives: bool)
    ensures
        survives == survives_raw_string(content@),
{
    let mut after_quote = false;
    for c in chars: content.chars()
        invariant
            chars.seq() == content@,
            after_quote == (chars.index() > 0 && content@[chars.index() - 1] == '"'),
            forall|i: int| 0 <= i < chars.index() ==> content@[i] != '\r',
            forall|i: int| i + 1 < chars.index() ==> !closes_at(content@, i),
    {
        if c == '\r' {
            assert(content@[chars.index()] == '\r');
            return false;
        }
        if after_quote && c == '#' {
            assert(closes_at(content@, chars.index() - 1));
            return false;
        }
        after_quote = c == '"';
    }
    true
}

/// What stands for the character `c` between the quotes of a string
/// literal: a backslash and a second character for a backslash, a quote and
/// a carriage return, and `c` itself for every other character.
pub open spec fn escaped_char(c: char) -> Seq<char> {
    if c == '\\' {
        seq!['\\', '\\']
    } else if c == '"' {
        seq!['\\', '"']
    } else if c == '\r' {
        seq!['\\', 'r']
    } else {
        seq![c]
    }
}

/// What stands for `content` between the quotes of a string literal.
pub open spec fn escaped(content: Seq<char>) -> Seq<char>
    decreases content.len(),
{
    if content.len() == 0 {
        Seq::empty()
    } else {
        escaped_char(content[0]) + escaped(content.drop_first())
    }
}

/// The string literal in quotes that holds `content`, with its backslashes,
/// quotes and carriage returns escaped.
pub open spec fn quoted_string(content: Seq<char>) -> Seq<char> {
    seq!['"'] + escaped(content) + seq!['"']
}

/// The character that a backslash and `c` behind it are read as; `None`
/// where the literals written here hold no such pair.
pub open spec fn escape_value(c: char) -> Option<char> {
    if c == '\\' {
        Some('\\')
    } else if c == '"' {
        Some('"')
    } else if c == 'r' {
        Some('\r')
    } else {
        None
    }
}

/// What the characters between the quotes of a string literal are read as.
/// `None` where a quote or a carriage return stands there unescaped, or a
/// backslash is followed by nothing that `escape_value` knows.
pub open spec fn unescaped(body: Seq<char>) -> Option<Seq<char>>
    decreases body.len(),
{
    if body.len() == 0 {
        Some(Seq::empty())
    } else if body[0] == '\\' {
        if body.len() >= 2 && escape_value(body[1]) is Some {
            match unescaped(body.skip(2)) {
                Some(rest) => Some(seq![escape_value(body[1])->0] + rest),
                None => None,
            }
        } else {
            None
        }
    } else if body[0] == '"' || body[0] == '\r' {
        None
    } else {
        match unescaped(body.drop_first()) {
            Some(rest) => Some(seq![body[0]] + rest),
            None => None,
        }
    }
}

/// What a string literal in quotes is read as. `None` where `literal` is
/// not one literal and nothing more, or holds what `unescaped` does not read.
pub open spec fn quoted_string_content(literal: Seq<char>) -> Option<Seq<char>> {
    if literal.len() >= 2 && literal[0] == '"' && literal.last() == '"' {
        unescaped(literal.subrange(1, literal.len() - 1))
    } else {
        None
    }
}

/// What stands for a text with one more character is what stands for the
/// text, followed by what stands for the character.
pub proof fn lemma_escaped_push(content: Seq<char>, c: char)
    ensures
        escaped(content.push(c)) == escaped(content) + escaped_char(c),
    decreases content.len(),
{
    let longer = content.push(c);
    if content.len() == 0 {
        assert(longer.drop_first() =~= Seq::<char>::empty());
        assert(escaped(longer.drop_first()) =~= Seq::<char>::empty());
        assert(escaped(content) =~= Seq::<char>::empty());
        assert(escaped(longer) =~= escaped_char(c));
    } else {
        lemma_escaped_push(content.drop_first(), c);
        assert(longer.drop_first() =~= content.drop_first().push(c));
        assert(escaped(longer) =~= escaped(content) + escaped_char(c));
    }
}

/// An escaped text is read back as the text.
pub proof fn lemma_escaped_round_trip(content: Seq<char>)
    ensures
        unescaped(escaped(content)) == Some(content),
    decreases content.len(),
{
    if content.len() > 0 {
        let c = content[0];
        let rest = content.drop_first();
        let body = escaped(content);
        lemma_escaped_round_trip(rest);
        if c == '\\' || c == '"' || c == '\r' {
            assert(body.skip(2) =~= escaped(rest));
        } else {
            assert(body.drop_first() =~= escaped(rest));
        }
        assert(seq![c] + rest =~= content);
    }
}

/// A text written as a string literal in quotes is read back as the same text.
pub proof fn lemma_quoted_string_round_trip(content: Seq<char>)
    ensures
        quoted_string_content(quoted_string(content)) == Some(content),
{
    let literal = quoted_string(content);
    lemma_escaped_round_trip(content);
    assert(literal.subrange(1, literal.len() - 1) =~= escaped(content));
}

/// `String::push`: the character is added at the end of the string.
#[verifier::external_body]
fn string_push(out: &mut String, c: char)
    ensures
        final(out)@ == old(out)@.push(c),
{
    out.push(c);
}

/// Appends to `out` the string literal in quotes that holds `content`.
pub fn push_quoted_string(out: &mut String, content: &str)
    ensures
        final(out)@ == old(out)@ + quoted_string(content@),
{
    let ghost before = out@;
    proof {
        reveal_strlit("\"");
        reveal_strlit("\\\\");
        reveal_strlit("\\\"");
        reveal_strlit("\\r");
    }
    out.append("\"");
    assert(content@.take(0) =~= Seq::<char>::empty());
    for c in chars: content.chars()
        invariant
            chars.seq() == content@,
            out@ == before + seq!['"'] + escaped(content@.take(chars.index())),
            "\\\\"@ == seq!['\\', '\\'],
            "\\\""@ == seq!['\\', '"'],
            "\\r"@ == seq!['\\', 'r'],
    {
        proof {
            let done = content@.take(chars.index());
            lemma_escaped_push(done, c);
            assert(content@.take(chars.index() + 1) =~= done.push(c));
        }
        if c == '\\' {
            out.append("\\\\");
        } else if c == '"' {
            out.append("\\\"");
        } else if c == '\r' {
            out.append("\\r");
        } else {
            string_push(out, c);
        }
    }
    assert(content@.take(content@.len() as int) =~= content@);
    out.append("\"");
}

/// The literal that the text `content` is written as: the raw string that
/// holds it where it comes through one unchanged, the string in quotes with
/// escapes where it does not.
pub open spec fn text_literal(content: Seq<char>) -> Seq<char> {
    if survives_raw_string(content) {
        raw_string(content)
    } else {
        quoted_string(content)
    }
}

/// What a text literal is read as: as a raw string where it starts with
/// `r`, as a string in quotes where it does not.
pub open spec fn text_literal_value(literal: Seq<char>) -> Option<Seq<char>> {
    if literal.len() > 0 && literal[0] == 'r' {
        raw_string_content(literal)
    } else {
        quoted_string_content(literal)
    }
}

/// Every text, written as its literal, is read back as the same text.
pub proof fn lemma_text_literal_round_trip(content: Seq<char>)
    ensures
        text_literal_value(text_literal(content)) == Some(content),
{
    lemma_raw_string_round_trip(content);
    lemma_quoted_string_round_trip(content);
}

/// Appends to `out` the literal that the text `content` is written as.
pub fn push_text_literal(out: &mut String, content: &str)
    ensures
        final(out)@ == old(out)@ + text_literal(content@),
{
    if text_survives_raw_string(content) {
        push_raw_string(out, content);
    } else {
        push_quoted_string(out, content);
    }
}

} // verus!
