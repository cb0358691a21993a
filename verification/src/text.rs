//! One-line `key=value` text: how a line is composed, and how it reads back.
//!
//! A line is an event name followed by fields, each written as a space, the
//! key, `=` and the value. A value that is one plain printable-ASCII token is
//! written as it stands; any other value is quoted and escaped. The reader in
//! this module knows only that grammar, and recovers from a composed line the
//! event name and every key and value, whatever the values hold.
use vstd::prelude::*;

verus! {

/// A printable ASCII character other than the space.
pub open spec fn is_graphic(c: char) -> bool {
    '!' <= c <= '~'
}

/// A control character of ASCII; the line feed is one of them.
pub open spec fn is_control(c: char) -> bool {
    c < ' ' || c == '\x7f'
}

/// A character that a value written without quotes may hold.
pub open spec fn is_plain_char(c: char) -> bool {
    is_graphic(c) && c != '"' && c != '='
}

/// One plain token: not empty, and printable ASCII throughout, without a
/// space, a quote or an equals sign.
pub open spec fn is_plain(value: Seq<char>) -> bool {
    value.len() > 0 && forall|i: int| 0 <= i < value.len() ==> is_plain_char(#[trigger] value[i])
}

/// Text that stays on one line wherever it is printed.
pub open spec fn is_one_line(text: Seq<char>) -> bool {
    forall|i: int| 0 <= i < text.len() ==> !is_control(#[trigger] text[i])
}

/// Bytes that stay on one line wherever they are printed: none of them is a
/// control character of ASCII.
pub open spec fn is_one_line_utf8(bytes: Seq<u8>) -> bool {
    forall|i: int| 0 <= i < bytes.len() ==> #[trigger] bytes[i] >= 0x20 && bytes[i] != 0x7f
}

/// The position of the quote that ends a quoted text which is read from
/// position `i` on. A backslash takes the character after it along.
pub open spec fn closing_quote(text: Seq<char>, i: int) -> int
    decreases text.len() + 1 - i,
{
    if i >= text.len() || text[i] == '"' {
        i
    } else if text[i] == '\\' {
        closing_quote(text, i + 2)
    } else {
        closing_quote(text, i + 1)
    }
}

/// The text that `{:?}` prints for a string slice.
pub uninterp spec fn debug_quoted(value: Seq<char>) -> Seq<char>;

/// Formats a string slice with `format!("{:?}", value)`, that is by `str`'s
/// implementation of `Debug`: the value between double quotes, with the literal
/// escape code, as of `char::escape_debug`, for what cannot stand in a literal.
///
/// Taken on trust: the text depends on `value` alone; it opens with a double
/// quote, and the first quote after that one which no backslash escapes is its
/// last character; the control characters of ASCII are escaped, so none is left
/// in it; and the escapes lose nothing, so no other string has the same quoted
/// text. Which characters beyond ASCII are escaped is left unsaid.
#[verifier::external_body]
fn debug_quote(value: &str) -> (text: String)
    ensures
        text@ == debug_quoted(value@),
        text@.len() >= 2 && text@[0] == '"',
        closing_quote(text@, 1) == text@.len() - 1,
        is_one_line(text@),
        forall|other: Seq<char>| #[trigger] debug_quoted(other) == text@ ==> other == value@,
{
    format!("{:?}", value)
}

/// How a value is written after its `=`.
pub open spec fn value_text(value: Seq<char>) -> Seq<char> {
    if is_plain(value) {
        value
    } else {
        debug_quoted(value)
    }
}

/// A field as it stands in a line: a space, the key, `=` and the value.
pub open spec fn field_text(key: Seq<char>, value: Seq<char>) -> Seq<char> {
    seq![' '] + key + seq!['='] + value_text(value)
}

/// Fields one after the other.
pub open spec fn fields_text(fields: Seq<(Seq<char>, Seq<char>)>) -> Seq<char>
    decreases fields.len(),
{
    if fields.len() == 0 {
        Seq::empty()
    } else {
        field_text(fields[0].0, fields[0].1) + fields_text(fields.drop_first())
    }
}

/// A whole line: the event name, then its fields.
pub open spec fn line_text(event: Seq<char>, fields: Seq<(Seq<char>, Seq<char>)>) -> Seq<char> {
    event + fields_text(fields)
}

/// The first position from `i` on that holds `c`, or the end of the text.
pub open spec fn next_at(text: Seq<char>, c: char, i: int) -> int
    decreases text.len() - i,
{
    if i >= text.len() || text[i] == c {
        i
    } else {
        next_at(text, c, i + 1)
    }
}

/// How many characters of `text` belong to the value that it starts with.
pub open spec fn value_span(text: Seq<char>) -> int {
    if text.len() > 0 && text[0] == '"' {
        closing_quote(text, 1) + 1
    } else {
        next_at(text, ' ', 0)
    }
}

/// What a written value stands for.
pub open spec fn read_value(text: Seq<char>) -> Seq<char> {
    if text.len() > 0 && text[0] == '"' {
        choose|value: Seq<char>| #[trigger] debug_quoted(value) == text
    } else {
        text
    }
}

/// Splits the part of a line that follows the event name into fields. Each
/// field is a space, a key up to the next `=`, and a value that ends at the
/// next space or, where it is quoted, at its closing quote.
pub open spec fn read_fields(text: Seq<char>) -> Seq<(Seq<char>, Seq<char>)>
    decreases text.len(),
{
    let eq = next_at(text, '=', 0);
    if eq < 1 || eq >= text.len() {
        Seq::empty()
    } else {
        let key = text.subrange(1, eq);
        let tail = text.skip(eq + 1);
        let span = value_span(tail);
        if span < 0 || span > tail.len() {
            Seq::empty()
        } else {
            seq![(key, read_value(tail.take(span)))] + read_fields(tail.skip(span))
        }
    }
}

/// What a reader makes of a line: the token that it starts with, and its fields.
pub open spec fn read_line(line: Seq<char>) -> (Seq<char>, Seq<(Seq<char>, Seq<char>)>) {
    let end = next_at(line, ' ', 0);
    (line.take(end), read_fields(line.skip(end)))
}

/// That a value comes through being written: its text stays on one line, ends
/// where a reader takes it to end, and stands for this value and no other.
pub open spec fn is_readable(value: Seq<char>) -> bool {
    let text = value_text(value);
    &&& is_one_line(text)
    &&& read_value(text) == value
    &&& is_plain(value) || (text.len() >= 2 && text[0] == '"' && closing_quote(text, 1)
        == text.len() - 1)
}

/// Whether a value is one plain token, so that it is written without quotes.
fn is_plain_token(value: &str) -> (plain: bool)
    ensures
        plain == is_plain(value@),
{
    let mut all = true;
    for c in chars: value.chars()
        invariant
            chars.seq() == value@,
            all == forall|i: int| 0 <= i < chars.index() ==> is_plain_char(#[trigger] value@[i]),
    {
        if !('!' <= c && c <= '~' && c != '"' && c != '=') {
            all = false;
        }
    }
    !value.is_empty() && all
}

/// Appends ` key=value` to a line, quoting any value that is not one plain
/// printable-ASCII token, so that the line stays unambiguous to split.
pub fn push_field(line: &mut String, key: &str, value: &str)
    ensures
        final(line)@ == old(line)@ + field_text(key@, value@),
        value@.len() > 0 && (forall|i: int|
            0 <= i < value@.len() ==> '!' <= #[trigger] value@[i] <= '~' && value@[i] != '"'
                && value@[i] != '=') ==> final(line)@ == old(line)@ + seq![' '] + key@ + seq!['=']
            + value@,
        !(value@.len() > 0 && (forall|i: int|
            0 <= i < value@.len() ==> '!' <= #[trigger] value@[i] <= '~' && value@[i] != '"'
                && value@[i] != '=')) ==> final(line)@ == old(line)@ + seq![' '] + key@ + seq!['=']
            + debug_quoted(value@),
        is_readable(value@),
{
    proof {
        reveal_strlit(" ");
        reveal_strlit("=");
    }
    line.append(" ");
    line.append(key);
    line.append("=");
    if is_plain_token(value) {
        line.append(value);
        proof {
            lemma_plain_is_readable(value@);
        }
    } else {
        let text = debug_quote(value);
        line.append(text.as_str());
        proof {
            let read = read_value(text@);
            assert(debug_quoted(value@) == text@);
            assert(debug_quoted(read) == text@);
        }
    }
    assert(line@ =~= old(line)@ + field_text(key@, value@));
    proof {
        law_only_plain_tokens_stand_unquoted(value@);
        assert(old(line)@ + field_text(key@, value@) =~= old(line)@ + seq![' '] + key@ + seq!['=']
            + value_text(value@));
    }
}

/// A value stands as it is exactly where it is one token of printable ASCII
/// without a quote or an equals sign; any other value is quoted.
pub proof fn law_only_plain_tokens_stand_unquoted(value: Seq<char>)
    ensures
        value.len() > 0 && (forall|i: int|
            0 <= i < value.len() ==> '!' <= #[trigger] value[i] <= '~' && value[i] != '"'
                && value[i] != '=') ==> value_text(value) == value,
        value.len() == 0 ==> value_text(value) == debug_quoted(value),
        (exists|i: int|
            0 <= i < value.len() && (!('!' <= #[trigger] value[i] <= '~') || value[i] == '"'
                || value[i] == '=')) ==> value_text(value) == debug_quoted(value),
{
    if value.len() > 0 && (forall|i: int|
        0 <= i < value.len() ==> '!' <= #[trigger] value[i] <= '~' && value[i] != '"' && value[i]
            != '=') {
        assert forall|i: int| 0 <= i < value.len() implies is_plain_char(#[trigger] value[i]) by {}
    } else if value.len() > 0 {
        let i = choose|i: int|
            0 <= i < value.len() && (!('!' <= #[trigger] value[i] <= '~') || value[i] == '"'
                || value[i] == '=');
        assert(!is_plain_char(value[i]));
    }
}

/// A line is the event name, and for each field in its turn a space, the key,
/// an equals sign and the value as it is written.
pub proof fn law_line_layout(
    event: Seq<char>,
    fields: Seq<(Seq<char>, Seq<char>)>,
    key: Seq<char>,
    value: Seq<char>,
)
    ensures
        line_text(event, Seq::empty()) == event,
        line_text(event, fields.push((key, value))) == line_text(event, fields) + seq![' '] + key
            + seq!['='] + value_text(value),
{
    assert(line_text(event, Seq::empty()) =~= event);
    lemma_line_push(event, fields, key, value);
    assert(line_text(event, fields) + field_text(key, value) =~= line_text(event, fields) + seq![
        ' ',
    ] + key + seq!['='] + value_text(value));
}

/// A longer text holds the next `c` where the shorter one has it.
proof fn lemma_next_at(text: Seq<char>, tail: Seq<char>, c: char, i: int)
    requires
        0 <= i <= text.len(),
        forall|j: int| i <= j < text.len() ==> #[trigger] text[j] != c,
        tail.len() == 0 || tail[0] == c,
    ensures
        next_at(text + tail, c, i) == text.len(),
    decreases text.len() - i,
{
    let whole = text + tail;
    if i < text.len() {
        assert(whole[i] == text[i]);
        lemma_next_at(text, tail, c, i + 1);
    } else if tail.len() > 0 {
        assert(whole[i] == tail[0]);
    }
}

/// What follows a quoted text does not move its closing quote.
proof fn lemma_closing_quote(text: Seq<char>, tail: Seq<char>, i: int)
    requires
        0 <= i,
        closing_quote(text, i) < text.len(),
    ensures
        closing_quote(text + tail, i) == closing_quote(text, i),
    decreases text.len() + 1 - i,
{
    let whole = text + tail;
    if i < text.len() {
        assert(whole[i] == text[i]);
        if text[i] == '\\' {
            lemma_closing_quote(text, tail, i + 2);
        } else if text[i] != '"' {
            lemma_closing_quote(text, tail, i + 1);
        }
    }
}

/// A reader takes from the front of a text the field that was written there.
proof fn lemma_read_field(key: Seq<char>, value: Seq<char>, tail: Seq<char>)
    requires
        is_plain(key),
        is_readable(value),
        tail.len() == 0 || tail[0] == ' ',
    ensures
        read_fields(field_text(key, value) + tail) == seq![(key, value)] + read_fields(tail),
{
    let text = value_text(value);
    let lead = seq![' '] + key;
    let after = text + tail;
    let whole = field_text(key, value) + tail;
    assert(whole =~= lead + (seq!['='] + after));
    assert forall|j: int| 0 <= j < lead.len() implies #[trigger] lead[j] != '=' by {
        if j > 0 {
            assert(is_plain_char(key[j - 1]));
        }
    }
    lemma_next_at(lead, seq!['='] + after, '=', 0);
    assert(whole.subrange(1, lead.len() as int) =~= key);
    assert(whole.skip(lead.len() as int + 1) =~= after);
    if is_plain(value) {
        assert forall|j: int| 0 <= j < text.len() implies #[trigger] text[j] != ' ' by {
            assert(is_plain_char(value[j]));
        }
        assert(is_plain_char(value[0]));
        assert(after[0] == value[0]);
        lemma_next_at(text, tail, ' ', 0);
    } else {
        assert(after[0] == '"');
        lemma_closing_quote(text, tail, 1);
    }
    assert(after.take(text.len() as int) =~= text);
    assert(after.skip(text.len() as int) =~= tail);
}

/// Fields can be appended one at a time.
proof fn lemma_fields_push(
    fields: Seq<(Seq<char>, Seq<char>)>,
    key: Seq<char>,
    value: Seq<char>,
)
    ensures
        fields_text(fields.push((key, value))) == fields_text(fields) + field_text(key, value),
    decreases fields.len(),
{
    let longer = fields.push((key, value));
    if fields.len() == 0 {
        assert(longer.drop_first() =~= Seq::empty());
        assert(fields_text(longer.drop_first()) =~= Seq::empty());
        assert(fields_text(longer) =~= field_text(key, value));
        assert(fields_text(fields) + field_text(key, value) =~= field_text(key, value));
    } else {
        assert(longer.drop_first() =~= fields.drop_first().push((key, value)));
        lemma_fields_push(fields.drop_first(), key, value);
        assert(fields_text(longer) =~= fields_text(fields) + field_text(key, value));
    }
}

/// Appending a field's text to a line makes the line of one more field.
pub proof fn lemma_line_push(
    event: Seq<char>,
    fields: Seq<(Seq<char>, Seq<char>)>,
    key: Seq<char>,
    value: Seq<char>,
)
    ensures
        line_text(event, fields.push((key, value))) == line_text(event, fields) + field_text(
            key,
            value,
        ),
{
    lemma_fields_push(fields, key, value);
    assert(line_text(event, fields.push((key, value))) =~= line_text(event, fields) + field_text(
        key,
        value,
    ));
}

/// Readable fields under plain keys stay on one line, and a reader splits them
/// into exactly the keys and values that were written.
proof fn lemma_read_fields(fields: Seq<(Seq<char>, Seq<char>)>)
    requires
        forall|i: int| 0 <= i < fields.len() ==> is_plain((#[trigger] fields[i]).0),
        forall|i: int| 0 <= i < fields.len() ==> is_readable((#[trigger] fields[i]).1),
    ensures
        read_fields(fields_text(fields)) == fields,
        is_one_line(fields_text(fields)),
        fields.len() > 0 ==> fields_text(fields).len() > 0 && fields_text(fields)[0] == ' ',
        fields.len() == 0 ==> fields_text(fields).len() == 0,
    decreases fields.len(),
{
    if fields.len() == 0 {
        assert(read_fields(fields_text(fields)) =~= fields);
    } else {
        let (key, value) = fields[0];
        let rest = fields.drop_first();
        assert forall|i: int| 0 <= i < rest.len() implies is_plain((#[trigger] rest[i]).0)
            && is_readable(rest[i].1) by {
            assert(rest[i] == fields[i + 1]);
        }
        lemma_read_fields(rest);
        lemma_read_field(key, value, fields_text(rest));
        assert(seq![(key, value)] + rest =~= fields);
        let text = field_text(key, value);
        let whole = fields_text(fields);
        assert forall|i: int| 0 <= i < whole.len() implies !is_control(#[trigger] whole[i]) by {
            let lead = 1 + key.len();
            if 0 < i < lead {
                assert(is_plain_char(key[i - 1]));
            } else if lead < i < text.len() {
                assert(whole[i] == value_text(value)[i - lead - 1]);
            } else if i >= text.len() {
                assert(whole[i] == fields_text(rest)[i - text.len()]);
            }
        }
    }
}

/// A composed line is one line, and reads back as what it was composed from:
/// the event name and, in order, every key with its value. No value, whatever
/// it holds, can pass for another field, another value or a second line.
pub proof fn law_line_reads_back(event: Seq<char>, fields: Seq<(Seq<char>, Seq<char>)>)
    requires
        is_plain(event),
        forall|i: int| 0 <= i < fields.len() ==> is_plain((#[trigger] fields[i]).0),
        forall|i: int| 0 <= i < fields.len() ==> is_readable((#[trigger] fields[i]).1),
    ensures
        is_one_line(line_text(event, fields)),
        read_line(line_text(event, fields)) == (event, fields),
{
    let tail = fields_text(fields);
    let line = line_text(event, fields);
    lemma_read_fields(fields);
    assert forall|i: int| 0 <= i < event.len() implies #[trigger] event[i] != ' ' by {
        assert(is_plain_char(event[i]));
    }
    lemma_next_at(event, tail, ' ', 0);
    assert(line.take(event.len() as int) =~= event);
    assert(line.skip(event.len() as int) =~= tail);
    assert forall|i: int| 0 <= i < line.len() implies !is_control(#[trigger] line[i]) by {
        if i < event.len() {
            assert(is_plain_char(event[i]));
        } else {
            assert(line[i] == tail[i - event.len()]);
        }
    }
}

/// Encoding a text as UTF-8 keeps it on one line, and loses nothing.
pub proof fn law_utf8_keeps_one_line(text: Seq<char>)
    requires
        is_one_line(text),
    ensures
        is_one_line_utf8(vstd::utf8::encode_utf8(text)),
        vstd::utf8::decode_utf8(vstd::utf8::encode_utf8(text)) == text,
    decreases text.len(),
{
    vstd::utf8::encode_utf8_decode_utf8(text);
    if text.len() > 0 {
        let rest = text.drop_first();
        assert forall|i: int| 0 <= i < rest.len() implies !is_control(#[trigger] rest[i]) by {
            assert(rest[i] == text[i + 1]);
        }
        law_utf8_keeps_one_line(rest);
        assert(!is_control(text[0]));
        lemma_char_stays_printable(text[0]);
        let head = vstd::utf8::encode_scalar(text[0] as u32);
        let tail = vstd::utf8::encode_utf8(rest);
        let whole = vstd::utf8::encode_utf8(text);
        assert forall|i: int| 0 <= i < whole.len() implies #[trigger] whole[i] >= 0x20 && whole[i]
            != 0x7f by {
            if i < head.len() {
                assert(whole[i] == head[i]);
            } else {
                assert(whole[i] == tail[i - head.len()]);
            }
        }
    }
}

/// A character that is no control character is encoded without any.
proof fn lemma_char_stays_printable(c: char)
    requires
        !is_control(c),
    ensures
        is_one_line_utf8(vstd::utf8::encode_scalar(c as u32)),
{
    let scalar = c as u32;
    assert(vstd::utf8::has_width_1_encoding(scalar) ==> ({
        let byte = vstd::utf8::leading_byte_width_1(scalar);
        byte >= 0x20 && byte != 0x7f
    })) by (bit_vector)
        requires
            scalar >= 0x20,
            scalar != 0x7f,
    ;
    assert(vstd::utf8::leading_byte_width_2(scalar) >= 0x80) by (bit_vector);
    assert(vstd::utf8::leading_byte_width_3(scalar) >= 0x80) by (bit_vector);
    assert(vstd::utf8::leading_byte_width_4(scalar) >= 0x80) by (bit_vector);
    assert(vstd::utf8::last_continuation_byte(scalar) >= 0x80) by (bit_vector);
    assert(vstd::utf8::second_last_continuation_byte(scalar) >= 0x80) by (bit_vector);
    assert(vstd::utf8::third_last_continuation_byte(scalar) >= 0x80) by (bit_vector);
}

/// A plain value is readable by itself.
proof fn lemma_plain_is_readable(value: Seq<char>)
    requires
        is_plain(value),
    ensures
        is_readable(value),
{
    assert(is_plain_char(value[0]));
    assert forall|i: int| 0 <= i < value.len() implies !is_control(#[trigger] value[i]) by {
        assert(is_plain_char(value[i]));
    }
}

} // verus!
