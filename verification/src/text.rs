//! Text as it is typed, printed by other programs, and shown: trimming, lines and numbers.

use vstd::prelude::*;

verus! {

/// The texts of a list of strings.
pub open spec fn texts(list: Seq<String>) -> Seq<Seq<char>> {
    list.map_values(|item: String| item@)
}

/// The text of an optional string.
pub open spec fn optional_text(value: Option<String>) -> Option<Seq<char>> {
    match value {
        Some(value) => Some(value@),
        None => None,
    }
}

/// Whether a character has the Unicode property `White_Space`.
pub open spec fn is_space(c: char) -> bool {
    ||| '\u{9}' <= c <= '\u{d}'
    ||| c == ' '
    ||| c == '\u{85}'
    ||| c == '\u{a0}'
    ||| c == '\u{1680}'
    ||| '\u{2000}' <= c <= '\u{200a}'
    ||| c == '\u{2028}'
    ||| c == '\u{2029}'
    ||| c == '\u{202f}'
    ||| c == '\u{205f}'
    ||| c == '\u{3000}'
}

/// Tests whether a character is white space.
fn space(c: char) -> (result: bool)
    ensures
        result == is_space(c),
{
    ('\u{9}' <= c && c <= '\u{d}') || c == ' ' || c == '\u{85}' || c == '\u{a0}' || c
        == '\u{1680}' || ('\u{2000}' <= c && c <= '\u{200a}') || c == '\u{2028}' || c
        == '\u{2029}' || c == '\u{202f}' || c == '\u{205f}' || c == '\u{3000}'
}

/// What is taken off the two ends of a text.
#[derive(Clone, Copy, Debug)]
pub enum Strip {
    /// White space.
    Space,
    /// One character, as often as it occurs there.
    Only(char),
    /// White space, double quotes and single quotes, in any mixture.
    Around,
}

impl Strip {
    /// Whether a character at an end of a text is taken off.
    pub open spec fn takes(self, c: char) -> bool {
        match self {
            Strip::Space => is_space(c),
            Strip::Only(only) => c == only,
            Strip::Around => is_space(c) || c == '"' || c == '\'',
        }
    }

    /// Tests one character.
    pub fn matches_char(&self, c: char) -> (taken: bool)
        ensures
            taken == self.takes(c),
            match *self {
                Strip::Space => taken == is_space(c),
                Strip::Only(only) => taken == (c == only),
                Strip::Around => taken == (is_space(c) || c == '"' || c == '\''),
            },
    {
        match self {
            Strip::Space => space(c),
            Strip::Only(only) => c == *only,
            Strip::Around => space(c) || c == '"' || c == '\'',
        }
    }
}

/// A text without the characters at its start that are to be taken off.
pub open spec fn without_leading(text: Seq<char>, strip: Strip) -> Seq<char>
    decreases text.len(),
{
    if text.len() > 0 && strip.takes(text[0]) {
        without_leading(text.drop_first(), strip)
    } else {
        text
    }
}

/// A text without the characters at its end that are to be taken off.
pub open spec fn without_trailing(text: Seq<char>, strip: Strip) -> Seq<char>
    decreases text.len(),
{
    if text.len() > 0 && strip.takes(text.last()) {
        without_trailing(text.drop_last(), strip)
    } else {
        text
    }
}

/// A text without the characters at both ends that are to be taken off.
pub open spec fn stripped(text: Seq<char>, strip: Strip) -> Seq<char> {
    without_trailing(without_leading(text, strip), strip)
}

/// A path as it is given, taken out of its wrapping: white space, then double quotes, then single
/// quotes, then white space again are taken off both ends.
pub open spec fn cleaned(text: Seq<char>) -> Seq<char> {
    stripped(
        stripped(stripped(stripped(text, Strip::Space), Strip::Only('"')), Strip::Only('\'')),
        Strip::Space,
    )
}

/// Takes characters off both ends of a text: what is left stands in the text, nothing but such
/// characters stands before it and after it, and it neither begins nor ends with one.
pub fn strip_ends(text: &str, strip: Strip) -> (inner: &str)
    ensures
        inner@ == stripped(text@, strip),
        exists|from: int, to: int|
            {
                &&& 0 <= from <= to <= text@.len()
                &&& inner@ == #[trigger] text@.subrange(from, to)
                &&& forall|i: int| 0 <= i < from ==> strip.takes(#[trigger] text@[i])
                &&& forall|i: int| to <= i < text@.len() ==> strip.takes(#[trigger] text@[i])
                &&& from < to ==> !strip.takes(text@[from]) && !strip.takes(text@[to - 1])
            },
{
    let len: usize = text.unicode_len();
    let mut from: usize = 0;
    assert(text@.subrange(0, len as int) =~= text@);
    while from < len && strip.matches_char(text.get_char(from))
        invariant
            from <= len,
            len == text@.len(),
            forall|i: int| 0 <= i < from ==> strip.takes(#[trigger] text@[i]),
            without_leading(text@, strip) == without_leading(
                text@.subrange(from as int, len as int),
                strip,
            ),
        decreases len - from,
    {
        assert(text@.subrange(from as int, len as int).drop_first() =~= text@.subrange(
            from + 1,
            len as int,
        ));
        from = from + 1;
    }
    let mut to: usize = len;
    assert(without_leading(text@, strip) == text@.subrange(from as int, to as int));
    while from < to && strip.matches_char(text.get_char(to - 1))
        invariant
            from <= to <= len,
            len == text@.len(),
            forall|i: int| to <= i < len ==> strip.takes(#[trigger] text@[i]),
            from < len ==> !strip.takes(text@[from as int]),
            stripped(text@, strip) == without_trailing(
                text@.subrange(from as int, to as int),
                strip,
            ),
        decreases to - from,
    {
        assert(text@.subrange(from as int, to as int).drop_last() =~= text@.subrange(
            from as int,
            to - 1,
        ));
        to = to - 1;
    }
    text.substring_char(from, to)
}

/// Takes a path out of its wrapping: first white space, then double quotes, then single quotes,
/// then white space again.
pub fn clean(line: &str) -> (value: String)
    ensures
        value@ == cleaned(line@),
{
    let trimmed = strip_ends(line, Strip::Space);
    let unquoted = strip_ends(strip_ends(trimmed, Strip::Only('"')), Strip::Only('\''));
    strip_ends(unquoted, Strip::Space).to_owned()
}

/// What a user answered with a line: the line without the white space and quotes at its ends.
pub open spec fn answered(line: Seq<char>) -> Seq<char> {
    stripped(line, Strip::Around)
}

/// Takes the white space and quotes off both ends of a typed line: a path dropped onto a
/// terminal comes in quotes on some systems.
pub fn answer(line: &str) -> (value: String)
    ensures
        value@ == answered(line@),
        is_clean(value@),
{
    proof {
        lemma_stripped_ends(line@, Strip::Around);
    }
    strip_ends(line, Strip::Around).to_owned()
}

/// Whether nothing but white space stands in a text.
pub open spec fn is_blank(text: Seq<char>) -> bool {
    forall|i: int| 0 <= i < text.len() ==> is_space(#[trigger] text[i])
}

/// Tests whether nothing but white space stands in a text.
pub fn blank(text: &str) -> (result: bool)
    ensures
        result == is_blank(text@),
        result == forall|i: int| 0 <= i < text@.len() ==> is_space(#[trigger] text@[i]),
{
    let len: usize = text.unicode_len();
    let mut at: usize = 0;
    while at < len
        invariant
            at <= len,
            len == text@.len(),
            forall|i: int| 0 <= i < at ==> is_space(#[trigger] text@[i]),
        decreases len - at,
    {
        if !Strip::Space.matches_char(text.get_char(at)) {
            return false;
        }
        at = at + 1;
    }
    true
}

/// Where the first line of a text ends: at its first line feed, or else at its end.
pub open spec fn line_end(text: Seq<char>) -> nat
    decreases text.len(),
{
    if text.len() == 0 || text[0] == '\n' {
        0
    } else {
        1 + line_end(text.drop_first())
    }
}

/// The first line of a text, without its line feed and without a carriage return before that
/// line feed. An empty text has no line.
pub open spec fn head_line(text: Seq<char>) -> Option<Seq<char>> {
    let end = line_end(text) as int;
    if text.len() == 0 {
        None
    } else if 0 < end < text.len() && text[end - 1] == '\r' {
        Some(text.take(end - 1))
    } else {
        Some(text.take(end))
    }
}

/// Finds the first line of a text.
pub fn first_line(text: &str) -> (line: Option<String>)
    ensures
        optional_text(line) == head_line(text@),
{
    let len: usize = text.unicode_len();
    if len == 0 {
        return None;
    }
    let mut end: usize = 0;
    assert(text@.skip(0) =~= text@);
    while end < len && text.get_char(end) != '\n'
        invariant
            end <= len,
            len == text@.len(),
            line_end(text@) == end + line_end(text@.skip(end as int)),
        decreases len - end,
    {
        assert(text@.skip(end as int).drop_first() =~= text@.skip(end + 1));
        end = end + 1;
    }
    assert(line_end(text@) == end);
    if 0 < end && end < len && text.get_char(end - 1) == '\r' {
        assert(text@.take(end - 1) =~= text@.subrange(0, end - 1));
        Some(text.substring_char(0, end - 1).to_owned())
    } else {
        assert(text@.take(end as int) =~= text@.subrange(0, end as int));
        Some(text.substring_char(0, end).to_owned())
    }
}

/// A decimal digit.
pub open spec fn digit_text(digit: int) -> Seq<char> {
    "0123456789"@.subrange(digit, digit + 1)
}

/// A number in decimal, without leading zeros.
pub open spec fn decimal_text(number: nat) -> Seq<char>
    decreases number,
{
    if number < 10 {
        digit_text(number as int)
    } else {
        decimal_text(number / 10) + digit_text((number % 10) as int)
    }
}

/// A number in decimal, with a minus sign before it where it is negative.
pub open spec fn signed_text(number: int) -> Seq<char> {
    if number < 0 {
        "-"@ + decimal_text((-number) as nat)
    } else {
        decimal_text(number as nat)
    }
}

/// Writes one digit.
fn digit(number: u64) -> (text: &'static str)
    requires
        number < 10,
    ensures
        text@ == digit_text(number as int),
{
    let at: usize = number as usize;
    proof {
        reveal_strlit("0123456789");
    }
    "0123456789".substring_char(at, at + 1)
}

/// Writes a number in decimal.
pub fn decimal(number: u64) -> (text: String)
    ensures
        text@ == decimal_text(number as nat),
    decreases number,
{
    if number < 10 {
        digit(number).to_owned()
    } else {
        decimal(number / 10).concat(digit(number % 10))
    }
}

/// Writes a signed number in decimal.
pub fn signed_decimal(number: i32) -> (text: String)
    ensures
        text@ == signed_text(number as int),
{
    let wide: i64 = number as i64;
    if wide < 0 {
        let magnitude: u64 = (-wide) as u64;
        "-".to_owned().concat(decimal(magnitude).as_str())
    } else {
        decimal(wide as u64)
    }
}

/// The texts of a list with a separator between each two.
pub open spec fn joined_texts(list: Seq<Seq<char>>, separator: Seq<char>) -> Seq<char>
    decreases list.len(),
{
    if list.len() == 0 {
        Seq::empty()
    } else if list.len() == 1 {
        list[0]
    } else {
        joined_texts(list.drop_last(), separator) + separator + list.last()
    }
}

/// Puts the texts of a list in a row, with a separator between each two.
pub fn join_texts(list: &Vec<String>, separator: &str) -> (text: String)
    ensures
        text@ == joined_texts(texts(list@), separator@),
{
    let mut text = String::new();
    let mut at: usize = 0;
    while at < list.len()
        invariant
            at <= list.len(),
            text@ == joined_texts(texts(list@).take(at as int), separator@),
        decreases list.len() - at,
    {
        let ghost before = texts(list@).take(at as int);
        let ghost after = texts(list@).take(at + 1);
        assert(after.drop_last() =~= before);
        assert(after.last() == list@[at as int]@);
        if at > 0 {
            text.append(separator);
        }
        text.append(list[at].as_str());
        assert(text@ =~= joined_texts(after, separator@));
        at = at + 1;
    }
    assert(texts(list@).take(at as int) =~= texts(list@));
    text
}

/// Appends a text to a list.
pub fn push_text(list: &mut Vec<String>, text: &str)
    ensures
        texts(final(list)@) == texts(old(list)@).push(text@),
{
    list.push(text.to_owned());
    assert(texts(list@) =~= texts(old(list)@).push(text@));
}

/// Stripping leaves nothing at either end that it takes off.
proof fn lemma_stripped_ends(text: Seq<char>, strip: Strip)
    ensures
        stripped(text, strip).len() > 0 ==> !strip.takes(stripped(text, strip)[0]),
        stripped(text, strip).len() > 0 ==> !strip.takes(stripped(text, strip).last()),
{
    lemma_leading_end(text, strip);
    lemma_trailing_ends(without_leading(text, strip), strip);
}

proof fn lemma_leading_end(text: Seq<char>, strip: Strip)
    ensures
        without_leading(text, strip).len() > 0 ==> !strip.takes(without_leading(text, strip)[0]),
    decreases text.len(),
{
    if text.len() > 0 && strip.takes(text[0]) {
        lemma_leading_end(text.drop_first(), strip);
    }
}

proof fn lemma_trailing_ends(text: Seq<char>, strip: Strip)
    ensures
        ({
            let rest = without_trailing(text, strip);
            &&& rest.len() > 0 ==> !strip.takes(rest.last()) && text.len() > 0 && rest[0] == text[0]
        }),
    decreases text.len(),
{
    if text.len() > 0 && strip.takes(text.last()) {
        lemma_trailing_ends(text.drop_last(), strip);
    }
}

/// Whether stripping takes nothing off a text.
pub open spec fn is_stripped(text: Seq<char>, strip: Strip) -> bool {
    text.len() > 0 ==> !strip.takes(text[0]) && !strip.takes(text.last())
}

/// Whether stripping takes off every character of a text.
pub open spec fn is_all_taken(text: Seq<char>, strip: Strip) -> bool {
    forall|i: int| 0 <= i < text.len() ==> strip.takes(#[trigger] text[i])
}

/// Stripping takes off what stands around a text, and no more.
proof fn lemma_stripped_around(
    before: Seq<char>,
    inner: Seq<char>,
    after: Seq<char>,
    strip: Strip,
)
    requires
        is_all_taken(before, strip),
        is_all_taken(after, strip),
        is_stripped(inner, strip),
    ensures
        stripped(before + inner + after, strip) == inner,
    decreases before.len() + after.len(),
{
    let whole = before + inner + after;
    if before.len() > 0 {
        assert(whole[0] == before[0]);
        assert(whole.drop_first() =~= before.drop_first() + inner + after);
        lemma_stripped_around(before.drop_first(), inner, after, strip);
    } else if after.len() > 0 {
        assert(whole =~= inner + after);
        if inner.len() > 0 {
            assert(whole[0] == inner[0]);
            assert(without_leading(whole, strip) == whole);
            assert(whole.last() == after.last());
            assert(whole.drop_last() =~= before + inner + after.drop_last());
            lemma_stripped_around(before, inner, after.drop_last(), strip);
            assert(whole.drop_last()[0] == inner[0]);
            assert(without_leading(whole.drop_last(), strip) == whole.drop_last());
        } else {
            assert(whole =~= after);
            assert(whole.drop_first() =~= before + inner + after.drop_first());
            assert(whole[0] == after[0]);
            lemma_stripped_around(before, inner, after.drop_first(), strip);
        }
    } else {
        assert(whole =~= inner);
    }
}

/// Whether neither white space nor a quote stands at either end of a text.
pub open spec fn is_clean(text: Seq<char>) -> bool {
    &&& is_stripped(text, Strip::Space)
    &&& is_stripped(text, Strip::Only('"'))
    &&& is_stripped(text, Strip::Only('\''))
}

proof fn lemma_stripped_kept(text: Seq<char>, strip: Strip)
    requires
        is_stripped(text, strip),
    ensures
        stripped(text, strip) == text,
{
}

/// A path with nothing around it is kept as it is.
pub proof fn law_clean_values_are_kept(value: Seq<char>)
    requires
        is_clean(value),
    ensures
        cleaned(value) == value,
{
    lemma_stripped_kept(value, Strip::Space);
    lemma_stripped_kept(value, Strip::Only('"'));
    lemma_stripped_kept(value, Strip::Only('\''));
}

/// A value in quotes, of either kind, with white space around the quotes and inside them, is the
/// value alone.
pub proof fn law_quotes_are_taken_off(
    before: Seq<char>,
    quote: char,
    left: Seq<char>,
    value: Seq<char>,
    right: Seq<char>,
    after: Seq<char>,
)
    requires
        is_blank(before),
        is_blank(left),
        is_blank(right),
        is_blank(after),
        is_clean(value),
        quote == '"' || quote == '\'',
    ensures
        cleaned(before + (seq![quote] + (left + value + right) + seq![quote]) + after) == value,
{
    let padded = left + value + right;
    let in_quotes = seq![quote] + padded + seq![quote];
    assert(in_quotes[0] == quote && in_quotes.last() == quote);
    if padded.len() > 0 {
        assert(padded[0] == if left.len() > 0 {
            left[0]
        } else if value.len() > 0 {
            value[0]
        } else {
            right[0]
        });
        assert(padded.last() == if right.len() > 0 {
            right.last()
        } else if value.len() > 0 {
            value.last()
        } else {
            left.last()
        });
    }
    assert(is_stripped(padded, Strip::Only('"')));
    assert(is_stripped(padded, Strip::Only('\'')));
    lemma_stripped_around(before, in_quotes, after, Strip::Space);
    lemma_stripped_around(seq![quote], padded, seq![quote], Strip::Only(quote));
    if quote == '\'' {
        lemma_stripped_kept(in_quotes, Strip::Only('"'));
    } else {
        lemma_stripped_kept(padded, Strip::Only('\''));
    }
    lemma_stripped_around(left, value, right, Strip::Space);
}

/// A value with nothing but white space and quotes around it, in whatever mixture, is answered
/// by the value alone.
pub proof fn law_answers_are_unwrapped(before: Seq<char>, value: Seq<char>, after: Seq<char>)
    requires
        is_all_taken(before, Strip::Around),
        is_all_taken(after, Strip::Around),
        is_clean(value),
    ensures
        answered(before + value + after) == value,
{
    lemma_stripped_around(before, value, after, Strip::Around);
}

/// A line with nothing but white space and quotes in it is no answer.
pub proof fn law_wrapping_alone_is_no_answer(line: Seq<char>)
    requires
        is_all_taken(line, Strip::Around),
    ensures
        answered(line) == Seq::<char>::empty(),
{
    let empty = Seq::<char>::empty();
    assert(line + empty + empty =~= line);
    law_answers_are_unwrapped(line, empty, empty);
}

/// An answer has neither white space nor a quote at its ends, and is kept as it is when it is
/// taken for an answer or a path once more.
pub proof fn law_answers_are_clean(line: Seq<char>)
    ensures
        is_clean(answered(line)),
        answered(answered(line)) == answered(line),
        cleaned(answered(line)) == answered(line),
{
    lemma_stripped_ends(line, Strip::Around);
    lemma_stripped_kept(answered(line), Strip::Around);
    law_clean_values_are_kept(answered(line));
}

/// Whether a text is another one with characters around it that stripping takes off.
spec fn is_wrapped(text: Seq<char>, inner: Seq<char>, strip: Strip) -> bool {
    exists|before: Seq<char>, after: Seq<char>|
        #![trigger is_all_taken(before, strip), is_all_taken(after, strip)]
        is_all_taken(before, strip) && is_all_taken(after, strip) && text == before + inner + after
}

proof fn lemma_leading_wrapped(text: Seq<char>, strip: Strip) -> (before: Seq<char>)
    ensures
        is_all_taken(before, strip),
        text == before + without_leading(text, strip),
    decreases text.len(),
{
    if text.len() > 0 && strip.takes(text[0]) {
        let rest = lemma_leading_wrapped(text.drop_first(), strip);
        let before = seq![text[0]] + rest;
        assert(text =~= seq![text[0]] + text.drop_first());
        assert(seq![text[0]] + (rest + without_leading(text, strip)) =~= before + without_leading(
            text,
            strip,
        ));
        before
    } else {
        let before = Seq::<char>::empty();
        assert(text =~= before + text);
        before
    }
}

proof fn lemma_trailing_wrapped(text: Seq<char>, strip: Strip) -> (after: Seq<char>)
    ensures
        is_all_taken(after, strip),
        text == without_trailing(text, strip) + after,
    decreases text.len(),
{
    if text.len() > 0 && strip.takes(text.last()) {
        let rest = lemma_trailing_wrapped(text.drop_last(), strip);
        let after = rest.push(text.last());
        assert(text =~= text.drop_last().push(text.last()));
        assert((without_trailing(text, strip) + rest).push(text.last()) =~= without_trailing(
            text,
            strip,
        ) + after);
        after
    } else {
        let after = Seq::<char>::empty();
        assert(text =~= text + after);
        after
    }
}

/// Stripping one kind leaves a text inside wrapping of a wider kind.
proof fn lemma_stripped_inside(text: Seq<char>, whole: Seq<char>, strip: Strip)
    requires
        is_wrapped(whole, text, Strip::Around),
        forall|c: char| #[trigger] strip.takes(c) ==> Strip::Around.takes(c),
    ensures
        is_wrapped(whole, stripped(text, strip), Strip::Around),
{
    let (before, after) = choose|before: Seq<char>, after: Seq<char>|
        #![trigger is_all_taken(before, Strip::Around), is_all_taken(after, Strip::Around)]
        is_all_taken(before, Strip::Around) && is_all_taken(after, Strip::Around) && whole
            == before + text + after;
    let left = lemma_leading_wrapped(text, strip);
    let right = lemma_trailing_wrapped(without_leading(text, strip), strip);
    assert(is_all_taken(before + left, Strip::Around));
    assert(is_all_taken(right + after, Strip::Around));
    assert(whole =~= (before + left) + stripped(text, strip) + (right + after));
}

/// Where taking a path out of its wrapping leaves neither white space nor a quote at its ends,
/// an answer is the same as the path.
pub proof fn law_answers_agree_with_paths(line: Seq<char>)
    requires
        is_clean(cleaned(line)),
    ensures
        answered(line) == cleaned(line),
{
    let empty = Seq::<char>::empty();
    assert(is_all_taken(empty, Strip::Around));
    assert(line =~= empty + line + empty);
    let first = stripped(line, Strip::Space);
    let second = stripped(first, Strip::Only('"'));
    let third = stripped(second, Strip::Only('\''));
    lemma_stripped_inside(line, line, Strip::Space);
    lemma_stripped_inside(first, line, Strip::Only('"'));
    lemma_stripped_inside(second, line, Strip::Only('\''));
    lemma_stripped_inside(third, line, Strip::Space);
    let (before, after) = choose|before: Seq<char>, after: Seq<char>|
        #![trigger is_all_taken(before, Strip::Around), is_all_taken(after, Strip::Around)]
        is_all_taken(before, Strip::Around) && is_all_taken(after, Strip::Around) && line == before
            + cleaned(line) + after;
    law_answers_are_unwrapped(before, cleaned(line), after);
}

/// A path with nothing but white space in it is empty.
pub proof fn law_blank_paths_are_empty(line: Seq<char>)
    requires
        is_blank(line),
    ensures
        cleaned(line) == Seq::<char>::empty(),
{
    let empty = Seq::<char>::empty();
    assert(line + empty + empty =~= line);
    lemma_stripped_around(line, empty, empty, Strip::Space);
    law_clean_values_are_kept(empty);
}

/// A path taken out of its wrapping neither begins nor ends with white space.
pub proof fn law_cleaned_paths_are_trimmed(line: Seq<char>)
    ensures
        is_stripped(cleaned(line), Strip::Space),
{
    lemma_stripped_ends(
        stripped(stripped(stripped(line, Strip::Space), Strip::Only('"')), Strip::Only('\'')),
        Strip::Space,
    );
}

proof fn lemma_line_end(text: Seq<char>)
    ensures
        line_end(text) <= text.len(),
        forall|i: int| 0 <= i < line_end(text) ==> text[i] != '\n',
    decreases text.len(),
{
    if text.len() > 0 && text[0] != '\n' {
        lemma_line_end(text.drop_first());
        assert forall|i: int| 0 <= i < line_end(text) implies text[i] != '\n' by {
            if i > 0 {
                assert(text[i] == text.drop_first()[i - 1]);
            }
        }
    }
}

/// The first line of a text is where the text begins, and holds no line feed.
pub proof fn law_first_line_is_one_line(text: Seq<char>)
    requires
        text.len() > 0,
    ensures
        head_line(text) is Some,
        head_line(text)->0.is_prefix_of(text),
        !head_line(text)->0.contains('\n'),
{
    lemma_line_end(text);
}

proof fn lemma_digit(a: int, b: int)
    requires
        0 <= a < 10,
        0 <= b < 10,
    ensures
        digit_text(a).len() == 1,
        digit_text(a) == digit_text(b) ==> a == b,
{
    reveal_strlit("0123456789");
    assert(digit_text(a)[0] == "0123456789"@[a]);
    assert(digit_text(b)[0] == "0123456789"@[b]);
}

/// No two numbers are written alike.
pub proof fn law_decimal_is_unambiguous(a: nat, b: nat)
    requires
        decimal_text(a) == decimal_text(b),
    ensures
        a == b,
    decreases a,
{
    lemma_decimal_len(a);
    lemma_decimal_len(b);
    if a < 10 || b < 10 {
        lemma_digit((a % 10) as int, (b % 10) as int);
        lemma_digit((b % 10) as int, (a % 10) as int);
    } else {
        let (x, y) = (decimal_text(a / 10), decimal_text(b / 10));
        lemma_digit((a % 10) as int, (b % 10) as int);
        lemma_digit((b % 10) as int, (a % 10) as int);
        assert(decimal_text(a).drop_last() =~= x);
        assert(decimal_text(b).drop_last() =~= y);
        law_decimal_is_unambiguous(a / 10, b / 10);
        assert(decimal_text(a).skip(x.len() as int) =~= digit_text((a % 10) as int));
        assert(decimal_text(b).skip(y.len() as int) =~= digit_text((b % 10) as int));
    }
}

proof fn lemma_decimal_len(a: nat)
    ensures
        decimal_text(a).len() >= 1,
        a >= 10 <==> decimal_text(a).len() >= 2,
    decreases a,
{
    lemma_digit((a % 10) as int, 0);
    if a >= 10 {
        lemma_decimal_len(a / 10);
    }
}

/// A list of strings tells the text of each of them, in order.
pub proof fn law_texts_tell_every_string(list: Seq<String>)
    ensures
        texts(list).len() == list.len(),
        forall|i: int|
            #![trigger texts(list)[i]]
            #![trigger list[i]]
            0 <= i < list.len() ==> texts(list)[i] == list[i]@,
{
}

/// An optional string tells its text, where there is one.
pub proof fn law_optional_texts_tell_the_string(value: String)
    ensures
        optional_text(Some(value)) == Some(value@),
        optional_text(None) is None,
{
}

/// Whatever stands between characters that are taken off, and neither begins nor ends with one,
/// is what stripping leaves.
pub proof fn law_stripping_leaves_what_stands_between(
    before: Seq<char>,
    inner: Seq<char>,
    after: Seq<char>,
    strip: Strip,
)
    requires
        forall|i: int| 0 <= i < before.len() ==> strip.takes(#[trigger] before[i]),
        forall|i: int| 0 <= i < after.len() ==> strip.takes(#[trigger] after[i]),
        inner.len() > 0 ==> !strip.takes(inner[0]) && !strip.takes(inner.last()),
    ensures
        stripped(before + inner + after, strip) == inner,
{
    lemma_stripped_around(before, inner, after, strip);
}

/// What a user typed between white space and quotes, in whatever mixture, is the answer.
pub proof fn law_answers_stand_between_white_space_and_quotes(
    before: Seq<char>,
    value: Seq<char>,
    after: Seq<char>,
)
    requires
        forall|i: int|
            0 <= i < before.len() ==> is_space(#[trigger] before[i]) || before[i] == '"'
                || before[i] == '\'',
        forall|i: int|
            0 <= i < after.len() ==> is_space(#[trigger] after[i]) || after[i] == '"' || after[i]
                == '\'',
        value.len() > 0 ==> {
            &&& !is_space(value[0]) && value[0] != '"' && value[0] != '\''
            &&& !is_space(value.last()) && value.last() != '"' && value.last() != '\''
        },
    ensures
        answered(before + value + after) == value,
{
    law_stripping_leaves_what_stands_between(before, value, after, Strip::Around);
}

/// A path is what stands inside white space, inside single quotes, inside double quotes, inside
/// white space. Each layer may be missing, and ends where another character stands.
pub proof fn law_paths_are_unwrapped_layer_by_layer(
    outer: (Seq<char>, Seq<char>),
    double: (Seq<char>, Seq<char>),
    single: (Seq<char>, Seq<char>),
    inner: (Seq<char>, Seq<char>),
    value: Seq<char>,
)
    requires
        forall|i: int| 0 <= i < outer.0.len() ==> is_space(#[trigger] outer.0[i]),
        forall|i: int| 0 <= i < outer.1.len() ==> is_space(#[trigger] outer.1[i]),
        forall|i: int| 0 <= i < double.0.len() ==> #[trigger] double.0[i] == '"',
        forall|i: int| 0 <= i < double.1.len() ==> #[trigger] double.1[i] == '"',
        forall|i: int| 0 <= i < single.0.len() ==> #[trigger] single.0[i] == '\'',
        forall|i: int| 0 <= i < single.1.len() ==> #[trigger] single.1[i] == '\'',
        forall|i: int| 0 <= i < inner.0.len() ==> is_space(#[trigger] inner.0[i]),
        forall|i: int| 0 <= i < inner.1.len() ==> is_space(#[trigger] inner.1[i]),
        value.len() > 0 ==> !is_space(value[0]) && !is_space(value.last()),
        ({
            let padded = inner.0 + value + inner.1;
            let quoted = single.0 + padded + single.1;
            let twice = double.0 + quoted + double.1;
            &&& padded.len() > 0 ==> padded[0] != '\'' && padded.last() != '\''
            &&& quoted.len() > 0 ==> quoted[0] != '"' && quoted.last() != '"'
            &&& twice.len() > 0 ==> !is_space(twice[0]) && !is_space(twice.last())
        }),
    ensures
        cleaned(
            outer.0 + (double.0 + (single.0 + (inner.0 + value + inner.1) + single.1) + double.1)
                + outer.1,
        ) == value,
{
    let padded = inner.0 + value + inner.1;
    let quoted = single.0 + padded + single.1;
    let twice = double.0 + quoted + double.1;
    law_stripping_leaves_what_stands_between(outer.0, twice, outer.1, Strip::Space);
    law_stripping_leaves_what_stands_between(double.0, quoted, double.1, Strip::Only('"'));
    law_stripping_leaves_what_stands_between(single.0, padded, single.1, Strip::Only('\''));
    law_stripping_leaves_what_stands_between(inner.0, value, inner.1, Strip::Space);
}

proof fn lemma_line_ends_at(line: Seq<char>, rest: Seq<char>)
    requires
        !line.contains('\n'),
        rest.len() > 0 ==> rest[0] == '\n',
    ensures
        line_end(line + rest) == line.len(),
    decreases line.len(),
{
    let whole = line + rest;
    if line.len() > 0 {
        assert(whole[0] == line[0]);
        assert(line.contains(line[0]));
        assert(whole.drop_first() =~= line.drop_first() + rest);
        assert forall|c: char| line.drop_first().contains(c) implies line.contains(c) by {
            let i = choose|i: int| 0 <= i < line.drop_first().len() && line.drop_first()[i] == c;
            assert(line[i + 1] == c);
        }
        lemma_line_ends_at(line.drop_first(), rest);
    } else {
        assert(whole =~= rest);
    }
}

/// The first line is what stands before the first line feed, without a carriage return right
/// before that. A text without a line feed is one line as it stands, and an empty one has none.
pub proof fn law_first_line_stands_before_the_line_feed(line: Seq<char>, rest: Seq<char>)
    requires
        !line.contains('\n'),
    ensures
        head_line(line) == if line.len() > 0 {
            Some(line)
        } else {
            None
        },
        head_line(line + seq!['\n'] + rest) == Some(
            if line.len() > 0 && line.last() == '\r' {
                line.drop_last()
            } else {
                line
            },
        ),
{
    lemma_line_ends_at(line, Seq::empty());
    assert(line + Seq::<char>::empty() =~= line);
    assert(line.take(line.len() as int) =~= line);
    let tail = seq!['\n'] + rest;
    lemma_line_ends_at(line, tail);
    let whole = line + seq!['\n'] + rest;
    assert(whole =~= line + tail);
    assert(whole.take(line.len() as int) =~= line);
    if line.len() > 0 {
        assert(whole[line.len() - 1] == line.last());
        assert(whole.take(line.len() - 1) =~= line.drop_last());
    }
}

/// A number is written digit by digit: one below ten by its digit, and any other by its tens
/// followed by its last digit. A negative number has a minus sign before its magnitude.
pub proof fn law_numbers_are_written_digit_by_digit(tens: nat, digit: nat)
    requires
        digit < 10,
    ensures
        decimal_text(digit).len() == 1,
        decimal_text(digit)[0] as int == '0' as int + digit,
        tens > 0 ==> decimal_text(10 * tens + digit) == decimal_text(tens) + decimal_text(digit),
        signed_text(tens as int) == decimal_text(tens),
        tens > 0 ==> signed_text(-tens) == seq!['-'] + decimal_text(tens),
{
    reveal_strlit("0123456789");
    reveal_strlit("-");
    assert(decimal_text(digit)[0] == "0123456789"@[digit as int]);
    assert(seq!['-'] =~= "-"@);
    if tens > 0 {
        assert((10 * tens + digit) / 10 == tens);
        assert((10 * tens + digit) % 10 == digit);
    }
}

/// A row of texts grows by the separator and the next text.
pub proof fn law_rows_grow_by_one_text(
    list: Seq<Seq<char>>,
    separator: Seq<char>,
    next: Seq<char>,
)
    ensures
        joined_texts(seq![], separator) == Seq::<char>::empty(),
        joined_texts(seq![next], separator) == next,
        list.len() > 0 ==> joined_texts(list.push(next), separator) == joined_texts(list, separator)
            + separator + next,
{
    assert(list.push(next).drop_last() =~= list);
}

} // verus!
