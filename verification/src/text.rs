//! Small text routines with contracts over the characters of a string.

#[allow(unused_imports)]
use vstd::prelude::*;
use vstd::string::{StrSliceExecFns, StringExecFns};

verus! {

/// `String::push` of the standard library appends one character.
pub assume_specification[ String::push ](text: &mut String, c: char)
    ensures
        final(text)@ == old(text)@.push(c),
;

/// The decimal digit `d` as a character.
pub open spec fn digit_char(d: nat) -> char
    recommends
        d < 10,
{
    (48 + d) as char
}

/// The decimal numeral of `n`, without leading zeros.
pub open spec fn decimal_text(n: nat) -> Seq<char>
    decreases n,
{
    if n < 10 {
        seq![digit_char(n)]
    } else {
        decimal_text(n / 10).push(digit_char(n % 10))
    }
}

/// The decimal numeral of a signed number.
pub open spec fn signed_decimal_text(n: int) -> Seq<char> {
    if n < 0 {
        seq!['-'] + decimal_text((-n) as nat)
    } else {
        decimal_text(n as nat)
    }
}

/// Writes `n` in decimal.
pub fn decimal(n: u64) -> (text: String)
    ensures
        text@ == decimal_text(n as nat),
    decreases n,
{
    let mut text = if n < 10 { String::new() } else { decimal(n / 10) };
    let digit: u8 = (n % 10) as u8;
    text.push((48u8 + digit) as char);
    text
}

/// Writes `n` in decimal with a leading minus sign when it is negative.
pub fn signed_decimal(n: i32) -> (text: String)
    ensures
        text@ == signed_decimal_text(n as int),
{
    if n < 0 {
        let magnitude: u64 = (-(n as i64)) as u64;
        let mut text = String::new();
        text.push('-');
        let digits = decimal(magnitude);
        text.append(digits.as_str());
        text
    } else {
        decimal(n as u64)
    }
}

/// The concatenation of two pieces of text.
pub fn join(left: &str, right: &str) -> (text: String)
    ensures
        text@ == left@ + right@,
{
    let mut text = left.to_owned();
    text.append(right);
    text
}

/// Copies an optional string.
pub fn clone_text(text: &Option<String>) -> (copy: Option<String>)
    ensures
        copy == *text,
        copy.deep_view() == text.deep_view(),
{
    match text {
        Some(value) => Some(value.clone()),
        None => None,
    }
}

/// The characters that Unicode lists as white space.
pub open spec fn is_whitespace_char(c: char) -> bool {
    let code = c as u32;
    ||| 0x09 <= code <= 0x0d
    ||| code == 0x20
    ||| code == 0x85
    ||| code == 0xa0
    ||| code == 0x1680
    ||| 0x2000 <= code <= 0x200a
    ||| code == 0x2028
    ||| code == 0x2029
    ||| code == 0x202f
    ||| code == 0x205f
    ||| code == 0x3000
}

/// The control characters of Unicode.
pub open spec fn is_control_char(c: char) -> bool {
    let code = c as u32;
    code <= 0x1f || 0x7f <= code <= 0x9f
}

/// Every character is white space.
pub open spec fn all_whitespace(text: Seq<char>) -> bool {
    forall|i: int| 0 <= i < text.len() ==> is_whitespace_char(#[trigger] text[i])
}

/// Whether `c` is white space.
pub fn is_whitespace(c: char) -> (is: bool)
    ensures
        is == is_whitespace_char(c),
{
    let code: u32 = c as u32;
    (0x09 <= code && code <= 0x0d) || code == 0x20 || code == 0x85 || code == 0xa0 || code == 0x1680
        || (0x2000 <= code && code <= 0x200a) || code == 0x2028 || code == 0x2029 || code == 0x202f
        || code == 0x205f || code == 0x3000
}

/// Whether `c` is a control character.
pub fn is_control(c: char) -> (is: bool)
    ensures
        is == is_control_char(c),
{
    let code: u32 = c as u32;
    code <= 0x1f || (0x7f <= code && code <= 0x9f)
}

/// The characters of a string, one by one.
pub fn chars_of(text: &str) -> (chars: Vec<char>)
    ensures
        chars@ == text@,
{
    let mut chars: Vec<char> = Vec::new();
    for c in iter: text.chars()
        invariant
            iter.seq() == text@,
            chars@ == text@.take(iter.index() as int),
    {
        chars.push(c);
        assert(text@.take(iter.index() as int + 1) =~= text@.take(iter.index() as int).push(c));
    }
    assert(text@.take(text@.len() as int) =~= text@);
    chars
}

/// A string made of the characters from `from` up to `to`.
pub fn text_of(chars: &Vec<char>, from: usize, to: usize) -> (text: String)
    requires
        from <= to <= chars@.len(),
    ensures
        text@ == chars@.subrange(from as int, to as int),
{
    let mut text = String::new();
    let mut index: usize = from;
    while index < to
        invariant
            from <= index <= to <= chars@.len(),
            text@ == chars@.subrange(from as int, index as int),
        decreases to - index,
    {
        text.push(chars[index]);
        proof {
            assert(chars@.subrange(from as int, index as int + 1) =~= chars@.subrange(
                from as int,
                index as int,
            ).push(chars@[index as int]));
        }
        index = index + 1;
    }
    assert(chars@.subrange(from as int, to as int) =~= text@);
    text
}

/// Whether `text` holds nothing but white space.
pub fn is_blank(text: &str) -> (blank: bool)
    ensures
        blank == all_whitespace(text@),
{
    let chars = chars_of(text);
    let mut index: usize = 0;
    while index < chars.len()
        invariant
            index <= chars@.len(),
            chars@ == text@,
            forall|i: int| 0 <= i < index ==> is_whitespace_char(#[trigger] chars@[i]),
        decreases chars@.len() - index,
    {
        if !is_whitespace(chars[index]) {
            assert(!is_whitespace_char(text@[index as int]));
            return false;
        }
        index = index + 1;
    }
    true
}

/// Whether `text` begins with `c`.
pub fn starts_with_char(text: &str, c: char) -> (starts: bool)
    ensures
        starts == (text@.len() > 0 && text@[0] == c),
{
    if text.is_empty() {
        return false;
    }
    text.get_char(0) == c
}

/// Whether `c` occurs in `text`.
pub fn contains_char(text: &str, c: char) -> (found: bool)
    ensures
        found == text@.contains(c),
{
    let chars = chars_of(text);
    let mut index: usize = 0;
    while index < chars.len()
        invariant
            index <= chars@.len(),
            chars@ == text@,
            forall|i: int| 0 <= i < index ==> chars@[i] != c,
        decreases chars@.len() - index,
    {
        if chars[index] == c {
            assert(text@[index as int] == c);
            return true;
        }
        index = index + 1;
    }
    false
}

/// How many bytes `text` occupies.
pub fn byte_len(text: &str) -> (bytes: usize)
    ensures
        bytes == vstd::utf8::encode_utf8(text@).len(),
{
    text.as_bytes().len()
}

/// A string occupies at least one byte for every character.
pub proof fn bytes_cover_chars(text: Seq<char>)
    ensures
        vstd::utf8::encode_utf8(text).len() >= text.len(),
    decreases text.len(),
{
    if text.len() > 0 {
        bytes_cover_chars(text.drop_first());
    }
}

/// Whether some character satisfies `test`.
pub open spec fn any_char(text: Seq<char>, test: spec_fn(char) -> bool) -> bool {
    exists|i: int| 0 <= i < text.len() && test(#[trigger] text[i])
}

/// Whether a control character occurs in `text`.
pub fn has_control(text: &str) -> (found: bool)
    ensures
        found == any_char(text@, |c: char| is_control_char(c)),
{
    let chars = chars_of(text);
    let ghost test = |c: char| is_control_char(c);
    let mut index: usize = 0;
    while index < chars.len()
        invariant
            index <= chars@.len(),
            chars@ == text@,
            test == (|c: char| is_control_char(c)),
            forall|i: int| 0 <= i < index ==> !test(#[trigger] chars@[i]),
        decreases chars@.len() - index,
    {
        if is_control(chars[index]) {
            assert(test(text@[index as int]));
            return true;
        }
        index = index + 1;
    }
    false
}

/// Whether white space occurs in `text`.
pub fn has_whitespace(text: &str) -> (found: bool)
    ensures
        found == any_char(text@, |c: char| is_whitespace_char(c)),
{
    let chars = chars_of(text);
    let ghost test = |c: char| is_whitespace_char(c);
    let mut index: usize = 0;
    while index < chars.len()
        invariant
            index <= chars@.len(),
            chars@ == text@,
            test == (|c: char| is_whitespace_char(c)),
            forall|i: int| 0 <= i < index ==> !test(#[trigger] chars@[i]),
        decreases chars@.len() - index,
    {
        if is_whitespace(chars[index]) {
            assert(test(text@[index as int]));
            return true;
        }
        index = index + 1;
    }
    false
}

/// `text` without the brackets around it, where it has both.
pub open spec fn unbracketed(text: Seq<char>) -> Seq<char> {
    if text.len() >= 2 && text[0] == '[' && text.last() == ']' {
        text.subrange(1, text.len() - 1)
    } else {
        text
    }
}

/// Removes one pair of brackets around `text`.
pub fn strip_brackets(text: &str) -> (stripped: String)
    ensures
        stripped@ == unbracketed(text@),
{
    let chars = chars_of(text);
    let length: usize = chars.len();
    if length >= 2 && chars[0] == '[' && chars[length - 1] == ']' {
        text_of(&chars, 1, length - 1)
    } else {
        text.to_owned()
    }
}

/// How a string literal would show `text`, quoted and escaped.
pub uninterp spec fn debug_quoted(text: Seq<char>) -> Seq<char>;

/// The `Debug` formatting of a string in the standard library gives what
/// [`debug_quoted`] names.
#[verifier::external_body]
pub(crate) fn quote(text: &str) -> (quoted: String)
    ensures
        quoted@ == debug_quoted(text@),
{
    format!("{:?}", text)
}

/// The pieces of `text` between occurrences of `separator`, in order. There
/// is always one piece more than there are separators.
pub open spec fn split(text: Seq<char>, separator: char) -> Seq<Seq<char>>
    decreases text.len(),
{
    if text.len() == 0 {
        seq![Seq::<char>::empty()]
    } else {
        let before = split(text.drop_last(), separator);
        if text.last() == separator {
            before.push(Seq::empty())
        } else {
            before.drop_last().push(before.last().push(text.last()))
        }
    }
}

/// The characters of each piece.
pub open spec fn pieces_view(pieces: Seq<String>) -> Seq<Seq<char>> {
    Seq::new(pieces.len(), |i: int| pieces[i]@)
}

/// Splitting gives at least one piece.
pub proof fn split_is_nonempty(text: Seq<char>, separator: char)
    ensures
        split(text, separator).len() >= 1,
    decreases text.len(),
{
    if text.len() > 0 {
        split_is_nonempty(text.drop_last(), separator);
    }
}

/// Splits `text` at every `separator`.
pub fn split_text(text: &str, separator: char) -> (pieces: Vec<String>)
    ensures
        pieces_view(pieces@) == split(text@, separator),
        pieces@.len() >= 1,
{
    let chars = chars_of(text);
    let mut pieces: Vec<String> = Vec::new();
    let mut current = String::new();
    let mut index: usize = 0;
    proof {
        assert(chars@.take(0) =~= Seq::empty());
        assert(split(chars@.take(0), separator) =~= pieces_view(pieces@).push(current@));
    }
    while index < chars.len()
        invariant
            index <= chars@.len(),
            chars@ == text@,
            split(chars@.take(index as int), separator) == pieces_view(pieces@).push(current@),
        decreases chars@.len() - index,
    {
        let ghost before = pieces_view(pieces@);
        let ghost open_piece = current@;
        let ghost prefix = chars@.take(index as int + 1);
        proof {
            assert(prefix.drop_last() =~= chars@.take(index as int));
            assert(before.push(open_piece).drop_last() =~= before);
        }
        if chars[index] == separator {
            pieces.push(current);
            current = String::new();
            proof {
                assert(pieces_view(pieces@) =~= before.push(open_piece));
                assert(split(prefix, separator) =~= pieces_view(pieces@).push(current@));
            }
        } else {
            current.push(chars[index]);
            proof {
                assert(split(prefix, separator) =~= pieces_view(pieces@).push(current@));
            }
        }
        index = index + 1;
    }
    let ghost before = pieces_view(pieces@);
    let ghost open_piece = current@;
    pieces.push(current);
    proof {
        assert(chars@.take(index as int) =~= text@);
        assert(pieces_view(pieces@) =~= before.push(open_piece));
    }
    pieces
}

/// Whether two strings hold the same characters.
pub fn same_text(left: &str, right: &str) -> (same: bool)
    ensures
        same == (left@ == right@),
{
    let left_chars = chars_of(left);
    let right_chars = chars_of(right);
    if left_chars.len() != right_chars.len() {
        return false;
    }
    let mut index: usize = 0;
    while index < left_chars.len()
        invariant
            index <= left_chars@.len(),
            left_chars@.len() == right_chars@.len(),
            left_chars@ == left@,
            right_chars@ == right@,
            forall|i: int| 0 <= i < index ==> left_chars@[i] == right_chars@[i],
        decreases left_chars@.len() - index,
    {
        if left_chars[index] != right_chars[index] {
            assert(left@[index as int] != right@[index as int]);
            return false;
        }
        index = index + 1;
    }
    assert(left@ =~= right@);
    true
}

/// Whether two optional strings are both absent or hold the same characters.
pub fn same_optional_text(left: &Option<String>, right: &Option<String>) -> (same: bool)
    ensures
        same == (left.deep_view() == right.deep_view()),
{
    match (left, right) {
        (None, None) => true,
        (Some(a), Some(b)) => same_text(a.as_str(), b.as_str()),
        _ => false,
    }
}

/// `text` without the white space at its ends.
pub open spec fn trimmed(text: Seq<char>) -> Seq<char>
    decreases text.len(),
{
    if text.len() == 0 {
        text
    } else if is_whitespace_char(text[0]) {
        trimmed(text.drop_first())
    } else if is_whitespace_char(text.last()) {
        trimmed(text.drop_last())
    } else {
        text
    }
}

/// Removes the white space at both ends.
pub fn trim_text(text: &str) -> (kept: String)
    ensures
        kept@ == trimmed(text@),
{
    let chars = chars_of(text);
    let mut from: usize = 0;
    let mut to: usize = chars.len();
    proof {
        assert(chars@.subrange(0, to as int) =~= text@);
    }
    while from < to && is_whitespace(chars[from])
        invariant
            from <= to == chars@.len(),
            trimmed(chars@.subrange(from as int, to as int)) == trimmed(text@),
        decreases to - from,
    {
        proof {
            assert(chars@.subrange(from as int, to as int).drop_first() =~= chars@.subrange(
                from as int + 1,
                to as int,
            ));
        }
        from = from + 1;
    }
    while from < to && is_whitespace(chars[to - 1])
        invariant
            from <= to <= chars@.len(),
            from < to ==> !is_whitespace_char(chars@[from as int]),
            trimmed(chars@.subrange(from as int, to as int)) == trimmed(text@),
        decreases to - from,
    {
        proof {
            assert(chars@.subrange(from as int, to as int).drop_last() =~= chars@.subrange(
                from as int,
                to as int - 1,
            ));
        }
        to = to - 1;
    }
    text_of(&chars, from, to)
}

/// `String::from_utf8` of the standard library succeeds on valid UTF-8 only,
/// and then gives the characters that the bytes encode.
#[verifier::external_body]
pub(crate) fn decode_text(bytes: Vec<u8>) -> (text: Option<String>)
    ensures
        text is Some == vstd::utf8::valid_utf8(bytes@),
        text matches Some(decoded) ==> decoded@ == vstd::utf8::decode_utf8(bytes@),
{
    String::from_utf8(bytes).ok()
}

/// The lines of `text`: a line break at the very end starts no further line.
pub open spec fn lines_of(text: Seq<char>) -> Seq<Seq<char>> {
    let pieces = split(text, '\n');
    if pieces.last().len() == 0 {
        pieces.drop_last()
    } else {
        pieces
    }
}

/// Splits `text` into its lines, white space around each removed.
pub fn trimmed_lines(text: &str) -> (lines: Vec<String>)
    ensures
        pieces_view(lines@) == Seq::new(
            lines_of(text@).len(),
            |i: int| trimmed(lines_of(text@)[i]),
        ),
{
    let pieces = split_text(text, '\n');
    let ghost views = pieces_view(pieces@);
    let mut count: usize = pieces.len();
    proof {
        assert(views.last() == pieces@.last()@);
    }
    if pieces[count - 1].as_str().is_empty() {
        count = count - 1;
    }
    proof {
        assert(lines_of(text@) =~= views.take(count as int));
    }
    let mut lines: Vec<String> = Vec::new();
    let mut index: usize = 0;
    while index < count
        invariant
            index <= count <= pieces@.len(),
            pieces_view(lines@) == Seq::new(index as nat, |i: int| trimmed(pieces@[i]@)),
        decreases count - index,
    {
        let ghost before = pieces_view(lines@);
        let line = trim_text(pieces[index].as_str());
        lines.push(line);
        proof {
            assert(pieces_view(lines@) =~= before.push(line@));
            assert(pieces_view(lines@) =~= Seq::new(
                (index + 1) as nat,
                |i: int| trimmed(pieces@[i]@),
            ));
        }
        index = index + 1;
    }
    proof {
        assert(pieces_view(lines@) =~= Seq::new(
            lines_of(text@).len(),
            |i: int| trimmed(lines_of(text@)[i]),
        ));
    }
    lines
}

/// Splitting at a separator that does not occur in `left` gives `left` as the
/// first piece, and the pieces of the rest after it.
pub proof fn split_at_first(left: Seq<char>, right: Seq<char>, separator: char)
    requires
        !left.contains(separator),
    ensures
        split(left, separator) == seq![left],
        split(left.push(separator) + right, separator) == seq![left] + split(right, separator),
    decreases left.len() + right.len(),
{
    split_is_nonempty(right, separator);
    if right.len() == 0 {
        if left.len() > 0 {
            assert(!left.drop_last().contains(separator)) by {
                if left.drop_last().contains(separator) {
                    let i = choose|i: int|
                        0 <= i < left.drop_last().len() && left.drop_last()[i] == separator;
                    assert(left[i] == separator);
                }
            }
            split_at_first(left.drop_last(), right, separator);
            assert(left.last() != separator) by {
                assert(left[left.len() - 1] == left.last());
            }
            assert(seq![left.drop_last()].drop_last() =~= Seq::<Seq<char>>::empty());
            assert(left.drop_last().push(left.last()) =~= left);
            assert(split(left, separator) =~= seq![left]);
        } else {
            assert(left =~= Seq::<char>::empty());
            assert(split(left, separator) =~= seq![left]);
        }
        let whole = left.push(separator);
        assert(whole + right =~= whole);
        assert(whole.drop_last() =~= left);
        assert(split(whole, separator) =~= seq![left].push(Seq::<char>::empty()));
        assert(split(right, separator) =~= seq![Seq::<char>::empty()]) by {
            assert(right =~= Seq::<char>::empty());
        }
        assert(seq![left] + split(right, separator) =~= split(whole, separator));
    } else {
        split_at_first(left, right.drop_last(), separator);
        let whole = left.push(separator) + right;
        assert(whole.drop_last() =~= left.push(separator) + right.drop_last());
        assert(whole.last() == right.last());
        let rest = split(right.drop_last(), separator);
        split_is_nonempty(right.drop_last(), separator);
        let front = seq![left] + rest;
        assert(front.drop_last() =~= seq![left] + rest.drop_last());
        assert(front.last() == rest.last());
        assert(split(whole, separator) =~= seq![left] + split(right, separator));
    }
}

/// The number that some digits denote.
pub open spec fn decimal_value(digits: Seq<char>) -> nat
    decreases digits.len(),
{
    if digits.len() == 0 {
        0
    } else {
        10 * decimal_value(digits.drop_last()) + (digits.last() as u32 - '0' as u32) as nat
    }
}

/// Every character is a decimal digit.
pub open spec fn all_digits(text: Seq<char>) -> bool {
    forall|i: int| 0 <= i < text.len() ==> '0' <= #[trigger] text[i] <= '9'
}

/// The digits of a number: a plus sign may precede them.
pub open spec fn unsigned_digits(word: Seq<char>) -> Seq<char> {
    if word.len() > 0 && word[0] == '+' {
        word.drop_first()
    } else {
        word
    }
}

/// The number that a word denotes, if it is one and no larger than `max`.
pub open spec fn denoted_number(word: Seq<char>, max: nat) -> Option<nat> {
    let digits = unsigned_digits(word);
    if digits.len() > 0 && all_digits(digits) && decimal_value(digits) <= max {
        Some(decimal_value(digits))
    } else {
        None
    }
}

/// More digits never denote a smaller number.
proof fn longer_is_larger(digits: Seq<char>, shorter: int)
    requires
        0 <= shorter <= digits.len(),
        all_digits(digits),
    ensures
        decimal_value(digits.take(shorter)) <= decimal_value(digits),
    decreases digits.len(),
{
    if shorter == digits.len() {
        assert(digits.take(shorter) =~= digits);
    } else {
        assert(digits.drop_last().take(shorter) =~= digits.take(shorter));
        longer_is_larger(digits.drop_last(), shorter);
    }
}

/// Reads a number that is no larger than `max`.
pub fn parse_number(word: &str, max: u32) -> (number: Option<u32>)
    ensures
        match number {
            Some(value) => denoted_number(word@, max as nat) == Some(value as nat),
            None => denoted_number(word@, max as nat) is None,
        },
{
    let chars = chars_of(word);
    let mut start: usize = 0;
    if chars.len() > 0 && chars[0] == '+' {
        start = 1;
    }
    let ghost digits = unsigned_digits(word@);
    proof {
        assert(digits =~= chars@.skip(start as int));
    }
    if start == chars.len() {
        return None;
    }
    let mut value: u64 = 0;
    let mut index: usize = start;
    proof {
        assert(digits.take(0) =~= Seq::<char>::empty());
    }
    while index < chars.len()
        invariant
            start <= index <= chars@.len(),
            digits == chars@.skip(start as int),
            digits == unsigned_digits(word@),
            all_digits(digits.take(index - start)),
            value == decimal_value(digits.take(index - start)),
            value <= max,
        decreases chars@.len() - index,
    {
        let c = chars[index];
        let ghost longer = digits.take(index - start + 1);
        proof {
            assert(longer.drop_last() =~= digits.take(index - start));
            assert(longer.last() == c);
            assert(digits[index - start] == c);
        }
        if !('0' <= c && c <= '9') {
            return None;
        }
        let digit: u64 = (c as u32 - '0' as u32) as u64;
        value = value * 10 + digit;
        proof {
            assert(all_digits(longer)) by {
                assert forall|i: int| 0 <= i < longer.len() implies '0' <= #[trigger] longer[i]
                    <= '9' by {
                    if i < index - start {
                        assert(longer[i] == digits.take(index - start)[i]);
                    }
                }
            }
        }
        if value > max as u64 {
            proof {
                if all_digits(digits) {
                    longer_is_larger(digits, index - start + 1);
                }
            }
            return None;
        }
        index = index + 1;
    }
    proof {
        assert(digits.take(index - start) =~= digits);
    }
    Some(value as u32)
}

/// The decimal digits of a number denote that number, and the first of several
/// is not a zero.
pub proof fn decimals_denote_their_number(n: nat)
    ensures
        decimal_text(n).len() > 0,
        all_digits(decimal_text(n)),
        decimal_value(decimal_text(n)) == n,
        decimal_text(n).len() > 1 ==> decimal_text(n)[0] != '0',
    decreases n,
{
    if n < 10 {
        let text = decimal_text(n);
        assert(text.drop_last() =~= Seq::<char>::empty());
        assert(decimal_value(text.drop_last()) == 0);
    } else {
        decimals_denote_their_number(n / 10);
        let front = decimal_text(n / 10);
        let text = decimal_text(n);
        assert(text.drop_last() =~= front);
        assert(text[0] == front[0]);
        if front.len() == 1 {
            assert(front.drop_last() =~= Seq::<char>::empty());
            assert(decimal_value(front.drop_last()) == 0);
            assert(front.last() == front[0]);
        }
    }
}

/// A number that was written down is read back.
pub proof fn written_numbers_are_read_back(n: nat, max: nat)
    ensures
        n <= max ==> denoted_number(decimal_text(n), max) == Some(n),
        n > max ==> denoted_number(decimal_text(n), max) is None,
{
    decimals_denote_their_number(n);
    assert('0' <= decimal_text(n)[0] <= '9');
    assert(unsigned_digits(decimal_text(n)) == decimal_text(n));
}

/// A negative number is written as a minus sign and the digits of its
/// magnitude, and any other one as its digits.
pub proof fn signs_precede_the_magnitude(n: int)
    ensures
        n >= 0 ==> all_digits(signed_decimal_text(n)) && decimal_value(signed_decimal_text(n))
            == n,
        n < 0 ==> signed_decimal_text(n)[0] == '-' && all_digits(
            signed_decimal_text(n).drop_first(),
        ) && decimal_value(signed_decimal_text(n).drop_first()) == -n,
{
    if n < 0 {
        decimals_denote_their_number((-n) as nat);
        assert(signed_decimal_text(n).drop_first() =~= decimal_text((-n) as nat));
    } else {
        decimals_denote_their_number(n as nat);
    }
}

/// Below the end of ASCII, the space and the five controls from the tabulator
/// to the carriage return are white space, and the controls are those below
/// the space and the last one.
pub proof fn ascii_classes(c: char)
    requires
        c as u32 <= 0x7f,
    ensures
        is_whitespace_char(c) <==> c == ' ' || 9 <= c as u32 <= 13,
        is_control_char(c) <==> (c as u32) < 32 || c as u32 == 127,
{
}

/// Trimming takes white space off both ends and nothing else: what is left is
/// one stretch of the text, with no white space at its ends and only white
/// space around it.
pub proof fn trimming_strips_the_ends(text: Seq<char>) -> (bounds: (int, int))
    ensures
        0 <= bounds.0 <= bounds.1 <= text.len(),
        trimmed(text) == text.subrange(bounds.0, bounds.1),
        forall|i: int| 0 <= i < bounds.0 ==> is_whitespace_char(#[trigger] text[i]),
        forall|i: int| bounds.1 <= i < text.len() ==> is_whitespace_char(#[trigger] text[i]),
        trimmed(text).len() > 0 ==> !is_whitespace_char(trimmed(text)[0]) && !is_whitespace_char(
            trimmed(text).last(),
        ),
    decreases text.len(),
{
    if text.len() == 0 {
        assert(trimmed(text) =~= text.subrange(0, 0));
        (0, 0)
    } else if is_whitespace_char(text[0]) {
        let rest = text.drop_first();
        let inner = trimming_strips_the_ends(rest);
        assert(rest.subrange(inner.0, inner.1) =~= text.subrange(inner.0 + 1, inner.1 + 1));
        assert forall|i: int| 0 <= i < inner.0 + 1 implies is_whitespace_char(
            #[trigger] text[i],
        ) by {
            if i > 0 {
                assert(rest[i - 1] == text[i]);
            }
        }
        assert forall|i: int| inner.1 + 1 <= i < text.len() implies is_whitespace_char(
            #[trigger] text[i],
        ) by {
            assert(rest[i - 1] == text[i]);
        }
        (inner.0 + 1, inner.1 + 1)
    } else if is_whitespace_char(text.last()) {
        let rest = text.drop_last();
        let inner = trimming_strips_the_ends(rest);
        assert(rest.subrange(inner.0, inner.1) =~= text.subrange(inner.0, inner.1));
        assert forall|i: int| 0 <= i < inner.0 implies is_whitespace_char(#[trigger] text[i]) by {
            assert(rest[i] == text[i]);
        }
        assert forall|i: int| inner.1 <= i < text.len() implies is_whitespace_char(
            #[trigger] text[i],
        ) by {
            if i < text.len() - 1 {
                assert(rest[i] == text[i]);
            }
        }
        (inner.0, inner.1)
    } else {
        assert(trimmed(text) =~= text.subrange(0, text.len() as int));
        (0, text.len() as int)
    }
}

/// The pieces with a separator between each two.
pub open spec fn rejoined(pieces: Seq<Seq<char>>, separator: char) -> Seq<char>
    decreases pieces.len(),
{
    if pieces.len() == 0 {
        Seq::empty()
    } else if pieces.len() == 1 {
        pieces[0]
    } else {
        rejoined(pieces.drop_last(), separator).push(separator) + pieces.last()
    }
}

/// Splitting loses nothing and splits at every separator: the pieces make up
/// the text again, and none of them holds the separator.
pub proof fn pieces_make_up_the_text(text: Seq<char>, separator: char)
    ensures
        rejoined(split(text, separator), separator) == text,
        forall|i: int|
            0 <= i < split(text, separator).len() ==> !(#[trigger] split(
                text,
                separator,
            )[i]).contains(separator),
    decreases text.len(),
{
    let pieces = split(text, separator);
    if text.len() == 0 {
        assert(rejoined(pieces, separator) =~= text);
    } else {
        let front = text.drop_last();
        let before = split(front, separator);
        pieces_make_up_the_text(front, separator);
        split_is_nonempty(front, separator);
        assert(front.push(text.last()) =~= text);
        if text.last() == separator {
            assert(pieces.drop_last() =~= before);
            assert(rejoined(pieces, separator) =~= text);
        } else {
            let last = before.last();
            let grown = last.push(text.last());
            assert(pieces.drop_last() =~= before.drop_last());
            assert(pieces.last() == grown);
            assert forall|i: int| 0 <= i < pieces.len() implies !(#[trigger] pieces[i]).contains(
                separator,
            ) by {
                if i < pieces.len() - 1 {
                    assert(pieces[i] == before[i]);
                } else {
                    assert(!before[before.len() - 1].contains(separator));
                    if grown.contains(separator) {
                        let at = choose|at: int| 0 <= at < grown.len() && grown[at] == separator;
                        assert(at < last.len());
                        assert(last[at] == separator);
                    }
                }
            }
            if before.len() == 1 {
                assert(rejoined(pieces, separator) =~= text);
            } else {
                assert(rejoined(before, separator) == rejoined(before.drop_last(), separator).push(
                    separator,
                ) + last);
                assert(rejoined(pieces, separator) == rejoined(before.drop_last(), separator).push(
                    separator,
                ) + grown);
                assert(rejoined(pieces, separator) =~= text);
            }
        }
    }
}

/// Brackets around a text are taken off; any other text stays as it is.
pub proof fn brackets_come_off(text: Seq<char>)
    ensures
        unbracketed(seq!['['] + text + seq![']']) == text,
        text.len() > 0 && text[0] != '[' ==> unbracketed(text) == text,
        text.len() > 0 && text.last() != ']' ==> unbracketed(text) == text,
{
    let bracketed = seq!['['] + text + seq![']'];
    assert(bracketed.subrange(1, bracketed.len() - 1) =~= text);
}

/// A line break at the end starts no line, and lines hold no line break.
pub proof fn lines_hold_no_line_break(text: Seq<char>, at: int)
    requires
        0 <= at < lines_of(text).len(),
    ensures
        !lines_of(text)[at].contains('\n'),
        text.len() > 0 && text.last() != '\n' ==> rejoined(lines_of(text), '\n') == text,
        text.len() > 0 && text.last() == '\n' ==> rejoined(lines_of(text), '\n') == text.drop_last(),
{
    pieces_make_up_the_text(text, '\n');
    split_is_nonempty(text, '\n');
    let pieces = split(text, '\n');
    assert(!pieces[at].contains('\n'));
    if text.len() > 0 {
        pieces_make_up_the_text(text.drop_last(), '\n');
        split_is_nonempty(text.drop_last(), '\n');
        if text.last() == '\n' {
            assert(pieces.drop_last() =~= split(text.drop_last(), '\n'));
        }
    }
}

} // verus!
