//! The text of IP addresses.

#[allow(unused_imports)]
use vstd::prelude::*;
use crate::text::{chars_of, split_text, text_of};
#[allow(unused_imports)]
use crate::text::{pieces_view, split, split_is_nonempty};

verus! {

/// A decimal digit.
pub open spec fn is_digit_char(c: char) -> bool {
    '0' <= c && c <= '9'
}

/// A hexadecimal digit of either case.
pub open spec fn is_hex_char(c: char) -> bool {
    is_digit_char(c) || ('a' <= c && c <= 'f') || ('A' <= c && c <= 'F')
}

/// The value of a decimal numeral.
pub open spec fn numeral_value(digits: Seq<char>) -> nat
    decreases digits.len(),
{
    if digits.len() == 0 {
        0
    } else {
        (10 * numeral_value(digits.drop_last()) + (digits.last() as u32 - 48)) as nat
    }
}

/// One number of an IPv4 address: at most 255, without a leading zero.
pub open spec fn octet(piece: Seq<char>) -> bool {
    &&& 1 <= piece.len() <= 3
    &&& forall|i: int| 0 <= i < piece.len() ==> is_digit_char(#[trigger] piece[i])
    &&& piece.len() > 1 ==> piece[0] != '0'
    &&& numeral_value(piece) <= 255
}

/// One group of an IPv6 address: up to four hexadecimal digits.
pub open spec fn hex_group(piece: Seq<char>) -> bool {
    &&& 1 <= piece.len() <= 4
    &&& forall|i: int| 0 <= i < piece.len() ==> is_hex_char(#[trigger] piece[i])
}

/// Four octets separated by dots.
pub open spec fn ipv4_literal(text: Seq<char>) -> bool {
    let pieces = split(text, '.');
    &&& pieces.len() == 4
    &&& forall|i: int| 0 <= i < pieces.len() ==> octet(#[trigger] pieces[i])
}

/// Colon-separated groups. The last may be an IPv4 address where
/// `ipv4_tail` allows it.
pub open spec fn group_list(text: Seq<char>, ipv4_tail: bool) -> bool {
    let pieces = split(text, ':');
    let last = pieces.len() - 1;
    &&& forall|i: int| 0 <= i < last ==> hex_group(#[trigger] pieces[i])
    &&& hex_group(pieces[last]) || (ipv4_tail && ipv4_literal(pieces[last]))
}

/// How many groups a list stands for; an IPv4 tail stands for two.
pub open spec fn group_count(text: Seq<char>) -> nat {
    let pieces = split(text, ':');
    if ipv4_literal(pieces.last()) {
        pieces.len() + 1
    } else {
        pieces.len()
    }
}

/// The position of the first `::` at or after `from`, or the length.
pub open spec fn first_double_colon(text: Seq<char>, from: int) -> int
    decreases text.len() - from,
{
    if from < 0 || from + 1 >= text.len() {
        text.len() as int
    } else if text[from] == ':' && text[from + 1] == ':' {
        from
    } else {
        first_double_colon(text, from + 1)
    }
}

/// Eight groups, or fewer around one `::` that stands for the missing ones.
pub open spec fn ipv6_literal(text: Seq<char>) -> bool {
    let gap = first_double_colon(text, 0);
    if gap >= text.len() {
        group_list(text, true) && group_count(text) == 8
    } else {
        let head = text.take(gap);
        let tail = text.skip(gap + 2);
        let head_count = if head.len() == 0 { 0 } else { group_count(head) };
        let tail_count = if tail.len() == 0 { 0 } else { group_count(tail) };
        &&& head.len() == 0 || group_list(head, false)
        &&& tail.len() == 0 || group_list(tail, true)
        &&& head_count + tail_count <= 7
    }
}

/// An IPv4 or IPv6 address.
pub open spec fn ip_literal(text: Seq<char>) -> bool {
    ipv4_literal(text) || ipv6_literal(text)
}

fn is_digit(c: char) -> (is: bool)
    ensures
        is == is_digit_char(c),
{
    '0' <= c && c <= '9'
}

fn is_hex(c: char) -> (is: bool)
    ensures
        is == is_hex_char(c),
{
    is_digit(c) || ('a' <= c && c <= 'f') || ('A' <= c && c <= 'F')
}

fn is_octet(piece: &str) -> (is: bool)
    ensures
        is == octet(piece@),
{
    let chars = chars_of(piece);
    if chars.len() == 0 || chars.len() > 3 {
        return false;
    }
    if chars.len() > 1 && chars[0] == '0' {
        return false;
    }
    let mut value: u32 = 0;
    let mut index: usize = 0;
    proof {
        assert(chars@.take(0).len() == 0);
    }
    while index < chars.len()
        invariant
            index <= chars@.len() <= 3,
            chars@ == piece@,
            forall|i: int| 0 <= i < index ==> is_digit_char(#[trigger] chars@[i]),
            value == numeral_value(chars@.take(index as int)),
            index == 0 ==> value == 0,
            index == 1 ==> value <= 9,
            index == 2 ==> value <= 99,
            index == 3 ==> value <= 999,
        decreases chars@.len() - index,
    {
        let c = chars[index];
        if !is_digit(c) {
            assert(!is_digit_char(piece@[index as int]));
            return false;
        }
        proof {
            assert(chars@.take(index as int + 1).drop_last() =~= chars@.take(index as int));
        }
        value = value * 10 + (c as u32 - 48);
        index = index + 1;
    }
    proof {
        assert(chars@.take(index as int) =~= piece@);
    }
    value <= 255
}

fn is_hex_group(piece: &str) -> (is: bool)
    ensures
        is == hex_group(piece@),
{
    let chars = chars_of(piece);
    if chars.len() == 0 || chars.len() > 4 {
        return false;
    }
    let mut index: usize = 0;
    while index < chars.len()
        invariant
            index <= chars@.len(),
            chars@ == piece@,
            forall|i: int| 0 <= i < index ==> is_hex_char(#[trigger] chars@[i]),
        decreases chars@.len() - index,
    {
        if !is_hex(chars[index]) {
            assert(!is_hex_char(piece@[index as int]));
            return false;
        }
        index = index + 1;
    }
    true
}

/// Whether `text` is an IPv4 address.
pub fn is_ipv4_literal(text: &str) -> (is: bool)
    ensures
        is == ipv4_literal(text@),
{
    let pieces = split_text(text, '.');
    let ghost expected = split(text@, '.');
    if pieces.len() != 4 {
        assert(expected.len() != 4);
        return false;
    }
    let mut index: usize = 0;
    while index < 4
        invariant
            index <= 4,
            pieces@.len() == 4,
            pieces_view(pieces@) == expected,
            expected == split(text@, '.'),
            forall|i: int| 0 <= i < index ==> octet(#[trigger] expected[i]),
        decreases 4 - index,
    {
        assert(pieces_view(pieces@)[index as int] == pieces@[index as int]@);
        if !is_octet(pieces[index].as_str()) {
            assert(!octet(expected[index as int]));
            return false;
        }
        index = index + 1;
    }
    assert(expected.len() == 4);
    true
}

/// Reads a group list; the result is its group count, or nothing where
/// `text` is no group list.
fn count_groups(text: &str, ipv4_tail: bool) -> (count: Option<usize>)
    requires
        text@.len() < usize::MAX - 2,
    ensures
        count is Some == group_list(text@, ipv4_tail),
        count matches Some(n) ==> n == group_count(text@),
{
    let pieces = split_text(text, ':');
    let ghost expected = split(text@, ':');
    let last: usize = pieces.len() - 1;
    let mut index: usize = 0;
    proof {
        split_length(text@, ':');
    }
    while index < last
        invariant
            index <= last,
            last == pieces@.len() - 1,
            pieces_view(pieces@) == expected,
            expected == split(text@, ':'),
            forall|i: int| 0 <= i < index ==> hex_group(#[trigger] expected[i]),
        decreases last - index,
    {
        assert(pieces_view(pieces@)[index as int] == pieces@[index as int]@);
        if !is_hex_group(pieces[index].as_str()) {
            assert(!hex_group(expected[index as int]));
            return None;
        }
        index = index + 1;
    }
    assert(pieces_view(pieces@)[last as int] == pieces@[last as int]@);
    assert(expected.last() == pieces@[last as int]@);
    let tail_is_ipv4 = is_ipv4_literal(pieces[last].as_str());
    if is_hex_group(pieces[last].as_str()) {
        if tail_is_ipv4 {
            return Some(pieces.len() + 1);
        }
        return Some(pieces.len());
    }
    if ipv4_tail && tail_is_ipv4 {
        return Some(pieces.len() + 1);
    }
    None
}

/// Splitting gives at most one piece more than there are characters.
proof fn split_length(text: Seq<char>, separator: char)
    ensures
        split(text, separator).len() <= text.len() + 1,
    decreases text.len(),
{
    if text.len() > 0 {
        split_length(text.drop_last(), separator);
        split_is_nonempty(text.drop_last(), separator);
    }
}

fn find_double_colon(chars: &Vec<char>) -> (gap: usize)
    ensures
        gap == first_double_colon(chars@, 0),
        gap <= chars@.len(),
        gap < chars@.len() ==> gap + 2 <= chars@.len(),
{
    let mut index: usize = 0;
    while index < chars.len() && index + 1 < chars.len()
        invariant
            index <= chars@.len(),
            first_double_colon(chars@, 0) == first_double_colon(chars@, index as int),
        decreases chars@.len() - index,
    {
        if chars[index] == ':' && chars[index + 1] == ':' {
            return index;
        }
        index = index + 1;
    }
    chars.len()
}

/// Whether `text` is an IPv6 address.
pub fn is_ipv6_literal(text: &str) -> (is: bool)
    requires
        text@.len() < usize::MAX - 2,
    ensures
        is == ipv6_literal(text@),
{
    let chars = chars_of(text);
    let gap = find_double_colon(&chars);
    if gap >= chars.len() {
        return match count_groups(text, true) {
            Some(count) => count == 8,
            None => false,
        };
    }
    let head = text_of(&chars, 0, gap);
    let tail = text_of(&chars, gap + 2, chars.len());
    proof {
        assert(head@ =~= text@.take(gap as int));
        assert(tail@ =~= text@.skip(gap as int + 2));
    }
    let head_count: usize = if gap == 0 {
        0
    } else {
        match count_groups(head.as_str(), false) {
            Some(count) => count,
            None => return false,
        }
    };
    let tail_count: usize = if gap + 2 == chars.len() {
        0
    } else {
        match count_groups(tail.as_str(), true) {
            Some(count) => count,
            None => return false,
        }
    };
    head_count <= 7 && tail_count <= 7 && head_count + tail_count <= 7
}

/// Whether `text` is an IPv4 or IPv6 address.
pub fn is_ip_literal(text: &str) -> (is: bool)
    requires
        text@.len() < usize::MAX - 2,
    ensures
        is == ip_literal(text@),
{
    is_ipv4_literal(text) || is_ipv6_literal(text)
}

} // verus!
