//! Operations of the standard library on strings and bytes that the rest of
//! the crate relies on, each with the contract that it is taken to meet, and
//! a few verified helpers on bytes.

use vstd::prelude::*;
use vstd::utf8::{decode_utf8, valid_utf8};

verus! {

/// `a == b` on string slices: true exactly when both hold the same characters.
#[verifier::external_body]
pub(crate) fn str_eq(a: &str, b: &str) -> (same: bool)
    ensures
        same == (a@ == b@),
{
    a == b
}

/// Whether the text `a` comes before the text `b`: the texts are compared
/// character by character, by code point, and a text comes before every
/// longer text that starts with it.
pub open spec fn text_lt(a: Seq<char>, b: Seq<char>) -> bool
    decreases a.len(),
{
    if b.len() == 0 {
        false
    } else if a.len() == 0 {
        true
    } else if a[0] != b[0] {
        (a[0] as u32) < (b[0] as u32)
    } else {
        text_lt(a.skip(1), b.skip(1))
    }
}

/// `a < b` on string slices: the order of the texts by code point.
#[verifier::external_body]
pub(crate) fn str_lt(a: &str, b: &str) -> (before: bool)
    ensures
        before == text_lt(a@, b@),
{
    a < b
}

/// The text that `String::from_utf8_lossy` gives for bytes that are not
/// valid UTF-8.
pub uninterp spec fn utf8_replaced(bytes: Seq<u8>) -> Seq<char>;

/// The text that bytes are read as: the text that they encode where they
/// are valid UTF-8, else the text with replacement characters.
pub open spec fn utf8_lossy(bytes: Seq<u8>) -> Seq<char> {
    if valid_utf8(bytes) {
        decode_utf8(bytes)
    } else {
        utf8_replaced(bytes)
    }
}

/// `String::from_utf8_lossy`: the text that the bytes encode, with a
/// replacement character for every part that is not valid UTF-8. The
/// contract says of valid UTF-8 that the result is the decoded text, and
/// names the result for other bytes.
#[verifier::external_body]
pub(crate) fn to_string_lossy(bytes: &Vec<u8>) -> (text: String)
    ensures
        valid_utf8(bytes@) ==> text@ == decode_utf8(bytes@),
        !valid_utf8(bytes@) ==> text@ == utf8_replaced(bytes@),
{
    String::from_utf8_lossy(bytes).into_owned()
}

/// Whether `c` is one of the ten decimal digits.
pub open spec fn is_digit(c: char) -> bool {
    '0' <= c <= '9'
}

/// The number that a sequence of decimal digits is read as.
pub open spec fn decimal_value(digits: Seq<char>) -> nat
    decreases digits.len(),
{
    if digits.len() == 0 {
        0
    } else {
        (decimal_value(digits.drop_last()) * 10 + (digits.last() as u32 - '0' as u32)) as nat
    }
}

/// Whether every character of `digits` is a decimal digit.
pub open spec fn all_digits(digits: Seq<char>) -> bool {
    forall|i: int| 0 <= i < digits.len() ==> is_digit(#[trigger] digits[i])
}

/// What a text is parsed as by the unsigned integer types: an optional `+`,
/// then one or more decimal digits and nothing else, for a number not above
/// `max`.
pub open spec fn unsigned_from_str(s: Seq<char>, max: nat) -> Option<nat> {
    let digits = if s.len() > 0 && s[0] == '+' {
        s.skip(1)
    } else {
        s
    };
    if digits.len() > 0 && all_digits(digits) && decimal_value(digits) <= max {
        Some(decimal_value(digits))
    } else {
        None
    }
}

/// The text of the error that parsing `s` as a `u64` gives.
pub uninterp spec fn u64_error_text(s: Seq<char>) -> Seq<char>;

/// `str::parse::<u64>`: the number that `s` is the decimal notation of;
/// else the text of the error.
#[verifier::external_body]
pub(crate) fn parse_u64(s: &str) -> (r: Result<u64, String>)
    ensures
        match r {
            Ok(n) => unsigned_from_str(s@, u64::MAX as nat) == Some(n as nat),
            Err(e) => unsigned_from_str(s@, u64::MAX as nat) is None && e@ == u64_error_text(s@),
        },
{
    match s.parse::<u64>() {
        Ok(value) => Ok(value),
        Err(e) => Err(e.to_string()),
    }
}

/// The text of the error that parsing `s` as a `u16` gives.
pub uninterp spec fn u16_error_text(s: Seq<char>) -> Seq<char>;

/// `str::parse::<u16>`: the number that `s` is the decimal notation of;
/// else the text of the error.
#[verifier::external_body]
pub(crate) fn parse_u16(s: &str) -> (r: Result<u16, String>)
    ensures
        match r {
            Ok(n) => unsigned_from_str(s@, u16::MAX as nat) == Some(n as nat),
            Err(e) => unsigned_from_str(s@, u16::MAX as nat) is None && e@ == u16_error_text(s@),
        },
{
    match s.parse::<u16>() {
        Ok(value) => Ok(value),
        Err(e) => Err(e.to_string()),
    }
}

/// What a text is parsed as by `bool`: `true` and `false` are, nothing else is.
pub open spec fn bool_from_str(s: Seq<char>) -> Option<bool> {
    if s == "true"@ {
        Some(true)
    } else if s == "false"@ {
        Some(false)
    } else {
        None
    }
}

/// The text of the error that parsing `s` as a `bool` gives: the same for
/// every text that is neither `true` nor `false`.
pub open spec fn bool_error_text(s: Seq<char>) -> Seq<char> {
    "provided string was not `true` or `false`"@
}

/// `str::parse::<bool>`: `true` for "true", `false` for "false"; else the
/// text of the error, which is always the same.
#[verifier::external_body]
pub(crate) fn parse_bool(s: &str) -> (r: Result<bool, String>)
    ensures
        match r {
            Ok(b) => bool_from_str(s@) == Some(b),
            Err(e) => bool_from_str(s@) is None && e@ == bool_error_text(s@),
        },
{
    match s.parse::<bool>() {
        Ok(value) => Ok(value),
        Err(e) => Err(e.to_string()),
    }
}

/// The parts of a text between its commas, in order. A text without a
/// comma is one part, and so is the empty text.
pub open spec fn comma_pieces(s: Seq<char>) -> Seq<Seq<char>>
    decreases s.len(),
{
    if s.len() == 0 {
        seq![Seq::empty()]
    } else {
        let before = comma_pieces(s.drop_last());
        if s.last() == ',' {
            before.push(Seq::empty())
        } else {
            before.drop_last().push(before.last().push(s.last()))
        }
    }
}

/// The texts joined by commas. No text at all gives the empty text.
pub open spec fn join_commas(pieces: Seq<Seq<char>>) -> Seq<char>
    decreases pieces.len(),
{
    if pieces.len() == 0 {
        Seq::empty()
    } else if pieces.len() == 1 {
        pieces[0]
    } else {
        join_commas(pieces.drop_last()) + seq![','] + pieces.last()
    }
}

/// Appending a text without a comma to a text lengthens the last part.
pub proof fn lemma_pieces_append(s: Seq<char>, tail: Seq<char>)
    requires
        !tail.contains(','),
    ensures
        comma_pieces(s).len() >= 1,
        comma_pieces(s + tail) == comma_pieces(s).drop_last().push(comma_pieces(s).last() + tail),
    decreases tail.len(),
{
    lemma_pieces_len(s);
    let pieces = comma_pieces(s);
    if tail.len() == 0 {
        assert(s + tail =~= s);
        assert(pieces.last() + tail =~= pieces.last());
        assert(pieces.drop_last().push(pieces.last()) =~= pieces);
    } else {
        let shorter = tail.drop_last();
        let c = tail.last();
        assert(c != ',') by {
            assert(tail[tail.len() - 1] == c);
        }
        assert(!shorter.contains(',')) by {
            if shorter.contains(',') {
                let i = shorter.index_of(',');
                assert(0 <= i < shorter.len() && shorter[i] == ',');
                assert(tail[i] == ',');
            }
        }
        lemma_pieces_append(s, shorter);
        assert((s + tail).drop_last() =~= s + shorter);
        assert((s + tail).last() == c);
        assert((pieces.last() + shorter).push(c) =~= pieces.last() + tail);
    }
}

/// Every text has at least one part.
pub proof fn lemma_pieces_len(s: Seq<char>)
    ensures
        comma_pieces(s).len() >= 1,
    decreases s.len(),
{
    if s.len() > 0 {
        lemma_pieces_len(s.drop_last());
    }
}

/// Texts without commas, joined by commas, are the parts of the joined text.
pub proof fn lemma_split_join(pieces: Seq<Seq<char>>)
    requires
        pieces.len() >= 1,
        forall|i: int| 0 <= i < pieces.len() ==> !(#[trigger] pieces[i]).contains(','),
    ensures
        comma_pieces(join_commas(pieces)) == pieces,
        (pieces.len() >= 2 || pieces[0].len() > 0) ==> join_commas(pieces).len() > 0,
    decreases pieces.len(),
{
    let empty = Seq::<char>::empty();
    if pieces.len() == 1 {
        lemma_pieces_append(empty, pieces[0]);
        assert(empty + pieces[0] =~= pieces[0]);
        assert(comma_pieces(empty) =~= seq![empty]);
        assert(seq![empty].drop_last().push(empty + pieces[0]) =~= pieces);
    } else {
        let front = pieces.drop_last();
        let last = pieces.last();
        assert forall|i: int| 0 <= i < front.len() implies !(#[trigger] front[i]).contains(',') by {
            assert(front[i] == pieces[i]);
        }
        lemma_split_join(front);
        let joined = join_commas(front);
        let with_comma = joined + seq![','];
        assert(with_comma.drop_last() =~= joined);
        assert(with_comma.last() == ',');
        assert(comma_pieces(with_comma) == front.push(empty));
        lemma_pieces_append(with_comma, last);
        assert(front.push(empty).drop_last() =~= front);
        assert(empty + last =~= last);
        assert(front.push(last) =~= pieces);
        assert(join_commas(pieces).len() > 0) by {
            assert(join_commas(pieces)[joined.len() as int] == ',');
        }
    }
}

/// `str::split(',')`: the parts of `s` between its commas, in order.
#[verifier::external_body]
pub(crate) fn split_commas(s: &str) -> (pieces: Vec<String>)
    ensures
        pieces.deep_view() == comma_pieces(s@),
{
    let mut pieces = Vec::new();
    for piece in s.split(',') {
        pieces.push(piece.to_string());
    }
    pieces
}

/// The decimal digit for `d`.
pub open spec fn digit_char(d: nat) -> char {
    (48 + d) as u8 as char
}

/// The decimal notation of `n`, without leading zeros.
pub open spec fn decimal_digits(n: nat) -> Seq<char>
    decreases n,
{
    if n < 10 {
        seq![digit_char(n)]
    } else {
        decimal_digits(n / 10).push(digit_char(n % 10))
    }
}

/// `u64::to_string`: the decimal notation of `n`.
#[verifier::external_body]
pub(crate) fn u64_to_string(n: u64) -> (s: String)
    ensures
        s@ == decimal_digits(n as nat),
{
    n.to_string()
}

/// The decimal notation of a number is read back as that number.
pub proof fn lemma_decimal_round_trip(n: nat, max: nat)
    requires
        n <= max,
    ensures
        unsigned_from_str(decimal_digits(n), max) == Some(n),
{
    lemma_decimal_digits(n);
    let d = decimal_digits(n);
    assert(is_digit(d[0]));
    assert(d.skip(0) =~= d);
}

/// The decimal notation of a number consists of digits, at least one, and
/// has the number as its value.
pub proof fn lemma_decimal_digits(n: nat)
    ensures
        decimal_digits(n).len() > 0,
        forall|i: int| 0 <= i < decimal_digits(n).len() ==>
            is_digit(#[trigger] decimal_digits(n)[i]),
        decimal_value(decimal_digits(n)) == n,
    decreases n,
{
    if n < 10 {
        let d = seq![digit_char(n)];
        assert(d.drop_last() =~= Seq::<char>::empty());
        assert(decimal_value(d.drop_last()) == 0);
        assert(d.last() == digit_char(n));
        assert(digit_char(n) as u32 == 48 + n);
    } else {
        lemma_decimal_digits(n / 10);
        let rest = decimal_digits(n / 10);
        let d = rest.push(digit_char(n % 10));
        assert(d.drop_last() =~= rest);
        assert(digit_char(n % 10) as u32 == 48 + n % 10);
        assert(d.last() == digit_char(n % 10));
    }
}

/// The lower-case form of an ASCII capital; any other character as it is.
pub open spec fn ascii_lower(c: char) -> char {
    if 'A' <= c <= 'Z' {
        ((c as u8) + 32) as u8 as char
    } else {
        c
    }
}

/// The text with every character in the form that [`ascii_lower`] gives.
pub open spec fn ascii_lowercase(s: Seq<char>) -> Seq<char> {
    s.map_values(|c: char| ascii_lower(c))
}

/// `str::to_ascii_lowercase`: the text with its ASCII capitals in lower case.
#[verifier::external_body]
pub(crate) fn to_ascii_lowercase(s: &str) -> (lower: String)
    ensures
        lower@ == ascii_lowercase(s@),
{
    s.to_ascii_lowercase()
}

/// `str::contains(',')`: whether the text holds a comma.
#[verifier::external_body]
pub(crate) fn has_comma(s: &str) -> (found: bool)
    ensures
        found == s@.contains(','),
{
    s.contains(',')
}

/// Whether two byte vectors hold the same bytes.
pub(crate) fn bytes_eq(a: &Vec<u8>, b: &Vec<u8>) -> (same: bool)
    ensures
        same == (a@ == b@),
{
    if a.len() != b.len() {
        return false;
    }
    let mut i: usize = 0;
    while i < a.len()
        invariant
            a.len() == b.len(),
            i <= a.len(),
            forall|j: int| 0 <= j < i ==> a@[j] == b@[j],
        decreases a.len() - i,
    {
        if a[i] != b[i] {
            return false;
        }
        i += 1;
    }
    assert(a@ =~= b@);
    true
}

/// A copy of a byte vector.
pub(crate) fn bytes_clone(a: &Vec<u8>) -> (copy: Vec<u8>)
    ensures
        copy@ == a@,
{
    let mut copy: Vec<u8> = Vec::new();
    let mut i: usize = 0;
    while i < a.len()
        invariant
            i <= a.len(),
            copy@ == a@.subrange(0, i as int),
        decreases a.len() - i,
    {
        copy.push(a[i]);
        i += 1;
        assert(copy@ =~= a@.subrange(0, i as int));
    }
    assert(a@.subrange(0, a.len() as int) =~= a@);
    copy
}

} // verus!
