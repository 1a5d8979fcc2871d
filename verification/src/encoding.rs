//! Text forms that requests are made of: percent-encoded path segments,
//! decimal numbers and JSON objects of strings.

use std::borrow::Cow;

use vstd::prelude::*;
use vstd::string::StringExecFns;
use vstd::string::StringSliceAdditionalSpecFns;

verus! {

/// A byte that a path segment holds as it is: an ASCII letter or digit, or
/// one of `-`, `.`, `_` and `~`.
pub open spec fn is_unreserved(b: u8) -> bool {
    (0x30 <= b <= 0x39) || (0x41 <= b <= 0x5A) || (0x61 <= b <= 0x7A) || b == 0x2D || b == 0x2E
        || b == 0x5F || b == 0x7E
}

/// The upper-case hexadecimal digit of a value below sixteen.
pub open spec fn hex_upper(d: u8) -> char {
    if d < 10 {
        (0x30 + d) as char
    } else {
        (0x41 + d - 10) as char
    }
}

/// The characters that stand for one byte in a path segment.
pub open spec fn escaped_byte(b: u8) -> Seq<char> {
    if is_unreserved(b) {
        seq![b as char]
    } else {
        seq!['%', hex_upper(b / 16), hex_upper(b % 16)]
    }
}

/// The percent-encoded form of a sequence of bytes.
pub open spec fn percent_encoded(bytes: Seq<u8>) -> Seq<char>
    decreases bytes.len(),
{
    if bytes.len() == 0 {
        Seq::empty()
    } else {
        percent_encoded(bytes.drop_last()) + escaped_byte(bytes.last())
    }
}

/// The percent-encoded form of a text, taken byte by byte in UTF-8.
pub open spec fn segment(text: Seq<char>) -> Seq<char> {
    percent_encoded(vstd::utf8::encode_utf8(text))
}

/// A character that cannot end or split a path segment or a query value.
pub open spec fn is_segment_char(c: char) -> bool {
    c == '%' || (c as u32 <= 0x7F && is_unreserved(c as u8))
}

/// A percent-encoded text holds unreserved characters and percent signs
/// only, so it holds none of `/`, `?`, `&`, `=`, `#` and the space.
pub proof fn lemma_percent_encoded_chars(bytes: Seq<u8>, i: int)
    requires
        0 <= i < percent_encoded(bytes).len(),
    ensures
        is_segment_char(percent_encoded(bytes)[i]),
        percent_encoded(bytes)[i] != '/',
        percent_encoded(bytes)[i] != '?',
        percent_encoded(bytes)[i] != '&',
        percent_encoded(bytes)[i] != '=',
        percent_encoded(bytes)[i] != '#',
        percent_encoded(bytes)[i] != ' ',
    decreases bytes.len(),
{
    if bytes.len() > 0 {
        let front = percent_encoded(bytes.drop_last());
        if i < front.len() {
            lemma_percent_encoded_chars(bytes.drop_last(), i);
        } else {
            let b = bytes.last();
            let tail = escaped_byte(b);
            assert(percent_encoded(bytes)[i] == tail[i - front.len()]);
            if !is_unreserved(b) {
                lemma_hex_upper(b / 16);
                lemma_hex_upper(b % 16);
            }
        }
    }
}

/// A hexadecimal digit is a digit or a letter from `A` to `F`.
proof fn lemma_hex_upper(d: u8)
    requires
        d < 16,
    ensures
        hex_upper(d) as u32 <= 0x7F,
        is_unreserved(hex_upper(d) as u8),
{
}

/// The value of an upper-case hexadecimal digit.
pub open spec fn hex_value(c: char) -> int {
    if '0' <= c <= '9' {
        c as int - 0x30
    } else {
        c as int - 0x41 + 10
    }
}

/// The bytes that a percent-encoded text stands for: a percent sign and the
/// two digits behind it give one byte, every other character gives its own.
pub open spec fn percent_decoded(text: Seq<char>) -> Seq<u8>
    decreases text.len(),
{
    if text.len() == 0 {
        Seq::empty()
    } else if text[0] == '%' && text.len() >= 3 {
        seq![(hex_value(text[1]) * 16 + hex_value(text[2])) as u8] + percent_decoded(text.skip(3))
    } else {
        seq![text[0] as u8] + percent_decoded(text.skip(1))
    }
}

/// The encoded form of a sequence of bytes begins with the form of its
/// first byte.
pub proof fn lemma_percent_encoded_front(b: u8, rest: Seq<u8>)
    ensures
        percent_encoded(seq![b] + rest) == escaped_byte(b) + percent_encoded(rest),
    decreases rest.len(),
{
    let whole = seq![b] + rest;
    if rest.len() == 0 {
        assert(whole.drop_last() =~= Seq::<u8>::empty());
        assert(rest =~= Seq::<u8>::empty());
        assert(percent_encoded(Seq::<u8>::empty()) =~= Seq::<char>::empty());
        assert(whole.last() == b);
        assert(percent_encoded(whole) =~= escaped_byte(b) + percent_encoded(rest));
    } else {
        assert(whole.drop_last() =~= seq![b] + rest.drop_last());
        assert(whole.last() == rest.last());
        lemma_percent_encoded_front(b, rest.drop_last());
        assert(percent_encoded(whole) =~= escaped_byte(b) + percent_encoded(rest));
    }
}

/// Decoding gives back the bytes that were encoded.
pub proof fn lemma_percent_round_trip(bytes: Seq<u8>)
    ensures
        percent_decoded(percent_encoded(bytes)) == bytes,
    decreases bytes.len(),
{
    if bytes.len() > 0 {
        let b = bytes[0];
        let rest = bytes.skip(1);
        assert(bytes =~= seq![b] + rest);
        lemma_percent_encoded_front(b, rest);
        lemma_percent_round_trip(rest);
        let text = percent_encoded(bytes);
        let head = escaped_byte(b);
        assert(text == head + percent_encoded(rest));
        if is_unreserved(b) {
            assert(text[0] == head[0]);
            assert(text.skip(1) =~= percent_encoded(rest));
            assert(percent_decoded(text) =~= bytes);
        } else {
            assert(text[0] == head[0]);
            assert(text[1] == head[1]);
            assert(text[2] == head[2]);
            assert(text.skip(3) =~= percent_encoded(rest));
            assert(hex_value(hex_upper(b / 16)) == b / 16);
            assert(hex_value(hex_upper(b % 16)) == b % 16);
            assert((b / 16) * 16 + b % 16 == b);
            assert(percent_decoded(text) =~= bytes);
        }
    }
}

/// Two texts with the same percent-encoded form are the same text.
pub proof fn lemma_segment_injective(a: Seq<char>, b: Seq<char>)
    requires
        segment(a) == segment(b),
    ensures
        a == b,
{
    lemma_percent_round_trip(vstd::utf8::encode_utf8(a));
    lemma_percent_round_trip(vstd::utf8::encode_utf8(b));
    vstd::utf8::encode_utf8_decode_utf8(a);
    vstd::utf8::encode_utf8_decode_utf8(b);
}

/// `urlencoding::encode`: the result holds, for each byte of the text in
/// order, the byte itself where it is an ASCII letter or digit or one of
/// `-`, `.`, `_`, `~`, and otherwise a percent sign and the two upper-case
/// hexadecimal digits of the byte.
#[verifier::external_body]
fn percent_encode<'a>(text: &'a str) -> (r: Cow<'a, str>)
    ensures
        r@ == percent_encoded(text.spec_bytes()),
{
    urlencoding::encode(text)
}

/// The text of a borrowed or owned string slice, owned.
pub fn into_text(text: Cow<'_, str>) -> (r: String)
    ensures
        r@ == text@,
{
    match text {
        Cow::Borrowed(slice) => String::from_str(slice),
        Cow::Owned(owned) => owned,
    }
}

/// The percent-encoded form of a text.
pub fn encode_segment(text: &str) -> (r: String)
    ensures
        r@ == segment(text@),
{
    into_text(percent_encode(text))
}

/// The character of a decimal digit.
pub open spec fn digit_char(d: nat) -> char {
    (0x30 + d % 10) as char
}

/// The decimal digits of a natural number, without leading zeros.
pub open spec fn digits(n: nat) -> Seq<char>
    decreases n,
{
    if n < 10 {
        seq![digit_char(n)]
    } else {
        digits(n / 10).push(digit_char(n % 10))
    }
}

/// The decimal form of an integer, with a minus sign where it is negative.
pub open spec fn decimal(n: int) -> Seq<char> {
    if n < 0 {
        seq!['-'] + digits((-n) as nat)
    } else {
        digits(n as nat)
    }
}

fn digit_text(d: u64) -> (r: &'static str)
    requires
        d < 10,
    ensures
        r@ == seq![digit_char(d as nat)],
{
    proof {
        reveal_strlit("0");
        reveal_strlit("1");
        reveal_strlit("2");
        reveal_strlit("3");
        reveal_strlit("4");
        reveal_strlit("5");
        reveal_strlit("6");
        reveal_strlit("7");
        reveal_strlit("8");
        reveal_strlit("9");
    }
    let r = if d == 0 {
        "0"
    } else if d == 1 {
        "1"
    } else if d == 2 {
        "2"
    } else if d == 3 {
        "3"
    } else if d == 4 {
        "4"
    } else if d == 5 {
        "5"
    } else if d == 6 {
        "6"
    } else if d == 7 {
        "7"
    } else if d == 8 {
        "8"
    } else {
        "9"
    };
    assert(r@ =~= seq![digit_char(d as nat)]);
    r
}

/// Appends the decimal digits of a number to a text.
pub fn append_digits(out: &mut String, n: u64)
    ensures
        final(out)@ == old(out)@ + digits(n as nat),
    decreases n,
{
    if n >= 10 {
        append_digits(out, n / 10);
    }
    out.append(digit_text(n % 10));
    assert(out@ =~= old(out)@ + digits(n as nat));
}

/// Appends the decimal form of an integer to a text.
pub fn append_decimal(out: &mut String, n: i64)
    ensures
        final(out)@ == old(out)@ + decimal(n as int),
{
    if n < 0 {
        out.append("-");
        proof {
            reveal_strlit("-");
        }
        let magnitude: u64 = if n == i64::MIN {
            0x8000_0000_0000_0000u64
        } else {
            (-n) as u64
        };
        append_digits(out, magnitude);
        assert(out@ =~= old(out)@ + decimal(n as int));
    } else {
        append_digits(out, n as u64);
    }
}

} // verus!
