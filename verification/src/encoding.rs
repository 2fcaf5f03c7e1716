//! Percent-encoding of query text for use inside a URL.
//!
//! The query the user types is arbitrary text; placing it raw in a URL is
//! malformed as soon as it holds a space or a reserved character. The
//! encoding here is the standard one: the UTF-8 bytes of the text are kept
//! as they are where they are unreserved (letters, digits, `-`, `.`, `_`,
//! `~`) and written as `%` followed by two upper-case hexadecimal digits
//! everywhere else.

use vstd::prelude::*;
use vstd::string::StrSliceExecFns;
use vstd::utf8::encode_utf8;

verus! {

/// A byte that percent-encoding keeps as it is: an ASCII letter, a digit,
/// or one of `-` `.` `_` `~`.
pub open spec fn is_unreserved_byte(b: u8) -> bool {
    ||| 'a' as u8 <= b <= 'z' as u8
    ||| 'A' as u8 <= b <= 'Z' as u8
    ||| '0' as u8 <= b <= '9' as u8
    ||| b == '-' as u8
    ||| b == '.' as u8
    ||| b == '_' as u8
    ||| b == '~' as u8
}

/// The upper-case hexadecimal digit for a value below sixteen.
pub open spec fn hex_digit(n: u8) -> char
    recommends
        n < 16,
{
    if n == 0 { '0' }
    else if n == 1 { '1' }
    else if n == 2 { '2' }
    else if n == 3 { '3' }
    else if n == 4 { '4' }
    else if n == 5 { '5' }
    else if n == 6 { '6' }
    else if n == 7 { '7' }
    else if n == 8 { '8' }
    else if n == 9 { '9' }
    else if n == 10 { 'A' }
    else if n == 11 { 'B' }
    else if n == 12 { 'C' }
    else if n == 13 { 'D' }
    else if n == 14 { 'E' }
    else { 'F' }
}

/// The three characters `%XY` that escape one byte.
pub open spec fn byte_escape(b: u8) -> Seq<char> {
    seq!['%', hex_digit(b / 16), hex_digit(b % 16)]
}

/// What one byte of the text contributes to the encoded form.
pub open spec fn encoded_byte(b: u8) -> Seq<char> {
    if is_unreserved_byte(b) {
        seq![b as char]
    } else {
        byte_escape(b)
    }
}

/// The percent-encoded form of a byte sequence: each byte's contribution,
/// in order.
pub open spec fn percent_encoding_of(bytes: Seq<u8>) -> Seq<char>
    decreases bytes.len(),
{
    if bytes.len() == 0 {
        Seq::empty()
    } else {
        percent_encoding_of(bytes.drop_last()) + encoded_byte(bytes.last())
    }
}

/// Relies on `String::push`, documented to append the given character to
/// the end of the string.
#[verifier::external_body]
fn push_char(s: &mut String, c: char)
    ensures
        final(s)@ == old(s)@.push(c),
{
    s.push(c)
}

/// The upper-case hexadecimal digit for a value below sixteen.
fn hex_digit_char(n: u8) -> (c: char)
    requires
        n < 16,
    ensures
        c == hex_digit(n),
{
    if n == 0 { '0' }
    else if n == 1 { '1' }
    else if n == 2 { '2' }
    else if n == 3 { '3' }
    else if n == 4 { '4' }
    else if n == 5 { '5' }
    else if n == 6 { '6' }
    else if n == 7 { '7' }
    else if n == 8 { '8' }
    else if n == 9 { '9' }
    else if n == 10 { 'A' }
    else if n == 11 { 'B' }
    else if n == 12 { 'C' }
    else if n == 13 { 'D' }
    else if n == 14 { 'E' }
    else { 'F' }
}

/// Percent-encodes a text: the UTF-8 bytes of `s`, each kept or escaped as
/// `encoded_byte` says.
pub fn percent_encode(s: &str) -> (r: String)
    ensures
        r@ == percent_encoding_of(encode_utf8(s@)),
{
    let bytes: Vec<u8> = s.as_bytes_vec();
    let mut out = String::new();
    for i in 0..bytes.len()
        invariant
            bytes@ == encode_utf8(s@),
            out@ == percent_encoding_of(bytes@.take(i as int)),
    {
        let b = bytes[i];
        proof {
            assert(bytes@.take(i + 1).drop_last() =~= bytes@.take(i as int));
            assert(bytes@.take(i + 1).last() == b);
        }
        if ('a' as u8 <= b && b <= 'z' as u8) || ('A' as u8 <= b && b <= 'Z' as u8)
            || ('0' as u8 <= b && b <= '9' as u8) || b == '-' as u8 || b == '.' as u8
            || b == '_' as u8 || b == '~' as u8 {
            push_char(&mut out, b as char);
            proof {
                assert(out@ =~= percent_encoding_of(bytes@.take(i + 1)));
            }
        } else {
            push_char(&mut out, '%');
            push_char(&mut out, hex_digit_char(b / 16));
            push_char(&mut out, hex_digit_char(b % 16));
            proof {
                assert(out@ =~= percent_encoding_of(bytes@.take(i + 1)));
            }
        }
    }
    proof {
        assert(bytes@.take(bytes@.len() as int) =~= bytes@);
    }
    out
}

} // verus!
