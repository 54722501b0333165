//! Percent-encoding of URL components, done by the `urlencoding` crate.

use vstd::prelude::*;
use vstd::utf8::encode_utf8;
use crate::text::digit_char;

verus! {

/// Bytes that percent-encoding leaves as they are: ASCII letters and digits,
/// and `-`, `.`, `_`, `~`.
pub open spec fn is_unreserved(b: u8) -> bool {
    (48 <= b <= 57) || (65 <= b <= 90) || (97 <= b <= 122) || b == 45 || b == 46 || b == 95
        || b == 126
}

/// An upper-case hexadecimal digit (`d < 16`).
pub open spec fn hex_upper(d: u8) -> char {
    if d < 10 {
        digit_char(d as nat)
    } else if d == 10 {
        'A'
    } else if d == 11 {
        'B'
    } else if d == 12 {
        'C'
    } else if d == 13 {
        'D'
    } else if d == 14 {
        'E'
    } else {
        'F'
    }
}

/// Percent-encoding of a byte string: unreserved bytes stay, every other byte
/// becomes `%` and its two upper-case hex digits.
pub open spec fn percent_encode(bytes: Seq<u8>) -> Seq<char>
    decreases bytes.len(),
{
    if bytes.len() == 0 {
        Seq::empty()
    } else {
        let b = bytes[0];
        (if is_unreserved(b) {
            seq![b as char]
        } else {
            seq!['%', hex_upper(b / 16), hex_upper(b % 16)]
        }) + percent_encode(bytes.drop_first())
    }
}

/// The percent-encoding of a string's UTF-8 bytes.
pub open spec fn url_encoded(s: Seq<char>) -> Seq<char> {
    percent_encode(encode_utf8(s))
}

/// Calls `urlencoding::encode`, which (by its documentation and source)
/// percent-encodes every byte of the UTF-8 encoding of `s` except ASCII
/// alphanumerics and `-`, `.`, `_`, `~`, writing hex digits in upper case.
#[verifier::external_body]
pub(crate) fn url_encode(s: &str) -> (encoded: String)
    ensures
        encoded@ == url_encoded(s@),
{
    urlencoding::encode(s).into_owned()
}

} // verus!
