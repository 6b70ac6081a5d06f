//! Encodings at the edge of the wire: percent-encoding of query values,
//! lossy UTF-8 decoding of response bytes, and the quoted (`{:?}`) form of
//! a string used in error messages.

use vstd::prelude::*;

use vstd::utf8::{decode_utf8, encode_utf8, valid_utf8};

verus! {

/// A byte `urlencoding::encode` leaves as it is: an ASCII letter or digit,
/// or one of `-`, `.`, `_`, `~`.
pub open spec fn url_safe_byte(b: u8) -> bool {
    (48 <= b && b <= 57) || (65 <= b && b <= 90) || (97 <= b && b <= 122) || b == 45 || b == 46
        || b == 95 || b == 126
}

/// The upper-case hex digit for `d < 16`.
pub open spec fn hex_digit(d: u8) -> char {
    if d < 10 {
        ((48 + d) as u32) as char
    } else {
        ((55 + d) as u32) as char
    }
}

/// The encoding of one byte: itself when safe, else `%XX`.
pub open spec fn percent_encode_byte(b: u8) -> Seq<char> {
    if url_safe_byte(b) {
        seq![(b as u32) as char]
    } else {
        seq!['%', hex_digit(b / 16), hex_digit(b % 16)]
    }
}

/// Percent-encoding of a byte string, byte by byte.
pub open spec fn percent_encode(bytes: Seq<u8>) -> Seq<char>
    decreases bytes.len(),
{
    if bytes.len() == 0 {
        Seq::empty()
    } else {
        percent_encode_byte(bytes[0]) + percent_encode(bytes.drop_first())
    }
}

/// What `urlencoding::encode` makes of a string: its UTF-8 bytes,
/// percent-encoded.
pub open spec fn url_encoded(s: Seq<char>) -> Seq<char> {
    percent_encode(encode_utf8(s))
}

/// A character an encoded value may hold: an ASCII letter or digit, one
/// of `-`, `.`, `_`, `~`, or the `%` of an escape.
pub open spec fn url_char(c: char) -> bool {
    ('0' <= c && c <= '9') || ('A' <= c && c <= 'Z') || ('a' <= c && c <= 'z') || c == '-' || c
        == '.' || c == '_' || c == '~' || c == '%'
}

proof fn lemma_percent_encode_chars(bytes: Seq<u8>)
    ensures
        forall|i: int| 0 <= i < percent_encode(bytes).len() ==> url_char(#[trigger] percent_encode(bytes)[i]),
    decreases bytes.len(),
{
    if bytes.len() > 0 {
        lemma_percent_encode_chars(bytes.drop_first());
        let b = bytes[0];
        let head = percent_encode_byte(b);
        let tail = percent_encode(bytes.drop_first());
        assert forall|i: int| 0 <= i < head.len() implies url_char(#[trigger] head[i]) by {
            if !url_safe_byte(b) {
                assert(b / 16 < 16);
                assert(b % 16 < 16);
            }
        }
        assert forall|i: int| 0 <= i < percent_encode(bytes).len() implies url_char(
            #[trigger] percent_encode(bytes)[i],
        ) by {
            if i < head.len() {
                assert(percent_encode(bytes)[i] == head[i]);
            } else {
                assert(percent_encode(bytes)[i] == tail[i - head.len()]);
            }
        }
    }
}

/// An encoded value holds only letters, digits, `-`, `.`, `_`, `~` and
/// `%`: never a `&`, `=`, `?`, `#`, `/` or space, so it stays one value of
/// one parameter in a query string.
pub proof fn lemma_encoded_value_is_inert(s: Seq<char>)
    ensures
        forall|i: int| 0 <= i < url_encoded(s).len() ==> url_char(#[trigger] url_encoded(s)[i]),
{
    lemma_percent_encode_chars(encode_utf8(s));
}

/// `urlencoding::encode`: percent-encodes every byte of the UTF-8 form of
/// `s` except ASCII letters, digits and `-`, `_`, `.`, `~`, with upper-case
/// hex digits.
#[verifier::external_body]
pub(crate) fn url_encode(s: &str) -> (r: String)
    ensures
        r@ == url_encoded(s@),
{
    urlencoding::encode(s).into_owned()
}

/// What `String::from_utf8_lossy` makes of bytes. On valid UTF-8 it is the
/// decoded text.
pub uninterp spec fn utf8_lossy(bytes: Seq<u8>) -> Seq<char>;

/// `String::from_utf8_lossy`: the text of `bytes`, each invalid sequence
/// replaced by U+FFFD; valid UTF-8 comes back unchanged.
#[verifier::external_body]
pub(crate) fn utf8_lossy_string(bytes: &[u8]) -> (r: String)
    ensures
        r@ == utf8_lossy(bytes@),
        valid_utf8(bytes@) ==> r@ == decode_utf8(bytes@),
{
    String::from_utf8_lossy(bytes).into_owned()
}

/// The `Debug` form of a string: quoted, with quotes, backslashes and
/// control characters escaped.
pub uninterp spec fn debug_quoted(s: Seq<char>) -> Seq<char>;

/// A character the `Debug` form of a string leaves as it is: printable
/// ASCII other than the double quote and the backslash.
pub open spec fn debug_plain(c: char) -> bool {
    ' ' <= c && c <= '~' && c != '"' && c != '\\'
}

/// `format!("{:?}", s)` for a string: `s` in double quotes, escaped; a
/// string of plain printable ASCII comes out as itself in quotes.
#[verifier::external_body]
pub(crate) fn debug_str(s: &str) -> (r: String)
    ensures
        r@ == debug_quoted(s@),
        (forall|i: int| 0 <= i < s@.len() ==> debug_plain(#[trigger] s@[i])) ==> r@ == seq!['"']
            + s@ + seq!['"'],
{
    format!("{:?}", s)
}

} // verus!
