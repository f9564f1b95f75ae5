//! Text that crosses the process boundary: decoding captured bytes and
//! recognising blank command lines.

use vstd::prelude::*;
use vstd::std_specs::iter::IteratorSpec;
use vstd::utf8::{decode_utf8, encode_utf8, valid_utf8};

verus! {

/// The characters with the Unicode property `White_Space`, as the Unicode
/// Character Database lists them: the controls from tab to carriage return
/// and the next-line control, the space and the no-break space, and the
/// spaces and separators of the general punctuation and beyond.
pub open spec fn is_white_space(c: char) -> bool {
    let n = c as u32;
    ||| 0x09 <= n <= 0x0D
    ||| n == 0x20
    ||| n == 0x85
    ||| n == 0xA0
    ||| n == 0x1680
    ||| 0x2000 <= n <= 0x200A
    ||| n == 0x2028
    ||| n == 0x2029
    ||| n == 0x202F
    ||| n == 0x205F
    ||| n == 0x3000
}

/// A text is blank when every character of it is white space, so that nothing
/// is left of it once it is trimmed.
pub open spec fn is_blank(s: Seq<char>) -> bool {
    forall|i: int| 0 <= i < s.len() ==> is_white_space(#[trigger] s[i])
}

/// `char::is_whitespace` of std: whether the character has the Unicode
/// property `White_Space`, whose members `is_white_space` lists.
#[verifier::external_body]
fn char_is_whitespace(c: char) -> (b: bool)
    ensures
        b == is_white_space(c),
{
    c.is_whitespace()
}

/// Whether trimming `s` leaves nothing.
pub fn blank(s: &str) -> (b: bool)
    ensures
        b == is_blank(s@),
{
    let mut it = s.chars();
    let ghost mut k: int = 0;
    loop
        invariant
            0 <= k <= s@.len(),
            it.remaining() == s@.skip(k),
            it.obeys_prophetic_iter_laws(),
            forall|i: int| 0 <= i < k ==> is_white_space(#[trigger] s@[i]),
        decreases s@.len() - k,
    {
        match it.next() {
            None => {
                return true;
            },
            Some(c) => {
                assert(c == s@[k]);
                if !char_is_whitespace(c) {
                    return false;
                }
                proof {
                    assert(s@.skip(k).drop_first() =~= s@.skip(k + 1));
                    k = k + 1;
                }
            },
        }
    }
}

/// The text that lossy decoding makes of bytes: `String::from_utf8_lossy` of
/// std, which puts U+FFFD in place of each ill-formed sequence.
pub uninterp spec fn utf8_lossy(bytes: Seq<u8>) -> Seq<char>;

/// `std::str::from_utf8`: the text that the bytes encode, if they are
/// well-formed UTF-8, and nothing if they are not.
#[verifier::external_body]
fn decode_strict(bytes: &[u8]) -> (r: Option<String>)
    ensures
        r is Some <==> valid_utf8(bytes@),
        r matches Some(s) ==> encode_utf8(s@) == bytes@,
{
    match std::str::from_utf8(bytes) {
        Ok(s) => Some(s.to_string()),
        Err(_) => None,
    }
}

/// `String::from_utf8_lossy`: the result is named, not described.
#[verifier::external_body]
fn decode_lossy(bytes: &[u8]) -> (s: String)
    ensures
        s@ == utf8_lossy(bytes@),
{
    String::from_utf8_lossy(bytes).into_owned()
}

/// What captured bytes mean as text.
pub open spec fn decoded(bytes: Seq<u8>) -> Seq<char> {
    if valid_utf8(bytes) {
        decode_utf8(bytes)
    } else {
        utf8_lossy(bytes)
    }
}

/// Decodes captured output. Well-formed UTF-8 gives the text it encodes;
/// anything else is decoded lossily, so that decoding never fails.
pub fn bytes_to_string(bytes: &[u8]) -> (s: String)
    ensures
        s@ == decoded(bytes@),
        bytes@.len() == 0 ==> s@.len() == 0,
        valid_utf8(bytes@) ==> encode_utf8(s@) == bytes@,
{
    broadcast use vstd::utf8::encode_utf8_decode_utf8, vstd::utf8::decode_utf8_encode_utf8;

    if bytes.len() == 0 {
        return String::new();
    }
    match decode_strict(bytes) {
        Some(s) => s,
        None => decode_lossy(bytes),
    }
}

} // verus!
