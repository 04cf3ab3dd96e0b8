//! Conversions between bytes and text that the standard library performs.

use vstd::prelude::*;
use vstd::utf8::*;

verus! {

/// The text that lossy UTF-8 decoding makes of `bytes`: well-formed parts are kept and
/// each malformed part is replaced by a replacement character.
pub uninterp spec fn utf8_lossy(bytes: Seq<u8>) -> Seq<char>;

/// `text` without its leading and trailing white space.
pub uninterp spec fn trimmed(text: Seq<char>) -> Seq<char>;

/// Whether `c` is white space: a character with the Unicode property `White_Space`.
pub open spec fn is_white_space(c: char) -> bool {
    let code = c as u32;
    ||| 0x09 <= code <= 0x0d
    ||| code == 0x20
    ||| code == 0x85
    ||| code == 0xa0
    ||| code == 0x1680
    ||| 0x2000 <= code <= 0x200a
    ||| code == 0x2028
    ||| code == 0x2029
    ||| code == 0x202f
    ||| code == 0x205f
    ||| code == 0x3000
}

/// Whether `text` is blank: it holds nothing but white space. The empty text is blank.
pub open spec fn blank(text: Seq<char>) -> bool {
    forall|i: int| 0 <= i < text.len() ==> is_white_space(#[trigger] text[i])
}

/// Strict UTF-8 decoding of an owned buffer.
///
/// Trusted: `String::from_utf8` succeeds exactly on well-formed UTF-8 and then holds the
/// decoded text; otherwise its error gives the buffer back untouched.
#[verifier::external_body]
pub(crate) fn string_from_utf8(bytes: Vec<u8>) -> (r: Result<String, Vec<u8>>)
    ensures
        valid_utf8(bytes@) ==> r is Ok && r->Ok_0@ == decode_utf8(bytes@),
        !valid_utf8(bytes@) ==> r is Err && r->Err_0@ == bytes@,
{
    match String::from_utf8(bytes) {
        Ok(text) => Ok(text),
        Err(e) => Err(e.into_bytes()),
    }
}

/// Lossy UTF-8 decoding.
///
/// Trusted: the result of `String::from_utf8_lossy` depends on the bytes alone; the
/// contract gives it the name [`utf8_lossy`] and claims nothing else of it.
#[verifier::external_body]
pub(crate) fn string_from_utf8_lossy(bytes: &[u8]) -> (r: String)
    ensures
        r@ == utf8_lossy(bytes@),
{
    String::from_utf8_lossy(bytes).into_owned()
}

/// Removes leading and trailing white space.
///
/// Trusted: the result of `str::trim` depends on the text alone; the contract gives it
/// the name [`trimmed`]. Of the name it claims one thing: since what is removed is
/// white space by the Unicode property `White_Space`, and only from the ends, nothing
/// is left exactly of a text that holds nothing but such characters.
#[verifier::external_body]
pub(crate) fn trim<'a>(text: &'a str) -> (r: &'a str)
    ensures
        r@ == trimmed(text@),
        r@.len() == 0 <==> blank(text@),
{
    text.trim()
}

} // verus!
