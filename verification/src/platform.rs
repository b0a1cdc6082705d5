//! What the library takes from outside: each item here calls one function of
//! another crate or of the standard library, and states what is relied upon.

use vstd::prelude::*;
use vstd::utf8::{encode_utf8, valid_utf8};
use vstd::string::StringSliceAdditionalSpecFns;

use crate::numeric::is_digit;
use crate::text::{chars_of, strs, text_of, Text};

verus! {

/// `std::str::from_utf8` succeeds exactly on valid UTF-8, and the string it
/// returns has the given bytes.
#[verifier::external_body]
pub(crate) fn utf8_str(bytes: &[u8]) -> (r: Option<&str>)
    ensures
        r is Some <==> valid_utf8(bytes@),
        r matches Some(s) ==> s.spec_bytes() == bytes@,
{
    std::str::from_utf8(bytes).ok()
}

/// The text that `String::from_utf8_lossy` makes of a sequence of bytes.
pub uninterp spec fn lossy(bytes: Seq<u8>) -> Seq<char>;

/// `String::from_utf8_lossy` replaces what is not UTF-8; its result depends on
/// the bytes alone, and valid UTF-8 is kept as it is.
#[verifier::external_body]
pub(crate) fn lossy_text(bytes: &[u8]) -> (r: String)
    ensures
        r@ == lossy(bytes@),
        valid_utf8(bytes@) ==> encode_utf8(r@) == bytes@,
{
    String::from_utf8_lossy(bytes).into_owned()
}

/// The text that the `Debug` form of a list of strings has.
pub uninterp spec fn debug_list(items: Seq<Seq<char>>) -> Seq<char>;

/// The `Debug` form of a vector of strings, which depends on the strings alone.
#[verifier::external_body]
pub(crate) fn debug_list_text(items: &Vec<String>) -> (r: String)
    ensures
        r@ == debug_list(strs(items@)),
{
    format!("{:?}", items)
}

/// A lower-case hexadecimal digit.
pub open spec fn is_lower_hex(c: char) -> bool {
    is_digit(c, 16) && !('A' <= c <= 'F')
}

/// The hyphenated form of a random (version four) UUID.
pub open spec fn is_uuid_text(s: Text) -> bool {
    &&& s.len() == 36
    &&& forall|i: int|
        0 <= i < 36 ==> if i == 8 || i == 13 || i == 18 || i == 23 {
            #[trigger] s[i] == '-'
        } else {
            is_lower_hex(s[i])
        }
    &&& s[14] == '4'
    &&& (s[19] == '8' || s[19] == '9' || s[19] == 'a' || s[19] == 'b')
}

/// `uuid::Uuid::new_v4` makes a random UUID, whose `Display` form is its
/// hyphenated lower-case form. Which one comes is left to chance.
#[verifier::external_body]
pub(crate) fn fresh_uuid() -> (r: String)
    ensures
        is_uuid_text(r@),
{
    uuid::Uuid::new_v4().to_string()
}

/// Eight lower-case hexadecimal digits.
pub open spec fn is_short_id(s: Text) -> bool {
    s.len() == 8 && forall|i: int| 0 <= i < 8 ==> is_lower_hex(#[trigger] s[i])
}

/// A short random identifier: the first part of a UUID.
pub fn short_id() -> (r: String)
    ensures
        is_short_id(r@),
{
    let u = fresh_uuid();
    let cs = chars_of(u.as_str());
    let r = text_of(&cs, 0, 8);
    assert forall|i: int| 0 <= i < 8 implies is_lower_hex(#[trigger] r@[i]) by {
        assert(r@[i] == u@[i]);
    }
    r
}

/// `dirs::home_dir` reads the home directory of the user from the environment;
/// its path is handed on byte by byte, and nothing is claimed of it.
#[verifier::external_body]
pub(crate) fn home_dir() -> (r: Option<Vec<u8>>) {
    dirs::home_dir().map(|p| p.into_os_string().into_encoded_bytes())
}

} // verus!
