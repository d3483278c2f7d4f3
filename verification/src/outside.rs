//! Declarations of outside types and the wrappers through which the library
//! calls outside crates and std functions that vstd does not specify.
use vstd::prelude::*;

use hmac::{Hmac, Mac};
use rand::Rng;
use serde_value::Value;
use sha1::Sha1;

verus! {

/// `serde_value::Value`: a dynamically typed payload that the library carries
/// without looking into it.
#[verifier::external_type_specification]
#[verifier::external_body]
pub struct ExValue(Value);

/// `Clone` of `serde_value::Value`, which is derived: the copy is the same
/// value.
pub assume_specification[ <Value as Clone>::clone ](v: &Value) -> (res: Value)
    ensures
        res == *v,
;

/// `std::io::Error`, carried inside file system errors.
#[verifier::external_type_specification]
#[verifier::external_body]
pub struct ExIoError(std::io::Error);

/// The value `serde_value::Value::Option(inner)`.
pub uninterp spec fn option_value(inner: Option<Value>) -> Value;

/// Builds the `serde_value::Value::Option` variant around `inner`.
/// The contract only names the result after its argument.
#[verifier::external_body]
pub(crate) fn value_option(inner: Option<Value>) -> (v: Value)
    ensures
        v == option_value(inner),
{
    Value::Option(inner.map(Box::new))
}

/// Builds the `serde_value::Value::Unit` variant, which is what
/// `serde_value::to_value(())` gives. The value is a constant of an opaque
/// type, so the contract claims nothing of it.
#[verifier::external_body]
pub(crate) fn value_unit(u: ()) -> Value {
    Value::Unit
}

/// A byte that `http` accepts in a header value (`HeaderValue::from_bytes`).
pub open spec fn is_valid_header_byte(b: u8) -> bool {
    (b >= 32 && b != 127) || b == 9
}

/// A byte that `http::HeaderValue::to_str` accepts: visible ASCII or tab.
pub open spec fn is_visible_ascii(b: u8) -> bool {
    (32 <= b && b < 127) || b == 9
}

/// All bytes are valid header bytes.
pub open spec fn valid_header_bytes(bytes: Seq<u8>) -> bool {
    forall|i: int| 0 <= i < bytes.len() ==> is_valid_header_byte(#[trigger] bytes[i])
}

/// All bytes are visible ASCII.
pub open spec fn visible_ascii_bytes(bytes: Seq<u8>) -> bool {
    forall|i: int| 0 <= i < bytes.len() ==> is_visible_ascii(#[trigger] bytes[i])
}

/// Reads ASCII bytes as characters, one character per byte.
pub open spec fn ascii_chars(bytes: Seq<u8>) -> Seq<char> {
    bytes.map_values(|b: u8| b as char)
}

/// `http::HeaderValue::to_str` applied to the header value made of `bytes`.
///
/// Claims what `http` 1.x shows: the conversion succeeds exactly when every byte
/// is visible ASCII or a tab, gives those bytes as characters, and otherwise
/// fails with the text of `ToStrError`. Bytes that `HeaderValue::from_bytes`
/// refuses are left out by `requires`.
#[verifier::external_body]
pub(crate) fn header_to_str(bytes: &[u8]) -> (r: Result<String, String>)
    requires
        valid_header_bytes(bytes@),
    ensures
        r is Ok <==> visible_ascii_bytes(bytes@),
        r matches Ok(s) ==> s@ == ascii_chars(bytes@),
        r matches Err(m) ==> m@ == "failed to convert header to a str"@,
{
    let value = http::HeaderValue::from_bytes(bytes).unwrap();
    match value.to_str() {
        Ok(s) => Ok(s.to_string()),
        Err(e) => Err(e.to_string()),
    }
}

/// `http::HeaderValue::from_str`: whether a string is accepted as a header value.
///
/// Claims what `http` 1.x shows: a string is accepted exactly when every byte of
/// its UTF-8 encoding is a valid header byte; a refusal carries the text of
/// `InvalidHeaderValue`.
#[verifier::external_body]
pub(crate) fn header_value_check(s: &str) -> (r: Result<(), String>)
    ensures
        r is Ok <==> valid_header_bytes(vstd::utf8::encode_utf8(s@)),
        r matches Err(m) ==> m@ == "failed to parse header value"@,
{
    match http::HeaderValue::from_str(s) {
        Ok(_) => Ok(()),
        Err(e) => Err(e.to_string()),
    }
}

/// A byte that `http` allows in a header name: a token character, upper or
/// lower case (the table `HEADER_CHARS` of `http` 1.x).
pub open spec fn is_header_name_byte(b: u8) -> bool {
    b == 33 || (35 <= b && b <= 39) || b == 42 || b == 43 || b == 45 || b == 46 || (48 <= b && b <= 57)
        || (65 <= b && b <= 90) || (94 <= b && b <= 122) || b == 124 || b == 126
}

/// Whether `http::HeaderName::from_str` accepts a name: its UTF-8 bytes are
/// between 1 and 65535 and all are header name bytes (so the name is ASCII).
pub open spec fn header_name_accepted(name: Seq<char>) -> bool {
    let b = vstd::utf8::encode_utf8(name);
    &&& 1 <= b.len() <= 65535
    &&& forall|i: int| 0 <= i < b.len() ==> is_header_name_byte(#[trigger] b[i])
}

/// ASCII lower case: upper case letters become lower case, other characters
/// stay.
pub open spec fn ascii_lower(s: Seq<char>) -> Seq<char> {
    s.map_values(|c: char| if 'A' <= c && c <= 'Z' { ((c as u32) + 32) as char } else { c })
}

/// `http::HeaderName::from_str`, giving the name as `http` keeps it.
///
/// Claims what `http` 1.x shows (`parse_hdr`, `HeaderName::from_bytes`, the
/// table `HEADER_CHARS`): a name is accepted exactly when
/// `header_name_accepted` holds, and is then kept in ASCII lower case; a
/// refusal carries the text of `InvalidHeaderName`.
#[verifier::external_body]
pub(crate) fn header_name_check(s: &str) -> (r: Result<String, String>)
    ensures
        r is Ok <==> header_name_accepted(s@),
        r matches Ok(n) ==> n@ == ascii_lower(s@),
        r matches Err(m) ==> m@ == "invalid HTTP header name"@,
{
    match <http::HeaderName as std::str::FromStr>::from_str(s) {
        Ok(n) => Ok(n.as_str().to_string()),
        Err(e) => Err(e.to_string()),
    }
}

/// The HMAC-SHA1 tag of `data` under `key`.
pub uninterp spec fn hmac_sha1_tag(key: Seq<u8>, data: Seq<u8>) -> Seq<u8>;

/// Computes HMAC-SHA1 with the `hmac` and `sha1` crates. `Hmac::new_from_slice`
/// accepts keys of every length (longer keys are hashed first), so the call
/// cannot fail. The contract names the tag and states its length of 20 bytes.
#[verifier::external_body]
pub(crate) fn hmac_sha1(key: &[u8], data: &[u8]) -> (tag: Vec<u8>)
    ensures
        tag@ == hmac_sha1_tag(key@, data@),
        tag@.len() == 20,
{
    let mut mac = <Hmac<Sha1> as Mac>::new_from_slice(key).unwrap();
    mac.update(data);
    mac.finalize().into_bytes().to_vec()
}

/// The lowercase hexadecimal digit for a number below 16.
pub open spec fn hex_digit(n: u8) -> char {
    if n < 10 {
        (48 + n) as char
    } else {
        (87 + n) as char
    }
}

/// Lowercase hexadecimal encoding, two digits per byte.
pub open spec fn lower_hex(bytes: Seq<u8>) -> Seq<char>
    decreases bytes.len(),
{
    if bytes.len() == 0 {
        Seq::empty()
    } else {
        lower_hex(bytes.drop_last()) + seq![hex_digit(bytes.last() / 16), hex_digit(bytes.last() % 16)]
    }
}

/// `hex::encode`: lowercase hexadecimal text of the bytes, as its documentation
/// and source show.
#[verifier::external_body]
pub(crate) fn hex_encode(data: &[u8]) -> (s: String)
    ensures
        s@ == lower_hex(data@),
{
    hex::encode(data)
}

/// `rand::thread_rng().gen_range(0..bound)`: a random number below `bound`.
/// Only the range is claimed; `gen_range` panics on an empty range, which
/// `requires` leaves out.
#[verifier::external_body]
pub(crate) fn random_below(bound: usize) -> (i: usize)
    requires
        bound > 0,
    ensures
        i < bound,
{
    rand::thread_rng().gen_range(0..bound)
}

/// `rand::thread_rng().gen::<u64>()`: a random number; nothing is claimed of it.
#[verifier::external_body]
pub(crate) fn random_u64(u: ()) -> u64 {
    rand::thread_rng().gen::<u64>()
}

/// `uuid::Uuid::new_v4()` written out as text. The value is random; only the
/// length of the hyphenated form (36 characters) is claimed.
#[verifier::external_body]
pub(crate) fn new_uuid_string(u: ()) -> (s: String)
    ensures
        s@.len() == 36,
{
    uuid::Uuid::new_v4().to_string()
}

/// What `std::path::Path::extension` gives for a file name, as text.
pub uninterp spec fn path_extension(file_name: Seq<char>) -> Option<Seq<char>>;

/// `std::path::Path::new(file_name).extension()`, converted to a `String`
/// (lossless, as the input is UTF-8). The contract names the result.
#[verifier::external_body]
pub(crate) fn file_extension(file_name: &str) -> (r: Option<String>)
    ensures
        match r {
            Some(e) => path_extension(file_name@) == Some(e@),
            None => path_extension(file_name@) is None,
        },
{
    std::path::Path::new(file_name).extension().map(|e| e.to_string_lossy().into_owned())
}

} // verus!
