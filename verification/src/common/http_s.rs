//! Checks that an HTTP server runs on each request before handing its body
//! on: access token, content type and, for OneBot 11 posts, the body
//! signature.
use vstd::prelude::*;

use crate::outside::{
    ascii_chars, header_to_str, hex_encode, hmac_sha1, hmac_sha1_tag, lower_hex, valid_header_bytes,
    visible_ascii_bytes,
};

verus! {

/// Settings of an HTTP server: the expected `Authorization` header and
/// `access_token` query parameter, when access is restricted.
#[derive(Debug, Clone)]
pub struct HttpConfig {
    pub authorization: Option<(String, String)>,
}

impl HttpConfig {
    /// A server open to every request.
    pub fn new() -> (c: HttpConfig)
        ensures
            c.authorization is None,
    {
        HttpConfig { authorization: None }
    }

    /// A server that accepts the header `Bearer <token>` or the query
    /// parameter `access_token=<token>`.
    pub fn with_access_token(token: String) -> (c: HttpConfig)
        ensures
            c.authorization matches Some((h, q)) && h@ == "Bearer "@ + token@ && q@ == token@,
    {
        let mut header = String::from_str("Bearer ");
        header.append(token.as_str());
        HttpConfig { authorization: Some((header, token)) }
    }
}

/// The answer to a request whose body was accepted: a body to send back,
/// or only a status.
#[derive(Debug, Clone)]
pub enum HttpResponse<R> {
    Data(R),
    Other { status: u16 },
}

/// Why a request is refused.
#[derive(Debug, Clone)]
pub enum Rejection {
    /// The access token does not match.
    Forbidden,
    /// No access token was given.
    Unauthorized,
    /// The query string could not be read; carries the reason.
    InvalidQuery(String),
    /// No `Content-Type` header.
    MissingContentType,
    /// The `Content-Type` header is not text; carries the reason.
    InvalidContentType(String),
    /// The content type is not JSON.
    NotAcceptable,
    /// The body could not be read or parsed.
    BadBody,
    /// No `X-Signature` header.
    MissingSignature,
    /// The `X-Signature` header is not text.
    InvalidSignature,
    /// The signature does not match the body.
    SignatureMismatch,
}

/// The HTTP status a refusal is answered with.
pub open spec fn rejection_status(r: Rejection) -> u16 {
    match r {
        Rejection::Forbidden => 403,
        Rejection::Unauthorized => 401,
        Rejection::InvalidQuery(_) => 400,
        Rejection::MissingContentType => 400,
        Rejection::InvalidContentType(_) => 400,
        Rejection::NotAcceptable => 406,
        Rejection::BadBody => 400,
        Rejection::MissingSignature => 400,
        Rejection::InvalidSignature => 400,
        Rejection::SignatureMismatch => 401,
    }
}

impl Rejection {
    /// The HTTP status of the answer.
    pub fn status(&self) -> (s: u16)
        ensures
            s == rejection_status(*self),
    {
        match self {
            Rejection::Forbidden => 403,
            Rejection::Unauthorized => 401,
            Rejection::InvalidQuery(_) => 400,
            Rejection::MissingContentType => 400,
            Rejection::InvalidContentType(_) => 400,
            Rejection::NotAcceptable => 406,
            Rejection::BadBody => 400,
            Rejection::MissingSignature => 400,
            Rejection::InvalidSignature => 400,
            Rejection::SignatureMismatch => 401,
        }
    }

    /// The text of the answer's body, if it has one.
    pub fn body(&self) -> (b: Option<String>)
        ensures
            match *self {
                Rejection::InvalidQuery(e) => b matches Some(t) && t@ == "invalid request query: "@ + e@,
                Rejection::MissingContentType => b matches Some(t) && t@ == "missing header `Content-Type`"@,
                Rejection::InvalidContentType(e) => b == Some(e),
                Rejection::MissingSignature => b matches Some(t) && t@ == "missing signature"@,
                Rejection::InvalidSignature => b matches Some(t) && t@ == "invalid signature"@,
                Rejection::SignatureMismatch => b matches Some(t) && t@ == "signature check failed"@,
                _ => b is None,
            },
    {
        match self {
            Rejection::InvalidQuery(e) => {
                let mut t = String::from_str("invalid request query: ");
                t.append(e.as_str());
                Some(t)
            },
            Rejection::MissingContentType => Some(String::from_str("missing header `Content-Type`")),
            Rejection::InvalidContentType(e) => Some(e.clone()),
            Rejection::MissingSignature => Some(String::from_str("missing signature")),
            Rejection::InvalidSignature => Some(String::from_str("invalid signature")),
            Rejection::SignatureMismatch => Some(String::from_str("signature check failed")),
            _ => None,
        }
    }
}

/// Compares two byte strings.
pub fn bytes_equal(a: &[u8], b: &[u8]) -> (r: bool)
    ensures
        r == (a@ == b@),
{
    if a.len() != b.len() {
        return false;
    }
    let mut i: usize = 0;
    while i < a.len()
        invariant
            a@.len() == b@.len(),
            i <= a@.len(),
            forall|j: int| 0 <= j < i ==> a@[j] == b@[j],
        decreases a@.len() - i,
    {
        if a[i] != b[i] {
            return false;
        }
        i = i + 1;
    }
    assert(a@ =~= b@);
    true
}

/// The verdict on a request's access token.
pub enum AccessVerdict {
    Granted,
    Forbidden,
    Unauthorized,
    InvalidQuery(Seq<char>),
}

/// Bytes of an optional header.
pub open spec fn opt_bytes(h: Option<&[u8]>) -> Option<Seq<u8>> {
    match h {
        Some(b) => Some(b@),
        None => None,
    }
}

/// The `access_token` a request's query string was read as: `None` without a
/// query string, else the token or the reason the query could not be read.
pub open spec fn opt_query(q: Option<Result<String, String>>) -> Option<Result<Seq<char>, Seq<char>>> {
    match q {
        Some(Ok(t)) => Some(Ok(t@)),
        Some(Err(e)) => Some(Err(e@)),
        None => None,
    }
}

/// The verdict on a request's access token, given the server's settings, the
/// bytes of its `Authorization` header and the `access_token` its query string
/// was read as. The header is consulted first; the query only when there is no
/// header. A query string that could not be read (one without an
/// `access_token` among them) is refused with the reader's reason.
pub open spec fn access_verdict(
    auth: Option<(String, String)>,
    header: Option<Seq<u8>>,
    query: Option<Result<Seq<char>, Seq<char>>>,
) -> AccessVerdict {
    match auth {
        None => AccessVerdict::Granted,
        Some((ht, qt)) => match header {
            Some(h) => if h == vstd::utf8::encode_utf8(ht@) {
                AccessVerdict::Granted
            } else {
                AccessVerdict::Forbidden
            },
            None => match query {
                None => AccessVerdict::Unauthorized,
                Some(Ok(t)) => if t == qt@ {
                    AccessVerdict::Granted
                } else {
                    AccessVerdict::Forbidden
                },
                Some(Err(e)) => AccessVerdict::InvalidQuery(e),
            },
        },
    }
}

/// A check's outcome that carries out a verdict.
pub open spec fn carries_verdict(r: Result<(), Rejection>, v: AccessVerdict) -> bool {
    match v {
        AccessVerdict::Granted => r is Ok,
        AccessVerdict::Forbidden => r matches Err(Rejection::Forbidden),
        AccessVerdict::Unauthorized => r matches Err(Rejection::Unauthorized),
        AccessVerdict::InvalidQuery(m) => r matches Err(Rejection::InvalidQuery(t)) && t@ == m,
    }
}

/// Checks a request's access token. `query` is what the request's query
/// string was read as (see `opt_query`).
pub fn check_access(
    auth: &Option<(String, String)>,
    header: Option<&[u8]>,
    query: &Option<Result<String, String>>,
) -> (r: Result<(), Rejection>)
    ensures
        carries_verdict(r, access_verdict(*auth, opt_bytes(header), opt_query(*query))),
{
    match auth {
        None => Ok(()),
        Some((header_token, query_token)) => {
            match header {
                Some(h) => {
                    if bytes_equal(h, header_token.as_str().as_bytes()) {
                        Ok(())
                    } else {
                        Err(Rejection::Forbidden)
                    }
                },
                None => match query {
                    None => Err(Rejection::Unauthorized),
                    Some(Ok(t)) => {
                        if *t == *query_token {
                            Ok(())
                        } else {
                            Err(Rejection::Forbidden)
                        }
                    },
                    Some(Err(e)) => Err(Rejection::InvalidQuery(e.clone())),
                },
            }
        },
    }
}

/// Checks that a request declares a JSON body.
pub fn check_content_type(content_type: Option<&[u8]>) -> (r: Result<(), Rejection>)
    requires
        content_type matches Some(b) ==> valid_header_bytes(b@),
    ensures
        match content_type {
            None => r matches Err(Rejection::MissingContentType),
            Some(b) => if !visible_ascii_bytes(b@) {
                r matches Err(Rejection::InvalidContentType(m)) && m@ == "failed to convert header to a str"@
            } else if ascii_chars(b@) == "application/json"@ {
                r is Ok
            } else {
                r matches Err(Rejection::NotAcceptable)
            },
        },
{
    match content_type {
        None => Err(Rejection::MissingContentType),
        Some(b) => match header_to_str(b) {
            Err(e) => Err(Rejection::InvalidContentType(e)),
            Ok(s) => {
                let json = String::from_str("application/json");
                if s == json {
                    Ok(())
                } else {
                    Err(Rejection::NotAcceptable)
                }
            },
        },
    }
}

/// Checks a request before its body is read: first the access token, then
/// the content type.
pub fn check_request(
    auth: &Option<(String, String)>,
    authorization: Option<&[u8]>,
    query: &Option<Result<String, String>>,
    content_type: Option<&[u8]>,
) -> (r: Result<(), Rejection>)
    requires
        content_type matches Some(b) ==> valid_header_bytes(b@),
    ensures
        !(access_verdict(*auth, opt_bytes(authorization), opt_query(*query)) is Granted) ==> carries_verdict(r, access_verdict(*auth, opt_bytes(authorization), opt_query(*query))),
        (access_verdict(*auth, opt_bytes(authorization), opt_query(*query)) is Granted) ==> match content_type {
            None => r matches Err(Rejection::MissingContentType),
            Some(b) => if !visible_ascii_bytes(b@) {
                r matches Err(Rejection::InvalidContentType(m)) && m@ == "failed to convert header to a str"@
            } else if ascii_chars(b@) == "application/json"@ {
                r is Ok
            } else {
                r matches Err(Rejection::NotAcceptable)
            },
        },
{
    match check_access(auth, authorization, query) {
        Err(e) => Err(e),
        Ok(()) => check_content_type(content_type),
    }
}

/// Whether a WebSocket handshake carries the expected token: any handshake
/// when no token is set, else one whose `Authorization` header is text equal
/// to `Bearer <token>`.
pub fn ws_token_accepted(access_token: Option<&str>, header: Option<&[u8]>) -> (r: bool)
    requires
        header matches Some(h) ==> valid_header_bytes(h@),
    ensures
        match access_token {
            None => r,
            Some(t) => match header {
                None => !r,
                Some(h) => r == (visible_ascii_bytes(h@) && ascii_chars(h@) == "Bearer "@ + t@),
            },
        },
{
    match access_token {
        None => true,
        Some(token) => match header {
            None => false,
            Some(h) => match header_to_str(h) {
                Err(_) => false,
                Ok(s) => {
                    let mut expected = String::from_str("Bearer ");
                    expected.append(token);
                    s == expected
                },
            },
        },
    }
}

/// The signature that a OneBot 11 post carries for a body under a secret:
/// lowercase hex of the body's HMAC-SHA1.
pub open spec fn expected_signature(secret: Seq<char>, body: Seq<u8>) -> Seq<char> {
    lower_hex(hmac_sha1_tag(vstd::utf8::encode_utf8(secret), body))
}

/// Checks the `X-Signature` header of a OneBot 11 post before its body is
/// read: with a secret set, a post without the header is refused as missing
/// its signature, and one whose header is not text as carrying an invalid
/// one; `check_signature` compares the signature once the body is read.
pub fn check_signature_header(secret: Option<&str>, signature: Option<&[u8]>) -> (r: Result<(), Rejection>)
    requires
        signature matches Some(s) ==> valid_header_bytes(s@),
    ensures
        match secret {
            None => r is Ok,
            Some(_) => match signature {
                None => r matches Err(Rejection::MissingSignature),
                Some(s) => if !visible_ascii_bytes(s@) {
                    r matches Err(Rejection::InvalidSignature)
                } else {
                    r is Ok
                },
            },
        },
{
    match secret {
        None => Ok(()),
        Some(_) => match signature {
            None => Err(Rejection::MissingSignature),
            Some(sig) => match header_to_str(sig) {
                Err(_) => Err(Rejection::InvalidSignature),
                Ok(_) => Ok(()),
            },
        },
    }
}

/// Checks the `X-Signature` of a OneBot 11 post when a secret is set. The
/// header is compared from its fifth character on with the hex HMAC-SHA1 of
/// the body; a header shorter than four characters would make that slice
/// panic, which `requires` leaves out.
pub fn check_signature(secret: Option<&str>, signature: Option<&[u8]>, body: &[u8]) -> (r: Result<(), Rejection>)
    requires
        signature matches Some(s) ==> valid_header_bytes(s@),
        secret is Some ==> (signature matches Some(s) ==> (visible_ascii_bytes(s@) ==> s@.len() >= 4)),
    ensures
        match secret {
            None => r is Ok,
            Some(k) => match signature {
                None => r matches Err(Rejection::MissingSignature),
                Some(s) => if !visible_ascii_bytes(s@) {
                    r matches Err(Rejection::InvalidSignature)
                } else if ascii_chars(s@).subrange(4, s@.len() as int) == expected_signature(k@, body@) {
                    r is Ok
                } else {
                    r matches Err(Rejection::SignatureMismatch)
                },
            },
        },
{
    match secret {
        None => Ok(()),
        Some(key) => match signature {
            None => Err(Rejection::MissingSignature),
            Some(sig) => match header_to_str(sig) {
                Err(_) => Err(Rejection::InvalidSignature),
                Ok(text) => {
                    let tag = hmac_sha1(key.as_bytes(), body);
                    let expected = hex_encode(tag.as_slice());
                    let n = text.as_str().unicode_len();
                    let given = text.as_str().substring_char(4, n);
                    let given_owned = String::from_str(given);
                    if given_owned == expected {
                        Ok(())
                    } else {
                        Err(Rejection::SignatureMismatch)
                    }
                },
            },
        },
    }
}

/// Every refusal is answered with a client error status.
pub proof fn lemma_rejection_is_client_error(r: Rejection)
    ensures
        400 <= rejection_status(r) < 500,
{
}

/// A server set up with an access token grants a request that carries the
/// token in the `Authorization` header as `Bearer <token>` or, without that
/// header, in the `access_token` query parameter; it refuses any other header
/// as forbidden and a request with neither as unauthorized.
pub proof fn lemma_token_config_verdicts(
    h: String,
    q: String,
    token: Seq<char>,
    header: Seq<u8>,
    query: Option<Result<Seq<char>, Seq<char>>>,
)
    requires
        h@ == "Bearer "@ + token,
        q@ == token,
    ensures
        access_verdict(Some((h, q)), Some(vstd::utf8::encode_utf8(h@)), None) is Granted,
        header != vstd::utf8::encode_utf8(h@) ==> access_verdict(Some((h, q)), Some(header), query) is Forbidden,
        access_verdict(Some((h, q)), None, Some(Ok::<Seq<char>, Seq<char>>(token))) is Granted,
        access_verdict(Some((h, q)), None, None) is Unauthorized,
{
}

/// A server without an access token grants every request.
pub proof fn lemma_open_server_grants(header: Option<Seq<u8>>, query: Option<Result<Seq<char>, Seq<char>>>)
    ensures
        access_verdict(None, header, query) is Granted,
{
}

/// A signature header is accepted when, after any four leading characters,
/// it holds the lowercase hex HMAC-SHA1 of the body under the secret.
pub proof fn lemma_prefixed_signature_accepted(prefix: Seq<char>, secret: Seq<char>, body: Seq<u8>, header: Seq<u8>)
    requires
        prefix.len() == 4,
        ascii_chars(header) == prefix + expected_signature(secret, body),
    ensures
        ascii_chars(header).subrange(4, header.len() as int) == expected_signature(secret, body),
{
    assert(ascii_chars(header).len() == header.len());
    assert(ascii_chars(header).subrange(4, header.len() as int) =~= expected_signature(secret, body));
}

/// A header written as `sha1=<signature>`, five characters before the hex
/// digits, is never accepted: the comparison starts at the fifth character
/// and so includes the `=`.
pub proof fn lemma_sha1_prefixed_signature_refused(secret: Seq<char>, body: Seq<u8>, header: Seq<u8>)
    requires
        ascii_chars(header) == "sha1="@ + expected_signature(secret, body),
    ensures
        ascii_chars(header).subrange(4, header.len() as int) != expected_signature(secret, body),
{
    reveal_strlit("sha1=");
    assert(ascii_chars(header).len() == header.len());
    assert(ascii_chars(header).subrange(4, header.len() as int).len() == expected_signature(secret, body).len() + 1);
}

} // verus!
