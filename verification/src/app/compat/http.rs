//! OneBot 11 over HTTP and HTTP POST: settings of the POST side and how the
//! answers of the OneBot 11 HTTP API are read.
use vstd::prelude::*;

use serde_value::Value;

use crate::interface::Error;
use crate::model::{RespError, RetCode};

verus! {

/// Settings of the OneBot 11 HTTP POST side: the secret posts are signed
/// with, if any.
#[derive(Debug, Clone)]
pub struct OB11PostConf {
    pub secret: Option<String>,
}

impl OB11PostConf {
    /// Settings without a secret: posts are not checked.
    pub fn new() -> (c: OB11PostConf)
        ensures
            c.secret is None,
    {
        OB11PostConf { secret: None }
    }

    /// Settings whose posts must be signed with `secret`.
    pub fn with_secret(secret: String) -> (c: OB11PostConf)
        ensures
            c.secret == Some(secret),
    {
        OB11PostConf { secret: Some(secret) }
    }
}

/// Commands of the OneBot 11 HTTP POST side.
#[derive(Debug, Clone, Copy, PartialEq, Eq, Structural)]
pub enum HttpPostCommand {
    Close,
}

/// The `Authorization` header value for an access token.
pub fn bearer(token: &str) -> (h: String)
    ensures
        h@ == "Bearer "@ + token@,
{
    let mut h = String::from_str("Bearer ");
    h.append(token);
    h
}

/// How the HTTP status of an answer of the OneBot 11 API is read: `200` is an
/// answer to parse; `404` means the action does not exist; `400` a bad body;
/// any other status is an HTTP error carrying the status as its code.
pub fn ob11_status_outcome(status: u16, action: &str) -> (r: Result<(), RespError>)
    ensures
        status == 200 ==> r is Ok,
        status == 404 ==> (r matches Err(e) && e.retcode == RetCode::UnsupportedAction
            && e.message@ == "unsupported action: `"@ + action@ + "`"@ && e.echo is None),
        status == 400 ==> (r matches Err(e) && e.retcode == RetCode::BadParam && e.message@ == "post body error"@
            && e.echo is None),
        status != 200 && status != 404 && status != 400 ==> (r matches Err(e)
            && e.retcode == RetCode::OtherError(status as u32) && e.message@ == "http error"@ && e.echo is None),
{
    if status == 200 {
        Ok(())
    } else if status == 404 {
        let mut m = String::from_str("unsupported action: `");
        m.append(action);
        m.append("`");
        Err(RespError::new(RetCode::UnsupportedAction, m))
    } else if status == 400 {
        Err(RespError::new(RetCode::BadParam, String::from_str("post body error")))
    } else {
        Err(RespError::new(RetCode::OtherError(status as u32), String::from_str("http error")))
    }
}

/// An answer of the OneBot 11 API.
#[derive(Debug, Clone)]
pub struct Ob11RespData {
    pub status: String,
    pub retcode: i64,
    pub data: Value,
    pub echo: Option<String>,
}

/// Whether an OneBot 11 answer reports that the action was taken. This
/// encodes OneBot 11's rule for return codes: 0 means done, 1 means accepted
/// to be done asynchronously, any other code is a failure. The success test
/// of the `onebot-types` crate, which OneBot 11 answers are otherwise read
/// with, is not available, so this rule stands in its place.
pub open spec fn ob11_success(retcode: i64) -> bool {
    retcode == 0 || retcode == 1
}

/// The data of a successful OneBot 11 answer, or the error for a failed one,
/// which carries the OneBot 11 return code.
pub fn check_ob11_response(resp: Ob11RespData) -> (r: Result<Value, RespError>)
    ensures
        ob11_success(resp.retcode) ==> r == Ok::<Value, RespError>(resp.data),
        !ob11_success(resp.retcode) ==> (r matches Err(e) && e.retcode == RetCode::OtherError(resp.retcode as u32)
            && e.message@ == "OneBot 11 error"@ && e.echo == resp.echo),
{
    if resp.retcode == 0 || resp.retcode == 1 {
        Ok(resp.data)
    } else {
        Err(RespError {
            retcode: RetCode::OtherError(resp.retcode as u32),
            message: String::from_str("OneBot 11 error"),
            echo: resp.echo,
        })
    }
}

/// The refusal of the HTTP POST side to send an action itself.
pub fn post_side_action_refused() -> (e: Error)
    ensures
        e matches Error::NotSupported(m) && m@ == "http post, send action"@,
{
    Error::NotSupported(String::from_str("http post, send action"))
}

} // verus!
