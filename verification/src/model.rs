//! The OneBot 12 response model that connections exchange: status, return
//! codes, response data and errors, and action requests.
use vstd::prelude::*;

use serde_value::Value;

verus! {

/// Status field of a OneBot 12 action response.
#[derive(Debug, Clone, Copy, PartialEq, Eq, Structural)]
pub enum RespStatus {
    Success,
    Failed,
}

impl RespStatus {
    /// Whether the status is `Failed`.
    pub fn is_failed(&self) -> (r: bool)
        ensures
            r == (*self == RespStatus::Failed),
    {
        match self {
            RespStatus::Success => false,
            RespStatus::Failed => true,
        }
    }
}

/// Return code of a OneBot 12 action response, as the OneBot 12 standard
/// numbers them (0 success, 1xxxx request errors, 2xxxx handler errors,
/// 31xxx to 36xxx execution errors).
///
/// The kinds that cover a range of codes keep the full numeric code. The
/// `onebot-types` crate, which defines these codes otherwise, is not
/// available, so this model stands in its place.
#[derive(Debug, Clone, Copy, PartialEq, Eq, Structural)]
pub enum RetCode {
    Success,
    BadRequest,
    UnsupportedAction,
    BadParam,
    UnsupportedParam,
    UnsupportedSegment,
    BadSegmentData,
    UnsupportedSegmentData,
    WhoAmI,
    UnknownSelf,
    BadHandler,
    InternalHandlerError,
    DatabaseError(u32),
    FilesystemError(u32),
    NetworkError(u32),
    PlatformError(u32),
    LogicError(u32),
    IAmTired(u32),
    OtherError(u32),
}

/// The numeric code that a return code stands for on the wire.
pub open spec fn spec_code(r: RetCode) -> u32 {
    match r {
        RetCode::Success => 0,
        RetCode::BadRequest => 10001,
        RetCode::UnsupportedAction => 10002,
        RetCode::BadParam => 10003,
        RetCode::UnsupportedParam => 10004,
        RetCode::UnsupportedSegment => 10005,
        RetCode::BadSegmentData => 10006,
        RetCode::UnsupportedSegmentData => 10007,
        RetCode::WhoAmI => 10101,
        RetCode::UnknownSelf => 10102,
        RetCode::BadHandler => 20001,
        RetCode::InternalHandlerError => 20002,
        RetCode::DatabaseError(c) => c,
        RetCode::FilesystemError(c) => c,
        RetCode::NetworkError(c) => c,
        RetCode::PlatformError(c) => c,
        RetCode::LogicError(c) => c,
        RetCode::IAmTired(c) => c,
        RetCode::OtherError(c) => c,
    }
}

/// Whether a numeric code is one of the single codes with a kind of its own.
pub open spec fn is_named_code(c: u32) -> bool {
    c == 0 || (10001 <= c <= 10007) || c == 10101 || c == 10102 || c == 20001 || c == 20002
}

/// The return code that a numeric wire code is read as.
pub open spec fn spec_from_code(c: u32) -> RetCode {
    if c == 0 {
        RetCode::Success
    } else if c == 10001 {
        RetCode::BadRequest
    } else if c == 10002 {
        RetCode::UnsupportedAction
    } else if c == 10003 {
        RetCode::BadParam
    } else if c == 10004 {
        RetCode::UnsupportedParam
    } else if c == 10005 {
        RetCode::UnsupportedSegment
    } else if c == 10006 {
        RetCode::BadSegmentData
    } else if c == 10007 {
        RetCode::UnsupportedSegmentData
    } else if c == 10101 {
        RetCode::WhoAmI
    } else if c == 10102 {
        RetCode::UnknownSelf
    } else if c == 20001 {
        RetCode::BadHandler
    } else if c == 20002 {
        RetCode::InternalHandlerError
    } else if 31000 <= c <= 31999 {
        RetCode::DatabaseError(c)
    } else if 32000 <= c <= 32999 {
        RetCode::FilesystemError(c)
    } else if 33000 <= c <= 33999 {
        RetCode::NetworkError(c)
    } else if 34000 <= c <= 34999 {
        RetCode::PlatformError(c)
    } else if 35000 <= c <= 35999 {
        RetCode::LogicError(c)
    } else if 36000 <= c <= 36999 {
        RetCode::IAmTired(c)
    } else {
        RetCode::OtherError(c)
    }
}

/// A return code whose carried number lies in the range of its kind.
pub open spec fn ret_code_well_formed(r: RetCode) -> bool {
    match r {
        RetCode::DatabaseError(c) => 31000 <= c <= 31999,
        RetCode::FilesystemError(c) => 32000 <= c <= 32999,
        RetCode::NetworkError(c) => 33000 <= c <= 33999,
        RetCode::PlatformError(c) => 34000 <= c <= 34999,
        RetCode::LogicError(c) => 35000 <= c <= 35999,
        RetCode::IAmTired(c) => 36000 <= c <= 36999,
        RetCode::OtherError(c) => !is_named_code(c) && !(31000 <= c <= 36999),
        _ => true,
    }
}

impl RetCode {
    /// The numeric code of this return code.
    pub fn code(&self) -> (c: u32)
        ensures
            c == spec_code(*self),
    {
        match self {
            RetCode::Success => 0,
            RetCode::BadRequest => 10001,
            RetCode::UnsupportedAction => 10002,
            RetCode::BadParam => 10003,
            RetCode::UnsupportedParam => 10004,
            RetCode::UnsupportedSegment => 10005,
            RetCode::BadSegmentData => 10006,
            RetCode::UnsupportedSegmentData => 10007,
            RetCode::WhoAmI => 10101,
            RetCode::UnknownSelf => 10102,
            RetCode::BadHandler => 20001,
            RetCode::InternalHandlerError => 20002,
            RetCode::DatabaseError(c) => *c,
            RetCode::FilesystemError(c) => *c,
            RetCode::NetworkError(c) => *c,
            RetCode::PlatformError(c) => *c,
            RetCode::LogicError(c) => *c,
            RetCode::IAmTired(c) => *c,
            RetCode::OtherError(c) => *c,
        }
    }

    /// Reads a numeric wire code as a return code.
    pub fn from_code(c: u32) -> (r: RetCode)
        ensures
            r == spec_from_code(c),
    {
        if c == 0 {
            RetCode::Success
        } else if c == 10001 {
            RetCode::BadRequest
        } else if c == 10002 {
            RetCode::UnsupportedAction
        } else if c == 10003 {
            RetCode::BadParam
        } else if c == 10004 {
            RetCode::UnsupportedParam
        } else if c == 10005 {
            RetCode::UnsupportedSegment
        } else if c == 10006 {
            RetCode::BadSegmentData
        } else if c == 10007 {
            RetCode::UnsupportedSegmentData
        } else if c == 10101 {
            RetCode::WhoAmI
        } else if c == 10102 {
            RetCode::UnknownSelf
        } else if c == 20001 {
            RetCode::BadHandler
        } else if c == 20002 {
            RetCode::InternalHandlerError
        } else if 31000 <= c && c <= 31999 {
            RetCode::DatabaseError(c)
        } else if 32000 <= c && c <= 32999 {
            RetCode::FilesystemError(c)
        } else if 33000 <= c && c <= 33999 {
            RetCode::NetworkError(c)
        } else if 34000 <= c && c <= 34999 {
            RetCode::PlatformError(c)
        } else if 35000 <= c && c <= 35999 {
            RetCode::LogicError(c)
        } else if 36000 <= c && c <= 36999 {
            RetCode::IAmTired(c)
        } else {
            RetCode::OtherError(c)
        }
    }

    /// The return code that an HTTP status is reported as.
    pub fn from_http_status(status: u16) -> (r: RetCode)
        ensures
            r == spec_from_code(status as u32),
    {
        RetCode::from_code(status as u32)
    }
}

/// Reading a code and writing it back gives the same number, and what is
/// read is always well formed.
pub proof fn lemma_code_roundtrip(c: u32)
    ensures
        spec_code(spec_from_code(c)) == c,
        ret_code_well_formed(spec_from_code(c)),
{
}

/// A well-formed return code is read back as itself from its numeric code.
pub proof fn lemma_ret_code_roundtrip(r: RetCode)
    requires
        ret_code_well_formed(r),
    ensures
        spec_from_code(spec_code(r)) == r,
{
}

/// Response to a OneBot 12 action.
#[derive(Debug, Clone)]
pub struct RespData {
    pub status: RespStatus,
    pub retcode: RetCode,
    pub data: Value,
    pub message: String,
    pub echo: Option<String>,
}

impl RespData {
    /// Whether the response reports success.
    pub fn is_success(&self) -> (r: bool)
        ensures
            r == (self.status == RespStatus::Success),
    {
        !self.status.is_failed()
    }

    /// A successful response carrying `data`.
    pub fn success(data: Value, echo: Option<String>) -> (r: RespData)
        ensures
            r.status == RespStatus::Success,
            r.retcode == RetCode::Success,
            r.data == data,
            r.message@ == Seq::<char>::empty(),
            r.echo == echo,
    {
        RespData { status: RespStatus::Success, retcode: RetCode::Success, data, message: String::new(), echo }
    }
}

/// Error returned by the other side for an action.
#[derive(Debug, Clone)]
pub struct RespError {
    pub retcode: RetCode,
    pub message: String,
    pub echo: Option<String>,
}

impl RespError {
    /// An error with the given code and message and no echo.
    pub fn new(retcode: RetCode, message: String) -> (e: RespError)
        ensures
            e == (RespError { retcode, message, echo: None }),
    {
        RespError { retcode, message, echo: None }
    }

    /// The error that a response reports.
    pub fn from_resp_data(resp: RespData) -> (e: RespError)
        ensures
            e == (RespError { retcode: resp.retcode, message: resp.message, echo: resp.echo }),
    {
        RespError { retcode: resp.retcode, message: resp.message, echo: resp.echo }
    }
}

/// The identity of a bot on a platform.
#[derive(Debug, Clone, PartialEq, Eq)]
pub struct BotSelf {
    pub platform: String,
    pub user_id: String,
}

/// An action: its name and its parameters.
#[derive(Debug, Clone)]
pub struct ActionDetail {
    pub action: String,
    pub params: Value,
}

/// An action as it travels to an implementation.
#[derive(Debug, Clone)]
pub struct Action {
    pub action: ActionDetail,
    pub echo: Option<String>,
    pub self_: Option<BotSelf>,
}

} // verus!
