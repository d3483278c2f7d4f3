//! The contract between user code and connections: errors, close reasons,
//! response arguments, file upload records and implementation-side actions.
use vstd::prelude::*;

use serde_value::Value;

use crate::model::{RespData, RespError, RespStatus, RetCode};
use crate::outside::{option_value, value_option};

pub mod imp;
pub mod upload;

use self::upload::UploadError;

verus! {

/// Why a connection was closed.
#[derive(Debug, Clone, PartialEq, Eq)]
pub enum ClosedReason {
    /// Closed successfully.
    Clean,
    /// Closed, but some error occurred.
    Error(String),
    /// Partially closed.
    Partial(String),
}

/// Error while reading or writing a connection setting.
#[derive(Debug, Clone)]
pub enum ConfigError {
    TypeMismatch(String, String),
    UnknownKey(String),
    Other(String),
}

/// Error of a connection operation.
#[derive(Debug, Clone)]
pub enum Error {
    Resp(RespError),
    Serialize(String),
    Deserialize(String),
    Config(ConfigError),
    NotSupported(String),
    Closed(String),
    Missing(String),
    Upload(UploadError),
    Other(String),
}

impl Error {
    /// An `Other` error with the given text.
    pub fn other(msg: String) -> (e: Error)
        ensures
            e == Error::Other(msg),
    {
        Error::Other(msg)
    }

    /// A `Serialize` error with the given text.
    pub fn serialize(msg: String) -> (e: Error)
        ensures
            e == Error::Serialize(msg),
    {
        Error::Serialize(msg)
    }

    /// A `Deserialize` error with the given text.
    pub fn deserialize(msg: String) -> (e: Error)
        ensures
            e == Error::Deserialize(msg),
    {
        Error::Deserialize(msg)
    }

    /// A `NotSupported` error with the given text.
    pub fn not_supported(msg: String) -> (e: Error)
        ensures
            e == Error::NotSupported(msg),
    {
        Error::NotSupported(msg)
    }

    /// A `Closed` error with the given text.
    pub fn closed(msg: String) -> (e: Error)
        ensures
            e == Error::Closed(msg),
    {
        Error::Closed(msg)
    }

    /// A `Missing` error naming what is missing.
    pub fn missing(msg: String) -> (e: Error)
        ensures
            e == Error::Missing(msg),
    {
        Error::Missing(msg)
    }
}

/// The error with which a connection refuses to set an unknown setting.
pub fn unknown_config_key(key: String) -> (e: Error)
    ensures
        e == Error::Config(ConfigError::UnknownKey(key)),
{
    Error::Config(ConfigError::UnknownKey(key))
}

/// Turns an optional action response into a result: a connection that gives
/// no response does not support responses.
pub fn process_resp<R>(resp: Option<R>) -> (r: Result<R, Error>)
    ensures
        match resp {
            Some(v) => r == Ok::<R, Error>(v),
            None => r matches Err(Error::NotSupported(m)) && m@ == "action response not supported"@,
        },
{
    match resp {
        Some(res) => Ok(res),
        None => Err(Error::NotSupported(String::from_str("action response not supported"))),
    }
}

/// Requires that a response came back, treating its absence as a missing
/// response.
pub fn require_response<R>(resp: Option<R>) -> (r: Result<R, Error>)
    ensures
        match resp {
            Some(v) => r == Ok::<R, Error>(v),
            None => r matches Err(Error::Missing(m)) && m@ == "response"@,
        },
{
    match resp {
        Some(res) => Ok(res),
        None => Err(Error::Missing(String::from_str("response"))),
    }
}

/// What sending an action gives back: `Ok(Some(data))` for a successful
/// response, the response's error for a failed one, and `Ok(None)` where the
/// connection gives no responses.
pub fn decode_action_response(resp: Option<RespData>) -> (r: Result<Option<Value>, Error>)
    ensures
        match resp {
            Some(d) => if d.status == RespStatus::Success {
                r == Ok::<Option<Value>, Error>(Some(d.data))
            } else {
                r == Err::<Option<Value>, Error>(Error::Resp(RespError { retcode: d.retcode, message: d.message, echo: d.echo }))
            },
            None => r == Ok::<Option<Value>, Error>(None),
        },
{
    match resp {
        Some(d) => {
            if d.is_success() {
                Ok(Some(d.data))
            } else {
                Err(Error::Resp(RespError::from_resp_data(d)))
            }
        },
        None => Ok(None),
    }
}

/// Response arguments passed to a connection.
#[derive(Debug, Clone)]
pub struct RespArgs {
    pub status: RespStatus,
    pub retcode: RetCode,
    pub data: Value,
    pub message: String,
}

/// The response that arguments make together with an echo.
pub open spec fn spec_into_resp_data(a: RespArgs, echo: Option<String>) -> RespData {
    RespData { status: a.status, retcode: a.retcode, data: a.data, message: a.message, echo }
}

/// The arguments that a response carries, without its echo.
pub open spec fn spec_resp_args_from(d: RespData) -> RespArgs {
    RespArgs { status: d.status, retcode: d.retcode, data: d.data, message: d.message }
}

/// The result that arguments stand for: the data, or the error when failed.
pub open spec fn spec_into_result(a: RespArgs, echo: Option<String>) -> Result<Value, RespError> {
    if a.status == RespStatus::Failed {
        Err(RespError { retcode: a.retcode, message: a.message, echo })
    } else {
        Ok(a.data)
    }
}

impl RespArgs {
    /// The arguments carried by a response.
    pub fn from_resp_data(value: RespData) -> (r: RespArgs)
        ensures
            r == spec_resp_args_from(value),
    {
        RespArgs { status: value.status, retcode: value.retcode, data: value.data, message: value.message }
    }

    /// Arguments of a failed response with an empty payload.
    pub fn failed(retcode: RetCode, msg: String) -> (r: RespArgs)
        ensures
            r.status == RespStatus::Failed,
            r.retcode == retcode,
            r.data == option_value(None),
            r.message == msg,
    {
        RespArgs { status: RespStatus::Failed, retcode, data: value_option(None), message: msg }
    }

    /// Arguments of a successful response carrying `data`.
    pub fn success(data: Value) -> (r: RespArgs)
        ensures
            r.status == RespStatus::Success,
            r.retcode == RetCode::Success,
            r.data == data,
            r.message@ == Seq::<char>::empty(),
    {
        RespArgs { status: RespStatus::Success, retcode: RetCode::Success, data, message: String::new() }
    }

    /// The response these arguments make with the given echo.
    pub fn into_resp_data(self, echo: Option<String>) -> (r: RespData)
        ensures
            r == spec_into_resp_data(self, echo),
    {
        RespData { status: self.status, retcode: self.retcode, data: self.data, message: self.message, echo }
    }

    /// The data, or the error that failed arguments stand for.
    pub fn into_result(self, echo: Option<String>) -> (r: Result<Value, RespError>)
        ensures
            r == spec_into_result(self, echo),
    {
        if self.status.is_failed() {
            Err(RespError { retcode: self.retcode, message: self.message, echo })
        } else {
            Ok(self.data)
        }
    }
}

/// Turning arguments into a response and reading the arguments back gives
/// the same arguments, whatever the echo.
pub proof fn lemma_resp_args_roundtrip(a: RespArgs, echo: Option<String>)
    ensures
        spec_resp_args_from(spec_into_resp_data(a, echo)) == a,
{
}

/// Failed arguments, such as those `failed` makes, always stand for an error
/// with their code, message and the given echo.
pub proof fn lemma_failed_is_error(a: RespArgs, echo: Option<String>)
    requires
        a.status == RespStatus::Failed,
    ensures
        spec_into_result(a, echo) == Err::<Value, RespError>(RespError { retcode: a.retcode, message: a.message, echo }),
{
}

/// Arguments stand for data exactly when the response they make is a
/// success, and the data is then the response's data.
pub proof fn lemma_result_agrees_with_response(a: RespArgs, echo: Option<String>)
    ensures
        (spec_into_result(a, echo) is Ok) <==> spec_into_resp_data(a, echo).status == RespStatus::Success,
        spec_into_result(a, echo) is Ok ==> spec_into_result(a, echo) == Ok::<Value, RespError>(spec_into_resp_data(a, echo).data),
{
}

/// The response built from arguments and an echo carries exactly that echo,
/// whatever the status, together with the arguments' status, code, data and
/// message; so a response always reaches the action it answers.
pub proof fn lemma_resp_data_carries_echo(a: RespArgs, echo: Option<String>)
    ensures
        spec_into_resp_data(a, echo).echo == echo,
        spec_into_resp_data(a, echo).status == a.status,
        spec_into_resp_data(a, echo).retcode == a.retcode,
        spec_into_resp_data(a, echo).data == a.data,
        spec_into_resp_data(a, echo).message == a.message,
{
}

} // verus!
