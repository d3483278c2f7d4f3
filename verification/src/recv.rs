//! Errors while reading data received from a connection.
use vstd::prelude::*;

use serde_json::Error as JsonError;

verus! {

/// `serde_json::Error`, carried in receive errors.
#[verifier::external_type_specification]
#[verifier::external_body]
pub struct ExJsonError(JsonError);

/// Error while reading received data.
#[derive(Debug)]
pub enum RecvError {
    SerdeJson(JsonError),
    InvalidData(String),
}

impl RecvError {
    /// Received data of a kind that is not expected.
    pub fn invalid_data(msg: String) -> (e: RecvError)
        ensures
            e matches RecvError::InvalidData(m) && m == msg,
    {
        RecvError::InvalidData(msg)
    }
}

} // verus!
