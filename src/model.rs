//! Result envelope and error taxonomy shared by the library's operations.
use vstd::prelude::*;
use vstd::string::StringExecFns;

verus! {

/// Envelope of a command's answer: the data on success, a message on failure.
#[derive(Clone, Debug, PartialEq, Eq)]
pub struct CommonResult<T> {
    pub data: Option<T>,
    pub message: String,
}

impl<T> CommonResult<T> {
    /// A successful answer carrying `data` and an empty message.
    pub fn success(data: Option<T>) -> (r: Self)
        ensures
            r.data == data,
            r.message@ == Seq::<char>::empty(),
    {
        CommonResult { data, message: String::new() }
    }

    /// A failed answer carrying `message` and no data.
    pub fn failed(message: &str) -> (r: Self)
        ensures
            r.data is None,
            r.message@ == message@,
    {
        CommonResult { data: None, message: String::from_str(message) }
    }
}

/// Why an operation was refused, with a message for the caller.
#[derive(Clone, Debug, PartialEq, Eq)]
pub enum CommonError {
    /// The caller is not allowed to do this.
    Deny(String),
    /// No record matches the key that was given.
    NotFound(String),
    /// The command's payload is malformed.
    InvalidInput(String),
    /// The task's current status does not allow the command.
    InvalidTransition(String),
    /// The ledger entry is in a state that the write would contradict.
    Conflict(String),
}

impl CommonError {
    pub fn not_found(what: &str) -> (r: CommonError)
        ensures
            r matches CommonError::NotFound(m) && m@ == what@,
    {
        CommonError::NotFound(String::from_str(what))
    }

    pub fn invalid_input(what: &str) -> (r: CommonError)
        ensures
            r matches CommonError::InvalidInput(m) && m@ == what@,
    {
        CommonError::InvalidInput(String::from_str(what))
    }

    pub fn invalid_transition(what: &str) -> (r: CommonError)
        ensures
            r matches CommonError::InvalidTransition(m) && m@ == what@,
    {
        CommonError::InvalidTransition(String::from_str(what))
    }

    pub fn conflict(what: &str) -> (r: CommonError)
        ensures
            r matches CommonError::Conflict(m) && m@ == what@,
    {
        CommonError::Conflict(String::from_str(what))
    }

    /// The message carried by the error.
    pub fn message(&self) -> (r: &String)
        ensures
            r == match self {
                CommonError::Deny(m) => m,
                CommonError::NotFound(m) => m,
                CommonError::InvalidInput(m) => m,
                CommonError::InvalidTransition(m) => m,
                CommonError::Conflict(m) => m,
            },
    {
        match self {
            CommonError::Deny(m) => m,
            CommonError::NotFound(m) => m,
            CommonError::InvalidInput(m) => m,
            CommonError::InvalidTransition(m) => m,
            CommonError::Conflict(m) => m,
        }
    }
}

} // verus!
