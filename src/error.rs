use vstd::prelude::*;

verus! {

/// The interpreter's standard error categories.
#[derive(Clone, Copy, Debug, PartialEq, Eq, Structural)]
pub enum ErrorCode {
    Unimplemented,
    Unsupported,
    Internal,
    Alloc,
    Assertion,
    Api,
    Uncaught,
    Error,
    Eval,
    Range,
    Reference,
    Syntax,
    Type,
    Uri,
}

/// The interpreter's numeric code of each category.
pub open spec fn code_value(c: ErrorCode) -> i32 {
    match c {
        ErrorCode::Unimplemented => 50,
        ErrorCode::Unsupported => 51,
        ErrorCode::Internal => 52,
        ErrorCode::Alloc => 53,
        ErrorCode::Assertion => 54,
        ErrorCode::Api => 55,
        ErrorCode::Uncaught => 56,
        ErrorCode::Error => 100,
        ErrorCode::Eval => 101,
        ErrorCode::Range => 102,
        ErrorCode::Reference => 103,
        ErrorCode::Syntax => 104,
        ErrorCode::Type => 105,
        ErrorCode::Uri => 106,
    }
}

impl ErrorCode {
    /// The numeric code that the interpreter uses for this category.
    pub fn code(&self) -> (r: i32)
        ensures
            r == code_value(*self),
            0 < r <= 106,
    {
        match self {
            ErrorCode::Unimplemented => 50,
            ErrorCode::Unsupported => 51,
            ErrorCode::Internal => 52,
            ErrorCode::Alloc => 53,
            ErrorCode::Assertion => 54,
            ErrorCode::Api => 55,
            ErrorCode::Uncaught => 56,
            ErrorCode::Error => 100,
            ErrorCode::Eval => 101,
            ErrorCode::Range => 102,
            ErrorCode::Reference => 103,
            ErrorCode::Syntax => 104,
            ErrorCode::Type => 105,
            ErrorCode::Uri => 106,
        }
    }
}

/// An error of the bridge or of the guest script: a category, and a
/// human-readable message where one is known.
#[derive(Clone, Debug, PartialEq, Eq)]
pub struct DuktapeError {
    pub code: ErrorCode,
    pub message: Option<String>,
}

pub type DuktapeResult<T> = Result<T, DuktapeError>;

impl DuktapeError {
    /// An error that carries only a category.
    pub fn from_code(code: ErrorCode) -> (r: DuktapeError)
        ensures
            r.code == code,
            r.message is None,
    {
        DuktapeError { code, message: None }
    }

    /// A generic error with a message.
    pub fn from_str(msg: &str) -> (r: DuktapeError)
        ensures
            r.code == ErrorCode::Error,
            r.message is Some,
            r.message->Some_0@ == msg@,
    {
        DuktapeError { code: ErrorCode::Error, message: Some(msg.to_owned()) }
    }

    /// The message, if the error has one.
    pub fn message(&self) -> (r: Option<String>)
        ensures
            r is Some <==> self.message is Some,
            r is Some ==> r->Some_0@ == self.message->Some_0@,
    {
        match &self.message {
            Some(m) => Some(m.clone()),
            None => None,
        }
    }
}

} // verus!
