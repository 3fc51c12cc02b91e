use vstd::prelude::*;
use vstd::string::*;

verus! {

/// The canonical failure kinds of the service.
#[derive(Debug, PartialEq, Eq)]
pub enum AppError {
    /// The requested resource does not exist.
    NotFound(String),
    /// The input failed field-level checks; holds every failing field.
    Validation(String),
    /// The auth guard rejected the request.
    Auth,
    /// A storage or transport fault; the detail is for the server log only.
    Db(String),
}

impl AppError {
    /// The transport status that this failure maps to.
    pub open spec fn status_spec(&self) -> u16 {
        match self {
            AppError::NotFound(_) => 404,
            AppError::Validation(_) => 400,
            AppError::Auth => 401,
            AppError::Db(_) => 500,
        }
    }

    /// The text that the client sees in the `error` field. An internal fault
    /// is never echoed.
    pub open spec fn message_spec(&self) -> Seq<char> {
        match self {
            AppError::NotFound(m) => "Not found: "@ + m@,
            AppError::Validation(m) => "Invalid input: "@ + m@,
            AppError::Auth => "Unauthorized"@,
            AppError::Db(_) => "Internal error"@,
        }
    }

    pub fn status_code(&self) -> (r: u16)
        ensures
            r == self.status_spec(),
    {
        match self {
            AppError::NotFound(_) => 404,
            AppError::Validation(_) => 400,
            AppError::Auth => 401,
            AppError::Db(_) => 500,
        }
    }

    pub fn message(&self) -> (r: String)
        ensures
            r@ == self.message_spec(),
    {
        match self {
            AppError::NotFound(m) => String::from_str("Not found: ").concat(m.as_str()),
            AppError::Validation(m) => String::from_str("Invalid input: ").concat(m.as_str()),
            AppError::Auth => String::from_str("Unauthorized"),
            AppError::Db(_) => String::from_str("Internal error"),
        }
    }
}

} // verus!
