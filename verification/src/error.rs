//! Errors, their stable wire codes, and the codes' exit statuses.
use vstd::prelude::*;
use vstd::string::*;

use crate::status::TaskStatus;
use crate::task::TaskId;
use crate::text::{decimal, i64_decimal};

verus! {

/// Stable strings an agent skill branches on. Exit codes, not HTTP statuses,
/// are the contract an agent sees.
#[derive(Debug, Clone, Copy, PartialEq, Eq, Structural)]
pub enum ErrorCode {
    NotFound,
    IllegalTransition,
    Validation,
    Storage,
    Unreachable,
    Internal,
    /// A route exists but its handler is not written yet. Not part of the
    /// stable set of codes.
    Unimplemented,
}

impl ErrorCode {
    /// The snake_case string of the code.
    pub open spec fn wire_name(self) -> Seq<char> {
        match self {
            ErrorCode::NotFound => "not_found"@,
            ErrorCode::IllegalTransition => "illegal_transition"@,
            ErrorCode::Validation => "validation"@,
            ErrorCode::Storage => "storage"@,
            ErrorCode::Unreachable => "unreachable"@,
            ErrorCode::Internal => "internal"@,
            ErrorCode::Unimplemented => "unimplemented"@,
        }
    }

    /// The process exit status a client reports for the code.
    pub open spec fn exit_status(self) -> i32 {
        match self {
            ErrorCode::NotFound => 3,
            ErrorCode::IllegalTransition => 4,
            ErrorCode::Storage | ErrorCode::Unreachable => 5,
            ErrorCode::Validation => 6,
            ErrorCode::Internal | ErrorCode::Unimplemented => 1,
        }
    }

    pub fn as_str(self) -> (s: &'static str)
        ensures
            s@ == self.wire_name(),
    {
        match self {
            ErrorCode::NotFound => "not_found",
            ErrorCode::IllegalTransition => "illegal_transition",
            ErrorCode::Validation => "validation",
            ErrorCode::Storage => "storage",
            ErrorCode::Unreachable => "unreachable",
            ErrorCode::Internal => "internal",
            ErrorCode::Unimplemented => "unimplemented",
        }
    }

    pub fn exit_code(self) -> (c: i32)
        ensures
            c == self.exit_status(),
    {
        match self {
            ErrorCode::NotFound => 3,
            ErrorCode::IllegalTransition => 4,
            ErrorCode::Storage | ErrorCode::Unreachable => 5,
            ErrorCode::Validation => 6,
            ErrorCode::Internal | ErrorCode::Unimplemented => 1,
        }
    }
}

/// The stable strings are distinct, so a skill that branches on them can tell
/// every code apart.
pub proof fn lemma_error_code_names_distinct(a: ErrorCode, b: ErrorCode)
    ensures
        a.wire_name() == b.wire_name() ==> a == b,
{
    reveal_strlit("not_found");
    reveal_strlit("illegal_transition");
    reveal_strlit("validation");
    reveal_strlit("storage");
    reveal_strlit("unreachable");
    reveal_strlit("internal");
    reveal_strlit("unimplemented");
    if a != b && a.wire_name() == b.wire_name() {
        assert(a.wire_name().len() == b.wire_name().len());
    }
}

/// Every failure the domain reports.
#[derive(Debug)]
pub enum CrewError {
    NotFound(TaskId),
    /// Carries both states so the message can name them.
    IllegalTransition { id: TaskId, from: TaskStatus, to: TaskStatus, action: &'static str },
    Validation(String),
    Storage(String),
    Internal(String),
    Unimplemented(&'static str),
}

impl CrewError {
    pub open spec fn error_code(&self) -> ErrorCode {
        match self {
            CrewError::NotFound(_) => ErrorCode::NotFound,
            CrewError::IllegalTransition { .. } => ErrorCode::IllegalTransition,
            CrewError::Validation(_) => ErrorCode::Validation,
            CrewError::Storage(_) => ErrorCode::Storage,
            CrewError::Internal(_) => ErrorCode::Internal,
            CrewError::Unimplemented(_) => ErrorCode::Unimplemented,
        }
    }

    /// The human-readable text of the error.
    pub open spec fn display_text(&self) -> Seq<char> {
        match self {
            CrewError::NotFound(id) => "task "@ + decimal(*id as int) + " not found"@,
            CrewError::IllegalTransition { id, from, to, action } => "task "@ + decimal(
                *id as int,
            ) + " is '"@ + from.wire_name() + "'; cannot "@ + action@ + " (would be '"@
                + to.wire_name() + "')"@,
            CrewError::Validation(m) => m@,
            CrewError::Storage(m) => "storage unavailable: "@ + m@,
            CrewError::Internal(m) => m@,
            CrewError::Unimplemented(what) => what@ + " is not implemented yet"@,
        }
    }

    pub fn code(&self) -> (c: ErrorCode)
        ensures
            c == self.error_code(),
    {
        match self {
            CrewError::NotFound(_) => ErrorCode::NotFound,
            CrewError::IllegalTransition { .. } => ErrorCode::IllegalTransition,
            CrewError::Validation(_) => ErrorCode::Validation,
            CrewError::Storage(_) => ErrorCode::Storage,
            CrewError::Internal(_) => ErrorCode::Internal,
            CrewError::Unimplemented(_) => ErrorCode::Unimplemented,
        }
    }

    pub fn exit_code(&self) -> (c: i32)
        ensures
            c == self.error_code().exit_status(),
    {
        self.code().exit_code()
    }

    /// The text `Display` would print for the error.
    pub fn to_string(&self) -> (s: String)
        ensures
            s@ == self.display_text(),
    {
        match self {
            CrewError::NotFound(id) => {
                let mut s = String::from_str("task ");
                let digits = i64_decimal(*id);
                s.append(digits.as_str());
                s.append(" not found");
                s
            },
            CrewError::IllegalTransition { id, from, to, action } => {
                let mut s = String::from_str("task ");
                let digits = i64_decimal(*id);
                s.append(digits.as_str());
                s.append(" is '");
                s.append(from.as_str());
                s.append("'; cannot ");
                s.append(action);
                s.append(" (would be '");
                s.append(to.as_str());
                s.append("')");
                s
            },
            CrewError::Validation(m) => m.clone(),
            CrewError::Storage(m) => {
                let mut s = String::from_str("storage unavailable: ");
                s.append(m.as_str());
                s
            },
            CrewError::Internal(m) => m.clone(),
            CrewError::Unimplemented(what) => {
                let mut s = String::from_str(what);
                s.append(" is not implemented yet");
                s
            },
        }
    }
}

/// What every error path emits, on the wire and under `--json`:
/// `{ "error": { "code": "not_found", "message": "task 42 not found" } }`.
#[derive(Debug, Clone)]
pub struct ErrorBody {
    pub error: ErrorDetail,
}

#[derive(Debug, Clone)]
pub struct ErrorDetail {
    pub code: ErrorCode,
    pub message: String,
}

impl ErrorBody {
    pub fn new(code: ErrorCode, message: &str) -> (b: ErrorBody)
        ensures
            b.error.code == code,
            b.error.message@ == message@,
    {
        ErrorBody { error: ErrorDetail { code, message: String::from_str(message) } }
    }

}

/// The body for a domain error: its code and its text.
impl<'a> From<&'a CrewError> for ErrorBody {
    fn from(err: &'a CrewError) -> (b: ErrorBody)
        ensures
            b.error.code == err.error_code(),
            b.error.message@ == err.display_text(),
    {
        let message = err.to_string();
        ErrorBody::new(err.code(), message.as_str())
    }
}

/// The body's message is a `String` built at run time, which no spec function
/// can construct; the exact result is stated on `from` itself instead.
impl<'a> vstd::std_specs::convert::FromSpecImpl<&'a CrewError> for ErrorBody {
    open spec fn obeys_from_spec() -> bool {
        false
    }

    open spec fn from_spec(err: &'a CrewError) -> ErrorBody {
        ErrorBody {
            error: ErrorDetail { code: err.error_code(), message: vstd::pervasive::arbitrary() },
        }
    }
}

} // verus!
