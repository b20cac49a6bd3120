//! What can go wrong, and how it is reported.

use vstd::prelude::*;
use vstd::string::StringExecFns;
use crate::decimal::Decimal;

verus! {

/// The errors of the service.
#[derive(Debug, Clone)]
pub enum AppError {
    /// The store failed; the text is the store's own message.
    Database(String),
    NotFound(String),
    Conflict(String),
    Unauthorized(String),
    Forbidden(String),
    InvalidToken,
    Validation(String),
    BadRequest(String),
    /// The disbursement gateway failed or refused.
    MonnifyError(String),
    /// The notification relay failed.
    EmailError(String),
    InsufficientBalance { available: Decimal, required: Decimal },
    /// A run that has not failed already exists for the organization and pay period.
    PayrollAlreadyProcessed,
    Internal(String),
}

/// Result alias of the service.
pub type AppResult<T> = Result<T, AppError>;

impl AppError {
    /// The HTTP status an error is reported with.
    pub open spec fn status_of(self) -> int {
        match self {
            AppError::NotFound(_) => 404,
            AppError::Conflict(_) => 409,
            AppError::Unauthorized(_) => 401,
            AppError::InvalidToken => 401,
            AppError::Forbidden(_) => 403,
            AppError::Validation(_) => 400,
            AppError::BadRequest(_) => 400,
            AppError::InsufficientBalance { .. } => 422,
            AppError::PayrollAlreadyProcessed => 422,
            AppError::Database(_) => 500,
            AppError::MonnifyError(_) => 500,
            AppError::EmailError(_) => 500,
            AppError::Internal(_) => 500,
        }
    }

    /// The message an error is reported with.
    pub open spec fn message_of(self) -> Seq<char> {
        match self {
            AppError::Database(m) => "Database error: "@ + m@,
            AppError::NotFound(m) => "Record not found: "@ + m@,
            AppError::Conflict(m) => "Conflict: "@ + m@,
            AppError::Unauthorized(m) => "Unauthorized: "@ + m@,
            AppError::Forbidden(m) => "Forbidden: "@ + m@,
            AppError::InvalidToken => "Invalid token"@,
            AppError::Validation(m) => "Validation error: "@ + m@,
            AppError::BadRequest(m) => "Bad request: "@ + m@,
            AppError::MonnifyError(m) => "Monnify API error: "@ + m@,
            AppError::EmailError(m) => "Email error: "@ + m@,
            AppError::InsufficientBalance { available, required } =>
                "Insufficient wallet balance: available "@ + available@.fixed2_text()
                    + ", required "@ + required@.fixed2_text(),
            AppError::PayrollAlreadyProcessed => "Payroll already processed for this period"@,
            AppError::Internal(m) => "Internal server error: "@ + m@,
        }
    }

    /// The HTTP status an error is reported with.
    pub fn status_code(&self) -> (code: u16)
        ensures
            code == self.status_of(),
    {
        match self {
            AppError::NotFound(_) => 404,
            AppError::Conflict(_) => 409,
            AppError::Unauthorized(_) | AppError::InvalidToken => 401,
            AppError::Forbidden(_) => 403,
            AppError::Validation(_) | AppError::BadRequest(_) => 400,
            AppError::InsufficientBalance { .. } | AppError::PayrollAlreadyProcessed => 422,
            _ => 500,
        }
    }

    /// The message an error is reported with.
    pub fn message(&self) -> (text: String)
        ensures
            text@ == self.message_of(),
    {
        match self {
            AppError::Database(m) => String::from_str("Database error: ").concat(m.as_str()),
            AppError::NotFound(m) => String::from_str("Record not found: ").concat(m.as_str()),
            AppError::Conflict(m) => String::from_str("Conflict: ").concat(m.as_str()),
            AppError::Unauthorized(m) => String::from_str("Unauthorized: ").concat(m.as_str()),
            AppError::Forbidden(m) => String::from_str("Forbidden: ").concat(m.as_str()),
            AppError::InvalidToken => String::from_str("Invalid token"),
            AppError::Validation(m) => String::from_str("Validation error: ").concat(m.as_str()),
            AppError::BadRequest(m) => String::from_str("Bad request: ").concat(m.as_str()),
            AppError::MonnifyError(m) => String::from_str("Monnify API error: ").concat(m.as_str()),
            AppError::EmailError(m) => String::from_str("Email error: ").concat(m.as_str()),
            AppError::InsufficientBalance { available, required } => {
                let a = available.to_fixed2_string();
                let r = required.to_fixed2_string();
                String::from_str("Insufficient wallet balance: available ").concat(
                    a.as_str(),
                ).concat(", required ").concat(r.as_str())
            },
            AppError::PayrollAlreadyProcessed => String::from_str(
                "Payroll already processed for this period",
            ),
            AppError::Internal(m) => String::from_str("Internal server error: ").concat(m.as_str()),
        }
    }

    /// The status and the message an error is answered with.
    pub fn response_parts(&self) -> (parts: (u16, String))
        ensures
            parts.0 == self.status_of(),
            parts.1@ == self.message_of(),
    {
        (self.status_code(), self.message())
    }
}

} // verus!
