//! The errors that the registry's operations return, and what each one
//! tells the caller: a status, a kind, a message and the offending field.

use vstd::prelude::*;
use vstd::std_specs::convert::FromSpecImpl;
use vstd::string::*;

use crate::utils::models::{opt_text_of, OperatorValidationError, ValidationErrorView};
use crate::utils::text::{
    contains, debug_quoted, is_substring, quoted, to_uppercase, uppercase_of,
};

verus! {

/// The kind of an error, as it is reported to the caller.
#[derive(Debug, Clone, Copy, PartialEq, Eq, Structural)]
pub enum ErrorType {
    InvalidImsiError,
    DuplicateImsiError,
    InvalidMsisdnError,
    DuplicateMsisdnError,
    InvalidTadigError,
    DuplicateTadigError,
    InvalidCountry,
    FieldValidationError,
    NotFound,
    BorderCountryNotFound,
    InternalError,
}

impl ErrorType {
    /// The name of the kind.
    pub open spec fn name(self) -> Seq<char> {
        match self {
            ErrorType::InvalidImsiError => "InvalidImsiError"@,
            ErrorType::DuplicateImsiError => "DuplicateImsiError"@,
            ErrorType::InvalidMsisdnError => "InvalidMsisdnError"@,
            ErrorType::DuplicateMsisdnError => "DuplicateMsisdnError"@,
            ErrorType::InvalidTadigError => "InvalidTadigError"@,
            ErrorType::DuplicateTadigError => "DuplicateTadigError"@,
            ErrorType::InvalidCountry => "InvalidCountry"@,
            ErrorType::FieldValidationError => "FieldValidationError"@,
            ErrorType::NotFound => "NotFound"@,
            ErrorType::BorderCountryNotFound => "BorderCountryNotFound"@,
            ErrorType::InternalError => "InternalError"@,
        }
    }

    /// The name of the kind, as text.
    pub fn to_string(&self) -> (s: String)
        ensures
            s@ == self.name(),
    {
        let text = match self {
            ErrorType::InvalidImsiError => "InvalidImsiError",
            ErrorType::DuplicateImsiError => "DuplicateImsiError",
            ErrorType::InvalidMsisdnError => "InvalidMsisdnError",
            ErrorType::DuplicateMsisdnError => "DuplicateMsisdnError",
            ErrorType::InvalidTadigError => "InvalidTadigError",
            ErrorType::DuplicateTadigError => "DuplicateTadigError",
            ErrorType::InvalidCountry => "InvalidCountry",
            ErrorType::FieldValidationError => "FieldValidationError",
            ErrorType::NotFound => "NotFound",
            ErrorType::BorderCountryNotFound => "BorderCountryNotFound",
            ErrorType::InternalError => "InternalError",
        };
        String::from_str(text)
    }
}

/// An error of one of the registry's operations.
#[derive(Debug)]
pub enum ErrorResponse {
    Validation(OperatorValidationError),
    NotFound { field: String, received: String, expected: String },
    BorderCountryNotFound { field: String, received: String, expected: String },
    InternalError,
}

/// What an `ErrorResponse` stands for.
pub enum ErrorResponseView {
    Validation(ValidationErrorView),
    NotFound { field: Seq<char>, received: Seq<char>, expected: Seq<char> },
    BorderCountryNotFound { field: Seq<char>, received: Seq<char>, expected: Seq<char> },
    InternalError,
}

impl View for ErrorResponse {
    type V = ErrorResponseView;

    open spec fn view(&self) -> ErrorResponseView {
        match self {
            ErrorResponse::Validation(e) => ErrorResponseView::Validation(e@),
            ErrorResponse::NotFound { field, received, expected } => ErrorResponseView::NotFound {
                field: field@,
                received: received@,
                expected: expected@,
            },
            ErrorResponse::BorderCountryNotFound {
                field,
                received,
                expected,
            } => ErrorResponseView::BorderCountryNotFound {
                field: field@,
                received: received@,
                expected: expected@,
            },
            ErrorResponse::InternalError => ErrorResponseView::InternalError,
        }
    }
}

impl Clone for ErrorResponse {
    fn clone(&self) -> (r: ErrorResponse)
        ensures
            r@ == self@,
    {
        match self {
            ErrorResponse::Validation(e) => ErrorResponse::Validation(e.clone()),
            ErrorResponse::NotFound { field, received, expected } => ErrorResponse::NotFound {
                field: field.clone(),
                received: received.clone(),
                expected: expected.clone(),
            },
            ErrorResponse::BorderCountryNotFound {
                field,
                received,
                expected,
            } => ErrorResponse::BorderCountryNotFound {
                field: field.clone(),
                received: received.clone(),
                expected: expected.clone(),
            },
            ErrorResponse::InternalError => ErrorResponse::InternalError,
        }
    }
}

impl From<OperatorValidationError> for ErrorResponse {
    fn from(e: OperatorValidationError) -> (r: ErrorResponse) {
        ErrorResponse::Validation(e)
    }
}

impl FromSpecImpl<OperatorValidationError> for ErrorResponse {
    open spec fn obeys_from_spec() -> bool {
        true
    }

    open spec fn from_spec(e: OperatorValidationError) -> ErrorResponse {
        ErrorResponse::Validation(e)
    }
}

/// The status of a request that was malformed.
pub const BAD_REQUEST: u16 = 400;

/// The status of a request for something that does not exist.
pub const NOT_FOUND: u16 = 404;

/// The status of a request that collides with an existing record.
pub const CONFLICT: u16 = 409;

/// The status of a request that failed for no fault of the caller.
pub const INTERNAL_SERVER_ERROR: u16 = 500;

/// What the caller is told of an error.
#[derive(Debug)]
pub struct ErrorInfo {
    pub status: u16,
    pub error_type: ErrorType,
    pub message: String,
    pub field: String,
    pub expected: Option<String>,
    pub received: Option<String>,
}

/// What an `ErrorInfo` stands for.
pub struct ErrorInfoView {
    pub status: u16,
    pub error_type: ErrorType,
    pub message: Seq<char>,
    pub field: Seq<char>,
    pub expected: Option<Seq<char>>,
    pub received: Option<Seq<char>>,
}

impl View for ErrorInfo {
    type V = ErrorInfoView;

    open spec fn view(&self) -> ErrorInfoView {
        ErrorInfoView {
            status: self.status,
            error_type: self.error_type,
            message: self.message@,
            field: self.field@,
            expected: opt_text_of(self.expected),
            received: opt_text_of(self.received),
        }
    }
}

impl ValidationErrorView {
    /// What the caller is told of a validation error. A malformed value is a
    /// bad request and a value already in use a conflict; an unknown country
    /// is not found. A field error is a conflict where its message says that
    /// something already exists, and a bad request otherwise.
    pub open spec fn info(self) -> ErrorInfoView {
        match self {
            ValidationErrorView::InvalidImsiError { field, received, expected } => ErrorInfoView {
                status: BAD_REQUEST,
                error_type: ErrorType::InvalidImsiError,
                message: field + " must contain only digits"@,
                field,
                expected: Some(expected),
                received: Some(received),
            },
            ValidationErrorView::DuplicateImsiError { field, received } => ErrorInfoView {
                status: CONFLICT,
                error_type: ErrorType::DuplicateImsiError,
                message: "IMSI prefix '"@ + received + "' already exists"@,
                field,
                expected: None,
                received: Some(received),
            },
            ValidationErrorView::InvalidMsisdnError { field, received, expected } => ErrorInfoView {
                status: BAD_REQUEST,
                error_type: ErrorType::InvalidMsisdnError,
                message: field + " must contain only digits"@,
                field,
                expected: Some(expected),
                received: Some(received),
            },
            ValidationErrorView::DuplicateMsisdnError { field, received } => ErrorInfoView {
                status: CONFLICT,
                error_type: ErrorType::DuplicateMsisdnError,
                message: "MSISDN prefix '"@ + received + "' already exists"@,
                field,
                expected: None,
                received: Some(received),
            },
            ValidationErrorView::InvalidTadigError { field, received, expected } => ErrorInfoView {
                status: BAD_REQUEST,
                error_type: ErrorType::InvalidTadigError,
                message: "Invalid TADIG format for '"@ + received + "'"@,
                field,
                expected: Some(expected),
                received: Some(received),
            },
            ValidationErrorView::DuplicateTadigError { field, received } => ErrorInfoView {
                status: CONFLICT,
                error_type: ErrorType::DuplicateTadigError,
                message: "TADIG '"@ + received + "' already exists"@,
                field,
                expected: None,
                received: Some(received),
            },
            ValidationErrorView::InvalidCountry { field, received, expected } => ErrorInfoView {
                status: NOT_FOUND,
                error_type: ErrorType::InvalidCountry,
                message: "Invalid country"@,
                field,
                expected: Some(expected),
                received: Some(received),
            },
            ValidationErrorView::FieldValidationError { field, message, received } => ErrorInfoView {
                status: if is_substring("already exists"@, message) {
                    CONFLICT
                } else {
                    BAD_REQUEST
                },
                error_type: ErrorType::FieldValidationError,
                message,
                field,
                expected: None,
                received,
            },
        }
    }
}

/// `head`, then `tail`.
fn join2(head: &str, tail: &str) -> (r: String)
    ensures
        r@ == head@ + tail@,
{
    let mut r = String::from_str(head);
    r.append(tail);
    r
}

/// `head`, then `middle`, then `tail`.
fn join3(head: &str, middle: &str, tail: &str) -> (r: String)
    ensures
        r@ == head@ + middle@ + tail@,
{
    let mut r = String::from_str(head);
    r.append(middle);
    r.append(tail);
    r
}

impl OperatorValidationError {
    /// What the caller is told of this error.
    pub fn into_info(self) -> (info: ErrorInfo)
        ensures
            info@ == self@.info(),
    {
        match self {
            OperatorValidationError::InvalidImsiError { field, received, expected } => ErrorInfo {
                status: BAD_REQUEST,
                error_type: ErrorType::InvalidImsiError,
                message: join2(field.as_str(), " must contain only digits"),
                field,
                expected: Some(expected),
                received: Some(received),
            },
            OperatorValidationError::DuplicateImsiError { field, received } => ErrorInfo {
                status: CONFLICT,
                error_type: ErrorType::DuplicateImsiError,
                message: join3("IMSI prefix '", received.as_str(), "' already exists"),
                field,
                expected: None,
                received: Some(received),
            },
            OperatorValidationError::InvalidMsisdnError { field, received, expected } => ErrorInfo {
                status: BAD_REQUEST,
                error_type: ErrorType::InvalidMsisdnError,
                message: join2(field.as_str(), " must contain only digits"),
                field,
                expected: Some(expected),
                received: Some(received),
            },
            OperatorValidationError::DuplicateMsisdnError { field, received } => ErrorInfo {
                status: CONFLICT,
                error_type: ErrorType::DuplicateMsisdnError,
                message: join3("MSISDN prefix '", received.as_str(), "' already exists"),
                field,
                expected: None,
                received: Some(received),
            },
            OperatorValidationError::InvalidTadigError { field, received, expected } => ErrorInfo {
                status: BAD_REQUEST,
                error_type: ErrorType::InvalidTadigError,
                message: join3("Invalid TADIG format for '", received.as_str(), "'"),
                field,
                expected: Some(expected),
                received: Some(received),
            },
            OperatorValidationError::DuplicateTadigError { field, received } => ErrorInfo {
                status: CONFLICT,
                error_type: ErrorType::DuplicateTadigError,
                message: join3("TADIG '", received.as_str(), "' already exists"),
                field,
                expected: None,
                received: Some(received),
            },
            OperatorValidationError::InvalidCountry { field, received, expected } => ErrorInfo {
                status: NOT_FOUND,
                error_type: ErrorType::InvalidCountry,
                message: String::from_str("Invalid country"),
                field,
                expected: Some(expected),
                received: Some(received),
            },
            OperatorValidationError::FieldValidationError { field, message, received } => {
                let status = if contains(message.as_str(), "already exists") {
                    CONFLICT
                } else {
                    BAD_REQUEST
                };
                ErrorInfo {
                    status,
                    error_type: ErrorType::FieldValidationError,
                    message,
                    field,
                    expected: None,
                    received,
                }
            },
        }
    }
}

impl ErrorResponseView {
    /// What the caller is told of an error.
    pub open spec fn info(self) -> ErrorInfoView {
        match self {
            ErrorResponseView::Validation(e) => e.info(),
            ErrorResponseView::NotFound { field, received, expected } => ErrorInfoView {
                status: NOT_FOUND,
                error_type: ErrorType::NotFound,
                message: uppercase_of(field) + " not found"@,
                field,
                expected: Some(expected),
                received: Some(received),
            },
            ErrorResponseView::BorderCountryNotFound { field, received, expected } => ErrorInfoView {
                status: NOT_FOUND,
                error_type: ErrorType::BorderCountryNotFound,
                message: "Bordering countries for "@ + uppercase_of(field) + " not found"@,
                field,
                expected: Some(expected),
                received: Some(received),
            },
            ErrorResponseView::InternalError => ErrorInfoView {
                status: INTERNAL_SERVER_ERROR,
                error_type: ErrorType::InternalError,
                message: "Internal server error"@,
                field: "internal"@,
                expected: None,
                received: None,
            },
        }
    }
}

impl ErrorResponse {
    /// What the caller is told of this error.
    pub fn into_info(self) -> (info: ErrorInfo)
        ensures
            info@ == self@.info(),
    {
        match self {
            ErrorResponse::Validation(e) => e.into_info(),
            ErrorResponse::NotFound { field, received, expected } => {
                let upper = to_uppercase(field.as_str());
                ErrorInfo {
                    status: NOT_FOUND,
                    error_type: ErrorType::NotFound,
                    message: join2(upper.as_str(), " not found"),
                    field,
                    expected: Some(expected),
                    received: Some(received),
                }
            },
            ErrorResponse::BorderCountryNotFound { field, received, expected } => {
                let upper = to_uppercase(field.as_str());
                ErrorInfo {
                    status: NOT_FOUND,
                    error_type: ErrorType::BorderCountryNotFound,
                    message: join3("Bordering countries for ", upper.as_str(), " not found"),
                    field,
                    expected: Some(expected),
                    received: Some(received),
                }
            },
            ErrorResponse::InternalError => ErrorInfo {
                status: INTERNAL_SERVER_ERROR,
                error_type: ErrorType::InternalError,
                message: String::from_str("Internal server error"),
                field: String::from_str("internal"),
                expected: None,
                received: None,
            },
        }
    }

    /// The status that this error is reported with.
    pub fn status_code(&self) -> (status: u16)
        ensures
            status == self@.info().status,
    {
        self.clone().into_info().status
    }
}

/// A variant with the fields `field` and `received`, as `Debug` writes it.
pub open spec fn debug_text2(name: Seq<char>, field: Seq<char>, received: Seq<char>) -> Seq<char> {
    name + " { field: "@ + quoted(field) + ", received: "@ + quoted(received) + " }"@
}

/// A variant with the fields `field`, `received` and `expected`, as `Debug`
/// writes it.
pub open spec fn debug_text3(
    name: Seq<char>,
    field: Seq<char>,
    received: Seq<char>,
    expected: Seq<char>,
) -> Seq<char> {
    name + " { field: "@ + quoted(field) + ", received: "@ + quoted(received) + ", expected: "@
        + quoted(expected) + " }"@
}

/// An optional string, as `Debug` writes it.
pub open spec fn debug_opt_text(o: Option<Seq<char>>) -> Seq<char> {
    match o {
        Some(s) => "Some("@ + quoted(s) + ")"@,
        None => "None"@,
    }
}

impl ValidationErrorView {
    /// The error as `Debug` writes it: the variant's name and its fields.
    pub open spec fn debug_text(self) -> Seq<char> {
        match self {
            ValidationErrorView::InvalidImsiError { field, received, expected } => debug_text3(
                "InvalidImsiError"@,
                field,
                received,
                expected,
            ),
            ValidationErrorView::DuplicateImsiError { field, received } => debug_text2(
                "DuplicateImsiError"@,
                field,
                received,
            ),
            ValidationErrorView::InvalidMsisdnError { field, received, expected } => debug_text3(
                "InvalidMsisdnError"@,
                field,
                received,
                expected,
            ),
            ValidationErrorView::DuplicateMsisdnError { field, received } => debug_text2(
                "DuplicateMsisdnError"@,
                field,
                received,
            ),
            ValidationErrorView::InvalidTadigError { field, received, expected } => debug_text3(
                "InvalidTadigError"@,
                field,
                received,
                expected,
            ),
            ValidationErrorView::DuplicateTadigError { field, received } => debug_text2(
                "DuplicateTadigError"@,
                field,
                received,
            ),
            ValidationErrorView::InvalidCountry { field, received, expected } => debug_text3(
                "InvalidCountry"@,
                field,
                received,
                expected,
            ),
            ValidationErrorView::FieldValidationError { field, message, received } => {
                "FieldValidationError { field: "@ + quoted(field) + ", message: "@ + quoted(message)
                    + ", received: "@ + debug_opt_text(received) + " }"@
            },
        }
    }
}

impl ErrorResponseView {
    /// The error in one line of text.
    pub open spec fn text(self) -> Seq<char> {
        match self {
            ErrorResponseView::Validation(e) => e.debug_text(),
            ErrorResponseView::NotFound { field, received, expected } => field + " not found"@,
            ErrorResponseView::BorderCountryNotFound { field, received, expected } => {
                "Bordering countries for "@ + field + " not found"@
            },
            ErrorResponseView::InternalError => "Internal server error"@,
        }
    }
}

fn debug2(name: &str, field: &str, received: &str) -> (r: String)
    ensures
        r@ == debug_text2(name@, field@, received@),
{
    let mut r = String::from_str(name);
    r.append(" { field: ");
    r.append(debug_quoted(field).as_str());
    r.append(", received: ");
    r.append(debug_quoted(received).as_str());
    r.append(" }");
    r
}

fn debug3(name: &str, field: &str, received: &str, expected: &str) -> (r: String)
    ensures
        r@ == debug_text3(name@, field@, received@, expected@),
{
    let mut r = String::from_str(name);
    r.append(" { field: ");
    r.append(debug_quoted(field).as_str());
    r.append(", received: ");
    r.append(debug_quoted(received).as_str());
    r.append(", expected: ");
    r.append(debug_quoted(expected).as_str());
    r.append(" }");
    r
}

fn debug_opt(o: &Option<String>) -> (r: String)
    ensures
        r@ == debug_opt_text(opt_text_of(*o)),
{
    match o {
        Some(s) => join3("Some(", debug_quoted(s.as_str()).as_str(), ")"),
        None => String::from_str("None"),
    }
}

impl OperatorValidationError {
    /// The error as `Debug` writes it.
    pub fn debug_text(&self) -> (r: String)
        ensures
            r@ == self@.debug_text(),
    {
        match self {
            OperatorValidationError::InvalidImsiError { field, received, expected } => debug3(
                "InvalidImsiError",
                field.as_str(),
                received.as_str(),
                expected.as_str(),
            ),
            OperatorValidationError::DuplicateImsiError { field, received } => debug2(
                "DuplicateImsiError",
                field.as_str(),
                received.as_str(),
            ),
            OperatorValidationError::InvalidMsisdnError { field, received, expected } => debug3(
                "InvalidMsisdnError",
                field.as_str(),
                received.as_str(),
                expected.as_str(),
            ),
            OperatorValidationError::DuplicateMsisdnError { field, received } => debug2(
                "DuplicateMsisdnError",
                field.as_str(),
                received.as_str(),
            ),
            OperatorValidationError::InvalidTadigError { field, received, expected } => debug3(
                "InvalidTadigError",
                field.as_str(),
                received.as_str(),
                expected.as_str(),
            ),
            OperatorValidationError::DuplicateTadigError { field, received } => debug2(
                "DuplicateTadigError",
                field.as_str(),
                received.as_str(),
            ),
            OperatorValidationError::InvalidCountry { field, received, expected } => debug3(
                "InvalidCountry",
                field.as_str(),
                received.as_str(),
                expected.as_str(),
            ),
            OperatorValidationError::FieldValidationError { field, message, received } => {
                let mut r = String::from_str("FieldValidationError { field: ");
                r.append(debug_quoted(field.as_str()).as_str());
                r.append(", message: ");
                r.append(debug_quoted(message.as_str()).as_str());
                r.append(", received: ");
                r.append(debug_opt(received).as_str());
                r.append(" }");
                r
            },
        }
    }
}

impl ErrorResponse {
    /// The error in one line of text: a validation error as `Debug` writes
    /// it, any other by the field that it names.
    pub fn to_string(&self) -> (r: String)
        ensures
            r@ == self@.text(),
    {
        match self {
            ErrorResponse::Validation(e) => e.debug_text(),
            ErrorResponse::NotFound { field, .. } => join2(field.as_str(), " not found"),
            ErrorResponse::BorderCountryNotFound { field, .. } => join3(
                "Bordering countries for ",
                field.as_str(),
                " not found",
            ),
            ErrorResponse::InternalError => String::from_str("Internal server error"),
        }
    }
}

} // verus!
