//! The reply envelope shared by every endpoint, and the HTTP status it goes with.

use vstd::prelude::*;

verus! {

/// The HTTP statuses the service answers with.
#[derive(Debug, Clone, Copy, PartialEq, Eq, Structural)]
pub enum Status {
    Success,
    Created,
    BadRequest,
    Unauthorized,
    InternalServerError,
}

impl Status {
    /// The numeric HTTP code of a status.
    pub open spec fn code_of(self) -> u16 {
        match self {
            Status::Success => 200,
            Status::Created => 201,
            Status::BadRequest => 400,
            Status::Unauthorized => 401,
            Status::InternalServerError => 500,
        }
    }

    pub fn code(&self) -> (c: u16)
        ensures
            c == self.code_of(),
    {
        match self {
            Status::Success => 200,
            Status::Created => 201,
            Status::BadRequest => 400,
            Status::Unauthorized => 401,
            Status::InternalServerError => 500,
        }
    }
}

/// A parameter value attached to a field error.
#[derive(Debug, Clone, PartialEq, Eq)]
pub enum ParamValue {
    Number(u64),
    Text(String),
}

/// One failed rule on one field of a request body.
#[derive(Debug, Clone, PartialEq, Eq)]
pub struct FieldError {
    /// The name of the field, as it appears in the request body.
    pub field: String,
    /// The name of the rule that failed (`length`, `email`).
    pub code: String,
    /// The message the rule was declared with, if any.
    pub message: Option<String>,
    /// The rule's parameters and the rejected value, by name.
    pub params: Vec<(String, ParamValue)>,
}

/// The JSON envelope of every reply: `status` is `"success"` or `"error"`.
#[derive(Debug, Clone, PartialEq, Eq)]
pub struct ApiResponse<T> {
    pub status: String,
    pub message: Option<String>,
    pub data: Option<T>,
    pub errors: Option<Vec<FieldError>>,
}

/// A reply: an HTTP status and a JSON envelope.
#[derive(Debug, Clone, PartialEq, Eq)]
pub struct Reply<T> {
    pub status: Status,
    pub body: ApiResponse<T>,
}

/// A reply whose body is plain text.
#[derive(Debug, Clone, PartialEq, Eq)]
pub struct TextReply {
    pub status: Status,
    pub body: String,
}

/// The envelope is a success envelope carrying `data` and nothing else.
pub open spec fn is_success_of<T>(r: ApiResponse<T>, data: T) -> bool {
    &&& r.status@ == "success"@
    &&& r.message is None
    &&& r.data == Some(data)
    &&& r.errors is None
}

/// The envelope is an error envelope with the given message and field errors.
pub open spec fn is_error_of<T>(r: ApiResponse<T>, message: Seq<char>, errors: Option<Vec<FieldError>>) -> bool {
    &&& r.status@ == "error"@
    &&& r.message matches Some(m) && m@ == message
    &&& r.data is None
    &&& r.errors == errors
}

/// The fixed message of a validation failure.
pub open spec fn validation_message() -> Seq<char> {
    "Erreur de validation des données"@
}

impl<T> ApiResponse<T> {
    /// A success envelope around `data`. The message given is not kept: a
    /// success envelope carries no message.
    #[allow(unused_variables)]
    pub fn success(data: T, message: &str) -> (r: Self)
        ensures
            is_success_of(r, data),
    {
        ApiResponse { status: String::from_str("success"), message: None, data: Some(data), errors: None }
    }

    /// An error envelope with `message` and the field errors given.
    pub fn errors(message: &str, errors: Option<Vec<FieldError>>) -> (r: Self)
        ensures
            is_error_of(r, message@, errors),
    {
        ApiResponse { status: String::from_str("error"), message: Some(String::from_str(message)), data: None, errors }
    }

    /// The error envelope of a request body that broke its validation rules.
    pub fn validation_error(errors: Vec<FieldError>) -> (r: ApiResponse<()>)
        ensures
            is_error_of(r, validation_message(), Some(errors)),
    {
        ApiResponse {
            status: String::from_str("error"),
            message: Some(String::from_str("Erreur de validation des données")),
            data: None,
            errors: Some(errors),
        }
    }
}

} // verus!

verus! {

impl ApiResponse<()> {
    /// The same envelope, typed for a reply that would carry data of type `T`;
    /// the data (there is none to carry in `()`) is left out.
    pub fn without_data<T>(self) -> (r: ApiResponse<T>)
        ensures
            r.status == self.status,
            r.message == self.message,
            r.data is None,
            r.errors == self.errors,
    {
        ApiResponse { status: self.status, message: self.message, data: None, errors: self.errors }
    }
}

} // verus!
