//! Error types of the API surface.

use vstd::prelude::*;

verus! {

/// The serialized error body of a failed request.
#[derive(Debug)]
pub struct ErrorResponse {
    pub status: StatusInfo,
    pub errors: Vec<ApiErrorField>,
}

/// Status line of an error response.
#[derive(Debug)]
pub struct StatusInfo {
    pub status_code: u16,
    pub message: String,
}

/// One field-level error.
#[derive(Debug)]
pub struct ApiErrorField {
    pub field: String,
    pub message: String,
}

/// A request failed validation: one finding per offending field.
#[derive(Debug)]
pub struct ValidationError {
    pub errors: Vec<ApiErrorField>,
}

impl ValidationError {
    pub fn new(errors: Vec<ApiErrorField>) -> (r: Self)
        ensures
            r == (ValidationError { errors }),
    {
        Self { errors }
    }
}

/// Creating a record failed; carries the root cause's text.
#[derive(Debug)]
pub struct SomeCreateError {
    pub cause: String,
}

impl SomeCreateError {
    pub fn new(msg: String) -> (r: Self)
        ensures
            r == (SomeCreateError { cause: msg }),
    {
        Self { cause: msg }
    }

    pub fn root_cause(&self) -> (r: &str)
        ensures
            r@ == self.cause@,
    {
        self.cause.as_str()
    }
}

/// An API failure, by HTTP class.
#[derive(Debug)]
pub enum ApiError {
    BadRequest { message: String, fields: Option<Vec<ApiErrorField>> },
    Unauthorized { message: String, fields: Option<Vec<ApiErrorField>> },
    Forbidden { message: String, fields: Option<Vec<ApiErrorField>> },
    NotFound { message: String, fields: Option<Vec<ApiErrorField>> },
    InternalServerError { message: String, fields: Option<Vec<ApiErrorField>> },
    Other { status_code: u16, message: String, fields: Option<Vec<ApiErrorField>> },
}

impl ApiError {
    /// The status code sent for this error. A code outside the valid
    /// HTTP range (100 to 999) falls back to 500.
    pub open spec fn status_code_spec(&self) -> u16 {
        match *self {
            ApiError::BadRequest { .. } => 400u16,
            ApiError::Unauthorized { .. } => 401u16,
            ApiError::Forbidden { .. } => 403u16,
            ApiError::NotFound { .. } => 404u16,
            ApiError::InternalServerError { .. } => 500u16,
            ApiError::Other { status_code, .. } => if 100 <= status_code <= 999 {
                status_code
            } else {
                500u16
            },
        }
    }

    pub fn status_code(&self) -> (r: u16)
        ensures
            r == self.status_code_spec(),
    {
        match self {
            ApiError::BadRequest { .. } => 400,
            ApiError::Unauthorized { .. } => 401,
            ApiError::Forbidden { .. } => 403,
            ApiError::NotFound { .. } => 404,
            ApiError::InternalServerError { .. } => 500,
            ApiError::Other { status_code, .. } => {
                if 100 <= *status_code && *status_code <= 999 {
                    *status_code
                } else {
                    500
                }
            },
        }
    }

    /// The human-readable message of this error.
    pub open spec fn message_spec(&self) -> Seq<char> {
        match *self {
            ApiError::BadRequest { message, .. } => message@,
            ApiError::Unauthorized { message, .. } => message@,
            ApiError::Forbidden { message, .. } => message@,
            ApiError::NotFound { message, .. } => message@,
            ApiError::InternalServerError { message, .. } => message@,
            ApiError::Other { message, .. } => message@,
        }
    }

    pub fn message(&self) -> (r: &str)
        ensures
            r@ == self.message_spec(),
    {
        match self {
            ApiError::BadRequest { message, .. } => message.as_str(),
            ApiError::Unauthorized { message, .. } => message.as_str(),
            ApiError::Forbidden { message, .. } => message.as_str(),
            ApiError::NotFound { message, .. } => message.as_str(),
            ApiError::InternalServerError { message, .. } => message.as_str(),
            ApiError::Other { message, .. } => message.as_str(),
        }
    }

    /// The field-level findings of this error.
    pub open spec fn fields_spec(&self) -> Option<Vec<ApiErrorField>> {
        match *self {
            ApiError::BadRequest { fields, .. } => fields,
            ApiError::Unauthorized { fields, .. } => fields,
            ApiError::Forbidden { fields, .. } => fields,
            ApiError::NotFound { fields, .. } => fields,
            ApiError::InternalServerError { fields, .. } => fields,
            ApiError::Other { fields, .. } => fields,
        }
    }

    pub fn fields(&self) -> (r: &Option<Vec<ApiErrorField>>)
        ensures
            *r == self.fields_spec(),
    {
        match self {
            ApiError::BadRequest { fields, .. } => fields,
            ApiError::Unauthorized { fields, .. } => fields,
            ApiError::Forbidden { fields, .. } => fields,
            ApiError::NotFound { fields, .. } => fields,
            ApiError::InternalServerError { fields, .. } => fields,
            ApiError::Other { fields, .. } => fields,
        }
    }

    /// Wraps a validation failure: a bad request carrying the same
    /// findings, field for field.
    pub fn from_validation_error(validation_error: ValidationError) -> (r: ApiError)
        ensures
            r matches ApiError::BadRequest { message, fields } && ({
                &&& message@ == "Validation error"@
                &&& fields matches Some(fs) && fs@ == validation_error.errors@
            }),
    {
        let ValidationError { errors } = validation_error;
        let mut fields: Vec<ApiErrorField> = Vec::new();
        let mut i: usize = 0;
        while i < errors.len()
            invariant
                0 <= i <= errors@.len(),
                fields@.len() == i,
                forall|j: int| 0 <= j < i ==> fields@[j] == errors@[j],
            decreases errors@.len() - i,
        {
            let ApiErrorField { field, message } = clone_api_error_field(&errors[i]);
            fields.push(ApiErrorField { field, message });
            i = i + 1;
        }
        proof {
            assert(fields@ =~= errors@);
        }
        ApiError::BadRequest {
            message: "Validation error".to_owned(),
            fields: Some(fields),
        }
    }

    /// Wraps a creation failure: an internal error whose single finding
    /// carries the root cause under the `trace` field.
    pub fn from_create_error(err: SomeCreateError) -> (r: ApiError)
        ensures
            r matches ApiError::InternalServerError { message, fields } && ({
                &&& message@ == "Failed to create hog"@
                &&& fields matches Some(fs) && (fs@.len() == 1 && fs@[0].field@ == "trace"@
                    && fs@[0].message@ == err.cause@)
            }),
    {
        let mut fields: Vec<ApiErrorField> = Vec::new();
        fields.push(ApiErrorField { field: "trace".to_owned(), message: err.cause });
        ApiError::InternalServerError {
            message: "Failed to create hog".to_owned(),
            fields: Some(fields),
        }
    }
}

/// Copy of one finding; the copy carries the same texts.
pub fn clone_api_error_field(e: &ApiErrorField) -> (r: ApiErrorField)
    ensures
        r == *e,
{
    ApiErrorField { field: e.field.clone(), message: e.message.clone() }
}

} // verus!
