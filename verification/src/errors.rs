use vstd::prelude::*;
use vstd::string::*;

verus! {

/// Failure classes of the identity and verification flows.
#[derive(Debug, PartialEq, Eq, Clone)]
pub enum AuthenticationError {
    /// A user row with the same email or username already exists; the two
    /// causes are deliberately not distinguished.
    AccountAlreadyExists,
    /// A field of the request failed validation.
    InvalidInput(String),
    /// A store, crypto or signing failure; detail is never exposed.
    InternalServerError,
    /// The activation token is unknown or expired; the two causes are
    /// deliberately not distinguished.
    InvalidToken,
    /// The username is unknown or the password does not match; the two
    /// causes are deliberately not distinguished.
    InvalidCredentials,
}

/// Failure classes of the user repository.
#[derive(Debug, PartialEq, Eq, Clone)]
pub enum UserError {
    /// A user row with the same email or username already exists.
    AccountAlreadyExists,
    /// Any other store failure.
    InternalServerError,
    /// No user row matches the given key.
    UserNotFound(String),
}

/// Failure classes of registration, as exposed at the boundary.
#[derive(Debug, PartialEq, Eq, Clone)]
pub enum RegisterError {
    AccountAlreadyExists,
    InvalidInput(String),
    InternalServerError,
}

/// Constraint violations the relational store reports on insertion.
#[derive(Debug, PartialEq, Eq, Clone)]
pub enum StoreError {
    /// The inserted value collides with an existing row on a unique column.
    UniqueViolation,
    /// The inserted row references a user that does not exist.
    ForeignKeyViolation,
}

/// Failure classes of the outbound email collaborator.
#[derive(Debug, PartialEq, Eq, Clone)]
pub enum EmailError {
    ConnectionError,
    InvalidRecipient(String),
    SmtpError(String),
    Other(String),
    InternalServerError,
}

/// One field-level validation failure, exposed to the caller.
#[derive(Debug, PartialEq, Eq, Clone)]
pub struct ErrorFieldDetail {
    pub field: String,
    pub message: String,
}

/// An error as the HTTP boundary reports it: a status class with a
/// human-readable message, plus per-field details for validation failures.
#[derive(Debug, PartialEq, Eq, Clone)]
pub enum ApiError {
    Conflict(String),
    Unauthorized(String),
    BadRequest(String),
    InternalServerError(String),
    ValidationError { message: String, field_errors: Vec<(String, String)> },
}

/// The message of an authentication error, as a sequence of characters.
pub open spec fn authentication_error_message(e: &AuthenticationError) -> Seq<char> {
    match e {
        AuthenticationError::AccountAlreadyExists => "Email or username is already registered"@,
        AuthenticationError::InvalidInput(m) => "Invalid input: "@ + m@,
        AuthenticationError::InternalServerError => "Internal server error"@,
        AuthenticationError::InvalidToken => "Invalid token"@,
        AuthenticationError::InvalidCredentials => "Invalid Credentials"@,
    }
}

impl AuthenticationError {
    /// The human-readable message of this error.
    pub fn message(&self) -> (r: String)
        ensures
            r@ == authentication_error_message(self),
    {
        match self {
            AuthenticationError::AccountAlreadyExists => {
                String::from_str("Email or username is already registered")
            },
            AuthenticationError::InvalidInput(m) => {
                String::from_str("Invalid input: ").concat(m.as_str())
            },
            AuthenticationError::InternalServerError => String::from_str("Internal server error"),
            AuthenticationError::InvalidToken => String::from_str("Invalid token"),
            AuthenticationError::InvalidCredentials => String::from_str("Invalid Credentials"),
        }
    }
}

/// The message of a user-repository error, as a sequence of characters.
pub open spec fn user_error_message(e: &UserError) -> Seq<char> {
    match e {
        UserError::AccountAlreadyExists => "Email or username is already registered"@,
        UserError::InternalServerError => "Internal server error"@,
        UserError::UserNotFound(m) => "User not found: "@ + m@,
    }
}

impl UserError {
    /// The human-readable message of this error.
    pub fn message(&self) -> (r: String)
        ensures
            r@ == user_error_message(self),
    {
        match self {
            UserError::AccountAlreadyExists => {
                String::from_str("Email or username is already registered")
            },
            UserError::InternalServerError => String::from_str("Internal server error"),
            UserError::UserNotFound(m) => String::from_str("User not found: ").concat(m.as_str()),
        }
    }
}

/// The message of a registration error, as a sequence of characters.
pub open spec fn register_error_message(e: &RegisterError) -> Seq<char> {
    match e {
        RegisterError::AccountAlreadyExists => "Email or username is already registered"@,
        RegisterError::InvalidInput(m) => "Invalid input: "@ + m@,
        RegisterError::InternalServerError => "Internal server error"@,
    }
}

/// The numeric HTTP status of a registration error.
pub open spec fn register_error_status(e: &RegisterError) -> u16 {
    match e {
        RegisterError::AccountAlreadyExists => 409,
        RegisterError::InvalidInput(_) => 400,
        RegisterError::InternalServerError => 500,
    }
}

impl RegisterError {
    /// The numeric HTTP status this error maps to.
    pub fn status_code(&self) -> (r: u16)
        ensures
            r == register_error_status(self),
    {
        match self {
            RegisterError::AccountAlreadyExists => 409,
            RegisterError::InvalidInput(_) => 400,
            RegisterError::InternalServerError => 500,
        }
    }

    /// The human-readable message of this error.
    pub fn message(&self) -> (r: String)
        ensures
            r@ == register_error_message(self),
    {
        match self {
            RegisterError::AccountAlreadyExists => {
                String::from_str("Email or username is already registered")
            },
            RegisterError::InvalidInput(m) => {
                String::from_str("Invalid input: ").concat(m.as_str())
            },
            RegisterError::InternalServerError => String::from_str("Internal server error"),
        }
    }
}

/// The numeric HTTP status of an API error.
pub open spec fn api_error_status(e: &ApiError) -> u16 {
    match e {
        ApiError::Conflict(_) => 409,
        ApiError::Unauthorized(_) => 401,
        ApiError::BadRequest(_) => 400,
        ApiError::InternalServerError(_) => 500,
        ApiError::ValidationError { .. } => 422,
    }
}

/// The message of an API error, as a sequence of characters.
pub open spec fn api_error_message(e: &ApiError) -> Seq<char> {
    match e {
        ApiError::Conflict(m) => "Conflict: "@ + m@,
        ApiError::Unauthorized(m) => "Unauthorized: "@ + m@,
        ApiError::BadRequest(m) => "Bad request: "@ + m@,
        ApiError::InternalServerError(m) => "Internal server error: "@ + m@,
        ApiError::ValidationError { message, .. } => "Validation error: "@ + message@,
    }
}

/// The field details of an API error: one entry per failed field of a
/// validation error, nothing for the other classes.
pub open spec fn api_error_details(e: &ApiError) -> Seq<ErrorFieldDetail> {
    match e {
        ApiError::ValidationError { field_errors, .. } => field_errors@.map_values(
            |p: (String, String)| ErrorFieldDetail { field: p.0, message: p.1 },
        ),
        _ => Seq::empty(),
    }
}

impl ApiError {
    /// The numeric HTTP status this error maps to.
    pub fn status_code(&self) -> (r: u16)
        ensures
            r == api_error_status(self),
    {
        match self {
            ApiError::Conflict(_) => 409,
            ApiError::Unauthorized(_) => 401,
            ApiError::BadRequest(_) => 400,
            ApiError::InternalServerError(_) => 500,
            ApiError::ValidationError { .. } => 422,
        }
    }

    /// The human-readable message of this error.
    pub fn message(&self) -> (r: String)
        ensures
            r@ == api_error_message(self),
    {
        match self {
            ApiError::Conflict(m) => String::from_str("Conflict: ").concat(m.as_str()),
            ApiError::Unauthorized(m) => String::from_str("Unauthorized: ").concat(m.as_str()),
            ApiError::BadRequest(m) => String::from_str("Bad request: ").concat(m.as_str()),
            ApiError::InternalServerError(m) => {
                String::from_str("Internal server error: ").concat(m.as_str())
            },
            ApiError::ValidationError { message, .. } => {
                String::from_str("Validation error: ").concat(message.as_str())
            },
        }
    }

    /// The per-field details: the `(field, message)` pairs of a validation
    /// error, and an empty list for every other class.
    pub fn details(&self) -> (r: Vec<ErrorFieldDetail>)
        ensures
            r@ == api_error_details(self),
    {
        match self {
            ApiError::ValidationError { field_errors, .. } => {
                let mut out: Vec<ErrorFieldDetail> = Vec::new();
                let mut i: usize = 0;
                while i < field_errors.len()
                    invariant
                        i <= field_errors.len(),
                        out@ == field_errors@.take(i as int).map_values(
                            |p: (String, String)| ErrorFieldDetail { field: p.0, message: p.1 },
                        ),
                    decreases field_errors.len() - i,
                {
                    let field = field_errors[i].0.clone();
                    let message = field_errors[i].1.clone();
                    out.push(ErrorFieldDetail { field, message });
                    i = i + 1;
                    proof {
                        assert(field_errors@.take(i as int)
                            == field_errors@.take(i as int - 1).push(field_errors@[i as int - 1]));
                    }
                }
                proof {
                    assert(field_errors@.take(field_errors@.len() as int) == field_errors@);
                }
                out
            },
            _ => Vec::new(),
        }
    }
}

} // verus!
