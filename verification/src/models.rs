use vstd::prelude::*;

verus! {

/// An identity record, one row of the `users` table. `id` is generated at
/// registration and immutable; `email` and `username` are each globally
/// unique; `password_hash` is a one-way transform, never the plaintext;
/// `is_active` starts false and flips to true on successful verification.
pub struct User {
    pub id: u128,
    pub email: String,
    pub password_hash: String,
    pub username: String,
    pub is_active: bool,
    pub created_at: u64,
    pub updated_at: u64,
}

impl User {
    /// A field-for-field copy of this record.
    pub fn duplicate(&self) -> (r: User)
        ensures
            r == *self,
    {
        User {
            id: self.id,
            email: self.email.clone(),
            password_hash: self.password_hash.clone(),
            username: self.username.clone(),
            is_active: self.is_active,
            created_at: self.created_at,
            updated_at: self.updated_at,
        }
    }
}

/// A single-use proof-of-email-control artifact, one row of the
/// `verification_tokens` table. `token` is an unguessable random string,
/// unique across rows; `expires_at` is an absolute timestamp in seconds.
pub struct ActivationToken {
    pub user_id: u128,
    pub token: String,
    pub expires_at: u64,
}

impl ActivationToken {
    /// A field-for-field copy of this row.
    pub fn duplicate(&self) -> (r: ActivationToken)
        ensures
            r == *self,
    {
        ActivationToken {
            user_id: self.user_id,
            token: self.token.clone(),
            expires_at: self.expires_at,
        }
    }
}

/// The fields of a registration request, before validation.
pub struct RegisterUser {
    pub email: String,
    pub username: String,
    pub password: String,
}

/// The body of a verification request: the raw activation-token string.
pub struct Token {
    pub token: String,
}

/// The body of a resend request: the user the token is reissued for.
pub struct ResendToken {
    pub user_id: u128,
}

/// The body of a login request.
pub struct Login {
    pub username: String,
    pub password: String,
}

/// A request body, already parsed from JSON by the boundary.
pub struct PayloadJson<T>(pub T);

/// The uniform shape of every response the boundary sends.
#[derive(Debug)]
pub struct ApiResponse<T, E> {
    pub success: bool,
    pub message: String,
    pub data: Option<T>,
    pub error: Option<E>,
}

/// A successful outcome with its message and optional payload.
#[derive(Debug)]
pub struct SuccessResponse<T> {
    pub message: String,
    pub data: Option<T>,
}

impl<T> SuccessResponse<T> {
    /// The uniform response this success maps to: marked successful, with
    /// no error payload.
    pub fn into_api_response(self) -> (r: ApiResponse<T, ()>)
        ensures
            r.success,
            r.message == self.message,
            r.data == self.data,
            r.error is None,
    {
        ApiResponse { success: true, message: self.message, data: self.data, error: None }
    }
}

} // verus!
