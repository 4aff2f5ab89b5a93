use vstd::prelude::*;
use vstd::string::*;
use crate::authentication::{consumed_token, credentials_ok, Authentication};
use crate::credential::credential_matches;
use crate::email::EmailServiceBase;
use crate::errors::{ApiError, AuthenticationError, UserError};
use crate::models::{ActivationToken, Login, RegisterUser, ResendToken, SuccessResponse, Token,
    User};
use crate::session::jwt_of;
use crate::store::{has_email, has_username, tokens_without_user, Store};
use crate::users::Users;
use crate::validation::{detail_views, pair_views, register_input_issues, register_input_valid};

verus! {

/// The registration flow: rejects invalid input with one detail per failed
/// field before anything is persisted; inserts exactly one inactive user
/// row on fresh email and username, reporting a collision of either as the
/// same conflict; then issues and sends an activation token, whose own
/// failure is swallowed — the user row already exists and the resend path
/// covers recovery.
pub fn register_user<E: EmailServiceBase>(
    user_service: &Users,
    auth_service: &Authentication,
    email_service: &E,
    store: &mut Store,
    payload: RegisterUser,
) -> (r: Result<SuccessResponse<()>, ApiError>)
    requires
        old(store).wf(),
    ensures
        final(store).wf(),
        !register_input_valid(&payload) ==> *final(store) == *old(store) && (r matches Err(e)
            && e matches ApiError::ValidationError { message, field_errors } && message@
            == "Invalid input"@ && pair_views(field_errors@) == register_input_issues(&payload)),
        r is Ok ==> register_input_valid(&payload) && !has_email(old(store).users@, payload.email@)
            && !has_username(old(store).users@, payload.username@) && (exists|u: User|
            {
                &&& !u.is_active
                &&& u.email@ == payload.email@
                &&& u.username@ == payload.username@
                &&& credential_matches(payload.password@, u.password_hash@)
                &&& final(store).users@ == #[trigger] old(store).users@.push(u)
                &&& (final(store).tokens@ == old(store).tokens@ || exists|t: ActivationToken|
                    t.user_id == u.id && final(store).tokens@ == #[trigger] old(
                        store,
                    ).tokens@.push(t))
            }),
        r matches Err(e) ==> (e is Conflict ==> (has_email(old(store).users@, payload.email@)
            || has_username(old(store).users@, payload.username@)) && *final(store) == *old(store)
            && (e matches ApiError::Conflict(m) && m@
            == "Email or username is already registered"@)),
        register_input_valid(&payload) && (has_email(old(store).users@, payload.email@)
            || has_username(old(store).users@, payload.username@)) ==> r is Err && (r matches Err(
            e,
        ) ==> e is Conflict || e is InternalServerError),
        r matches Err(e) ==> (e is InternalServerError ==> *final(store) == *old(store)),
        r matches Ok(resp) ==> resp.message@ == "User created"@ && resp.data is None,
        r is Err ==> (r matches Err(e) && (e is Conflict || e is InternalServerError
            || e is ValidationError)),
{
    match payload.validate() {
        Err(details) => {
            let mut field_errors: Vec<(String, String)> = Vec::new();
            let mut i: usize = 0;
            while i < details.len()
                invariant
                    i <= details.len(),
                    pair_views(field_errors@) == detail_views(details@.take(i as int)),
                decreases details.len() - i,
            {
                let ghost before = field_errors@;
                field_errors.push((details[i].field.clone(), details[i].message.clone()));
                proof {
                    assert(detail_views(details@.take(i as int)).len() == i as int);
                    assert(before.len() == i as int);
                    assert(details@.take(i as int + 1) == details@.take(i as int).push(
                        details@[i as int],
                    ));
                    assert forall|k: int| 0 <= k < i + 1 implies pair_views(field_errors@)[k]
                        == detail_views(details@.take(i as int + 1))[k] by {
                        if k < i {
                            assert(field_errors@[k] == before[k]);
                            assert(pair_views(before)[k] == detail_views(
                                details@.take(i as int),
                            )[k]);
                        } else {
                            assert(field_errors@[k].0@ == details@[k].field@);
                            assert(field_errors@[k].1@ == details@[k].message@);
                        }
                    }
                    assert(pair_views(field_errors@) =~= detail_views(details@.take(i as int + 1)));
                }
                i = i + 1;
            }
            proof {
                assert(details@.take(details@.len() as int) == details@);
            }
            return Err(
                ApiError::ValidationError {
                    message: String::from_str("Invalid input"),
                    field_errors,
                },
            );
        },
        Ok(_) => {},
    }
    let user = match user_service.create_user(store, payload) {
        Ok(u) => u,
        Err(e) => {
            return Err(
                match e {
                    UserError::AccountAlreadyExists => ApiError::Conflict(e.message()),
                    _ => ApiError::InternalServerError(
                        String::from_str("Internal server error"),
                    ),
                },
            );
        },
    };
    let _ = auth_service.send_activation_token(store, email_service, user.id);
    Ok(SuccessResponse { message: String::from_str("User created"), data: None })
}

/// The verification flow: consumes the submitted activation token; an
/// unknown and an expired token are rejected with the same message.
pub fn verify_user(auth_service: &Authentication, store: &mut Store, payload: Token) -> (r: Result<
    SuccessResponse<()>,
    ApiError,
>)
    requires
        old(store).wf(),
    ensures
        final(store).wf(),
        r is Ok ==> exists|now: u64| #[trigger] consumed_token(
            *old(store),
            *final(store),
            payload.token@,
            now,
        ),
        r matches Ok(resp) ==> resp.message@ == "User verified"@ && resp.data is None,
        r is Err ==> *final(store) == *old(store) && (r matches Err(e) && e matches
            ApiError::BadRequest(m) && m@ == "Invalid token"@),
{
    match auth_service.verify_user(store, payload.token) {
        Ok(_) => Ok(SuccessResponse { message: String::from_str("User verified"), data: None }),
        Err(e) => Err(ApiError::BadRequest(e.message())),
    }
}

/// The resend flow: evicts the user's prior activation tokens and issues
/// and sends a replacement.
pub fn resend_token<E: EmailServiceBase>(
    auth_service: &Authentication,
    email_service: &E,
    store: &mut Store,
    payload: ResendToken,
) -> (r: Result<SuccessResponse<()>, ApiError>)
    requires
        old(store).wf(),
    ensures
        final(store).wf(),
        final(store).users@ == old(store).users@,
        r is Ok ==> exists|t: ActivationToken|
            t.user_id == payload.user_id && final(store).tokens@ == #[trigger] tokens_without_user(
                old(store).tokens@,
                payload.user_id,
            ).push(t),
        r matches Ok(resp) ==> resp.message@ == "Token resent"@ && resp.data is None,
        r is Err ==> final(store).tokens@ == tokens_without_user(
            old(store).tokens@,
            payload.user_id,
        ) && (r matches Err(e) && e matches ApiError::InternalServerError(m) && m@
            == "Internal server error"@),
{
    match auth_service.resend_activation_token(store, email_service, payload.user_id) {
        Ok(_) => Ok(SuccessResponse { message: String::from_str("Token resent"), data: None }),
        Err(e) => Err(ApiError::InternalServerError(e.message())),
    }
}

/// The login flow: an unknown username and a wrong password are rejected
/// identically, so the response never reveals whether the account exists;
/// a match yields a session token whose subject is the username.
pub fn login(auth_service: &Authentication, store: &Store, payload: Login) -> (r: Result<
    SuccessResponse<String>,
    ApiError,
>)
    requires
        store.wf(),
    ensures
        r matches Ok(resp) ==> resp.message@ == "Login successful"@ && credentials_ok(
            store.users@,
            payload.username@,
            payload.password@,
        ) && (resp.data matches Some(t) && exists|now: u64|
            now + auth_service.config.jwt.expiration <= u64::MAX && t@ == #[trigger] jwt_of(
                payload.username@,
                now,
                (now + auth_service.config.jwt.expiration) as u64,
                auth_service.config.jwt.secret@,
            )),
        !credentials_ok(store.users@, payload.username@, payload.password@) ==> (r matches Err(e)
            && e is Unauthorized),
        r matches Err(e) ==> (e is Unauthorized ==> !credentials_ok(
            store.users@,
            payload.username@,
            payload.password@,
        ) && (e matches ApiError::Unauthorized(m) && m@ == "Invalid Credentials"@)),
        r is Err ==> (r matches Err(e) && (e is Unauthorized || e is InternalServerError)),
{
    match auth_service.login(store, &payload) {
        Ok(t) => Ok(
            SuccessResponse { message: String::from_str("Login successful"), data: Some(t) },
        ),
        Err(e) => match e {
            AuthenticationError::InvalidCredentials => Err(
                ApiError::Unauthorized(String::from_str("Invalid Credentials")),
            ),
            _ => Err(ApiError::InternalServerError(String::from_str("Internal server error"))),
        },
    }
}

} // verus!
