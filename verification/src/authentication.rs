use vstd::prelude::*;
use vstd::string::*;
use crate::ambient::{fresh_token_string, now_seconds};
use crate::config::Config;
use crate::credential::{credential_matches, verify_password};
use crate::email::EmailServiceBase;
use crate::errors::AuthenticationError;
use crate::models::{ActivationToken, Login, User};
use crate::session::{issue_token, jwt_claims_of, jwt_of};
use crate::store::{
    activated, has_token_string, has_user_id, has_username, has_valid_token, tokens_without_string,
    tokens_without_user, Store,
};

verus! {

/// The fixed lifetime of an activation token: fifteen days, in seconds.
pub const ACTIVATION_TOKEN_TTL_SECONDS: u64 = 15 * 86400;

/// The URL a recipient follows to verify the account: the configured base
/// with the raw token string as its query parameter.
pub open spec fn activation_url(base: Seq<char>, token: Seq<char>) -> Seq<char> {
    base + "?token="@ + token
}

/// The notification message that embeds this activation URL.
pub open spec fn activation_message(url: Seq<char>) -> Seq<char> {
    "Hello,\n\nPlease click the link below to activate your account:\n<a href="@ + url
        + ">activate</a>\n\nBest regards,\nYour App Team\n"@
}

/// The second store is the first after consuming this activation token:
/// some unexpired row carries the token string, the user it references is
/// activated, and the row itself is deleted.
pub open spec fn consumed_token(s0: Store, s1: Store, token: Seq<char>, now: u64) -> bool {
    exists|i: int|
        {
            &&& 0 <= i < s0.tokens@.len()
            &&& (#[trigger] s0.tokens@[i]).token@ == token
            &&& s0.tokens@[i].expires_at > now
            &&& s1.users@.len() == s0.users@.len()
            &&& (forall|k: int|
                0 <= k < s0.users@.len() ==> s1.users@[k] == activated(
                    #[trigger] s0.users@[k],
                    s0.tokens@[i].user_id,
                ))
            &&& s1.tokens@ == tokens_without_string(s0.tokens@, token)
        }
}

/// The user record that carries this username; meaningful only when one
/// exists, and unambiguous because usernames are unique.
pub open spec fn user_with_username(users: Seq<User>, username: Seq<char>) -> User {
    users[choose|i: int| 0 <= i < users.len() && users[i].username@ == username]
}

/// The submitted credentials name an existing user and match that user's
/// stored password hash.
pub open spec fn credentials_ok(users: Seq<User>, username: Seq<char>, password: Seq<char>) -> bool {
    has_username(users, username) && credential_matches(
        password,
        user_with_username(users, username).password_hash@,
    )
}

/// Persists a fresh activation-token row for this user, expiring the fixed
/// lifetime after `now`. Succeeds exactly when the expiry is representable,
/// the token string collides with no row, and the user exists; any failure
/// leaves the store unchanged and surfaces as an internal error, since a
/// token collision indicates an entropy failure, not a user error.
pub fn issue_activation_token(
    store: &mut Store,
    user_id: u128,
    token_string: String,
    now: u64,
) -> (r: Result<ActivationToken, AuthenticationError>)
    requires
        old(store).wf(),
    ensures
        final(store).wf(),
        final(store).users@ == old(store).users@,
        r matches Ok(t) ==> {
            &&& t.user_id == user_id
            &&& t.token@ == token_string@
            &&& t.expires_at == now + ACTIVATION_TOKEN_TTL_SECONDS
            &&& final(store).tokens@ == old(store).tokens@.push(t)
        },
        r is Ok <==> now + ACTIVATION_TOKEN_TTL_SECONDS <= u64::MAX && !has_token_string(
            old(store).tokens@,
            token_string@,
        ) && has_user_id(old(store).users@, user_id),
        r is Err ==> final(store).tokens@ == old(store).tokens@ && r == Err::<
            ActivationToken,
            AuthenticationError,
        >(AuthenticationError::InternalServerError),
{
    let expires_at = match now.checked_add(ACTIVATION_TOKEN_TTL_SECONDS) {
        Some(e) => e,
        None => {
            return Err(AuthenticationError::InternalServerError);
        },
    };
    let token = ActivationToken { user_id, token: token_string, expires_at };
    let issued = token.duplicate();
    match store.save_token(token) {
        Ok(_) => Ok(issued),
        Err(_) => Err(AuthenticationError::InternalServerError),
    }
}

/// Consumes an activation token against the caller's clock: an exact,
/// unexpired match activates the referenced user and deletes the consumed
/// row, closing the replay window; an absent and an expired token fail with
/// the same error, deliberately indistinguishable to the caller.
pub fn verify_user_at(store: &mut Store, token: &String, now: u64) -> (r: Result<
    (),
    AuthenticationError,
>)
    requires
        old(store).wf(),
    ensures
        final(store).wf(),
        r is Ok <==> has_valid_token(old(store).tokens@, token@, now),
        r is Ok ==> consumed_token(*old(store), *final(store), token@, now),
        r is Err ==> r == Err::<(), AuthenticationError>(AuthenticationError::InvalidToken)
            && *final(store) == *old(store),
{
    match store.find_valid(token, now) {
        None => Err(AuthenticationError::InvalidToken),
        Some(row) => {
            let ghost s0 = *store;
            let _ = store.activate(row.user_id);
            store.delete_token(token);
            proof {
                let i = choose|i: int|
                    0 <= i < s0.tokens@.len() && s0.tokens@[i] == row && row.token@ == token@
                        && row.expires_at > now;
                assert((s0.tokens@[i]).token@ == token@);
                assert(consumed_token(s0, *store, token@, now));
            }
            Ok(())
        },
    }
}

/// The identity and verification orchestrator. It owns the configuration;
/// the store and the email collaborator are handed into each flow.
pub struct Authentication {
    pub config: Config,
}

impl Authentication {
    pub fn new(config: Config) -> (r: Self)
        ensures
            r.config == config,
    {
        Authentication { config }
    }

    /// Issues a fresh random activation token for this user and hands the
    /// notification message — the activation link with the raw token
    /// string — to the email collaborator. Delivery is fire-and-forget:
    /// its outcome is ignored. Persistence failure surfaces as an internal
    /// error, and nothing is sent.
    pub fn send_activation_token<E: EmailServiceBase>(
        &self,
        store: &mut Store,
        email_service: &E,
        user_id: u128,
    ) -> (r: Result<(), AuthenticationError>)
        requires
            old(store).wf(),
        ensures
            final(store).wf(),
            final(store).users@ == old(store).users@,
            r is Ok ==> has_user_id(old(store).users@, user_id) && (exists|t: ActivationToken|
                t.user_id == user_id && final(store).tokens@ == old(store).tokens@.push(t)),
            r is Err ==> final(store).tokens@ == old(store).tokens@ && r == Err::<
                (),
                AuthenticationError,
            >(AuthenticationError::InternalServerError),
            !has_user_id(old(store).users@, user_id) ==> r is Err,
    {
        let token_string = fresh_token_string();
        let now = now_seconds();
        let token = match issue_activation_token(store, user_id, token_string, now) {
            Ok(t) => t,
            Err(e) => {
                return Err(e);
            },
        };
        let to = match store.find_by_id(user_id) {
            Some(u) => u.email.clone(),
            None => {
                proof {
                    assert(false);
                }
                String::new()
            },
        };
        let url = self.config.app.verification_url.clone().concat("?token=").concat(
            token.token.as_str(),
        );
        let content = render_activation_message(url.as_str());
        let _ = email_service.send_email(
            to,
            Vec::new(),
            Vec::new(),
            String::from_str("Account Activation"),
            content,
        );
        Ok(())
    }

    /// Consumes an activation token against the current wall clock; see
    /// `verify_user_at` for the exact outcome at a given instant.
    pub fn verify_user(&self, store: &mut Store, token: String) -> (r: Result<
        (),
        AuthenticationError,
    >)
        requires
            old(store).wf(),
        ensures
            final(store).wf(),
            r is Ok ==> exists|now: u64| #[trigger] consumed_token(
                *old(store),
                *final(store),
                token@,
                now,
            ),
            r is Err ==> r == Err::<(), AuthenticationError>(AuthenticationError::InvalidToken)
                && *final(store) == *old(store),
    {
        let now = now_seconds();
        verify_user_at(store, &token, now)
    }

    /// Deletes every prior activation token of this user — best-effort
    /// eviction, so at most one live token exists per user — and issues and
    /// sends a replacement. The user need not be inactive: resending to an
    /// active user is harmless.
    pub fn resend_activation_token<E: EmailServiceBase>(
        &self,
        store: &mut Store,
        email_service: &E,
        user_id: u128,
    ) -> (r: Result<(), AuthenticationError>)
        requires
            old(store).wf(),
        ensures
            final(store).wf(),
            final(store).users@ == old(store).users@,
            r is Ok ==> has_user_id(old(store).users@, user_id) && (exists|t: ActivationToken|
                t.user_id == user_id && final(store).tokens@ == tokens_without_user(
                    old(store).tokens@,
                    user_id,
                ).push(t)),
            r is Err ==> final(store).tokens@ == tokens_without_user(old(store).tokens@, user_id)
                && r == Err::<(), AuthenticationError>(AuthenticationError::InternalServerError),
            !has_user_id(old(store).users@, user_id) ==> r is Err,
    {
        store.delete_for_user(user_id);
        self.send_activation_token(store, email_service, user_id)
    }

    /// Checks the submitted credentials and, on a match, mints a session
    /// token for the username at the given instant. This succeeds exactly
    /// when the credentials match and the expiry is representable. An
    /// unknown username and a wrong password fail identically, so a caller
    /// cannot infer whether the account exists; an unrepresentable expiry
    /// surfaces as an internal error.
    pub fn login_at(&self, store: &Store, username: &String, password: &String, now: u64) -> (r:
        Result<String, AuthenticationError>)
        requires
            store.wf(),
        ensures
            r is Ok <==> credentials_ok(store.users@, username@, password@) && now
                + self.config.jwt.expiration <= u64::MAX,
            r matches Ok(t) ==> {
                &&& t@ == jwt_of(
                    username@,
                    now,
                    (now + self.config.jwt.expiration) as u64,
                    self.config.jwt.secret@,
                )
                &&& jwt_claims_of(t@, self.config.jwt.secret@) == Some(
                    (username@, now, (now + self.config.jwt.expiration) as u64),
                )
            },
            r == Err::<String, AuthenticationError>(AuthenticationError::InvalidCredentials)
                <==> !credentials_ok(store.users@, username@, password@),
            r == Err::<String, AuthenticationError>(AuthenticationError::InternalServerError)
                <==> credentials_ok(store.users@, username@, password@) && now
                + self.config.jwt.expiration > u64::MAX,
    {
        let user = match store.find_by_username(username) {
            Some(u) => u,
            None => {
                return Err(AuthenticationError::InvalidCredentials);
            },
        };
        proof {
            let i = choose|i: int|
                0 <= i < store.users@.len() && store.users@[i] == *user && user.username@
                    == username@;
            let j = choose|j: int|
                0 <= j < store.users@.len() && store.users@[j].username@ == username@;
            assert(store.users@[i].username@ == username@);
            assert(i == j);
            assert(user_with_username(store.users@, username@) == *user);
        }
        if !verify_password(password, &user.password_hash) {
            return Err(AuthenticationError::InvalidCredentials);
        }
        issue_token(username, &self.config.jwt.secret, self.config.jwt.expiration, now)
    }

    /// Checks the submitted credentials against the current wall clock; see
    /// `login_at` for the exact outcome at a given instant.
    pub fn login(&self, store: &Store, credentials: &Login) -> (r: Result<
        String,
        AuthenticationError,
    >)
        requires
            store.wf(),
        ensures
            r matches Ok(t) ==> credentials_ok(
                store.users@,
                credentials.username@,
                credentials.password@,
            ) && (exists|now: u64|
                now + self.config.jwt.expiration <= u64::MAX && t@ == #[trigger] jwt_of(
                    credentials.username@,
                    now,
                    (now + self.config.jwt.expiration) as u64,
                    self.config.jwt.secret@,
                )),
            r == Err::<String, AuthenticationError>(AuthenticationError::InvalidCredentials)
                <==> !credentials_ok(store.users@, credentials.username@, credentials.password@),
            r is Err ==> r == Err::<String, AuthenticationError>(
                AuthenticationError::InvalidCredentials,
            ) || r == Err::<String, AuthenticationError>(AuthenticationError::InternalServerError),
    {
        let now = now_seconds();
        self.login_at(store, &credentials.username, &credentials.password, now)
    }
}

/// Renders the notification message around this activation URL.
fn render_activation_message(url: &str) -> (r: String)
    ensures
        r@ == activation_message(url@),
{
    String::from_str(
        "Hello,\n\nPlease click the link below to activate your account:\n<a href=",
    ).concat(url).concat(">activate</a>\n\nBest regards,\nYour App Team\n")
}

} // verus!
