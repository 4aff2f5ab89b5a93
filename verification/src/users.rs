use vstd::prelude::*;
use crate::ambient::{fresh_user_id, now_seconds};
use crate::config::Config;
use crate::credential::{credential_matches, hash_password, HASH_COST};
use crate::errors::UserError;
use crate::models::{RegisterUser, User};
use crate::store::{has_email, has_user_id, has_username, Store};

verus! {

/// The user repository: inserts new user records and maps the store's
/// uniqueness violations to domain errors.
pub struct Users {
    pub config: Config,
}

impl Users {
    pub fn new(config: Config) -> (r: Self)
        ensures
            r.config == config,
    {
        Users { config }
    }

    /// Registers a new user record: hashes the password, generates a fresh
    /// random identifier, and inserts the record inactive. A collision on
    /// email or username surfaces as `AccountAlreadyExists` — identically
    /// for both columns; a crypto failure or an identifier collision
    /// surfaces as an internal error, before or at the store respectively,
    /// and nothing is persisted on any failure.
    pub fn create_user(&self, store: &mut Store, user_payload: RegisterUser) -> (r: Result<
        User,
        UserError,
    >)
        requires
            old(store).wf(),
        ensures
            final(store).wf(),
            r matches Ok(u) ==> {
                &&& !has_email(old(store).users@, user_payload.email@)
                &&& !has_username(old(store).users@, user_payload.username@)
                &&& !has_user_id(old(store).users@, u.id)
                &&& final(store).users@ == old(store).users@.push(u)
                &&& final(store).tokens@ == old(store).tokens@
                &&& u.email@ == user_payload.email@
                &&& u.username@ == user_payload.username@
                &&& !u.is_active
                &&& credential_matches(user_payload.password@, u.password_hash@)
            },
            r is Err ==> *final(store) == *old(store) && (r == Err::<User, UserError>(
                UserError::AccountAlreadyExists,
            ) || r == Err::<User, UserError>(UserError::InternalServerError)),
            r == Err::<User, UserError>(UserError::AccountAlreadyExists) ==> has_email(
                old(store).users@,
                user_payload.email@,
            ) || has_username(old(store).users@, user_payload.username@),
            has_email(old(store).users@, user_payload.email@) || has_username(
                old(store).users@,
                user_payload.username@,
            ) ==> r is Err,
    {
        let user_id = fresh_user_id();
        let password_hash = match hash_password(&user_payload.password, HASH_COST) {
            Some(h) => h,
            None => {
                return Err(UserError::InternalServerError);
            },
        };
        let now = now_seconds();
        let user = User {
            id: user_id,
            email: user_payload.email,
            password_hash,
            username: user_payload.username,
            is_active: false,
            created_at: now,
            updated_at: now,
        };
        let record = user.duplicate();
        match store.insert_user(user) {
            Ok(_) => Ok(record),
            Err(e) => Err(e),
        }
    }
}

} // verus!
