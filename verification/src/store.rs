use vstd::prelude::*;
use vstd::seq_lib::*;
use crate::errors::{StoreError, UserError};
use crate::models::{ActivationToken, User};

verus! {

/// Some user row carries this email.
pub open spec fn has_email(users: Seq<User>, email: Seq<char>) -> bool {
    exists|i: int| 0 <= i < users.len() && users[i].email@ == email
}

/// Some user row carries this username.
pub open spec fn has_username(users: Seq<User>, username: Seq<char>) -> bool {
    exists|i: int| 0 <= i < users.len() && users[i].username@ == username
}

/// Some user row carries this identifier.
pub open spec fn has_user_id(users: Seq<User>, id: u128) -> bool {
    exists|i: int| 0 <= i < users.len() && users[i].id == id
}

/// Some token row carries this token string.
pub open spec fn has_token_string(tokens: Seq<ActivationToken>, token: Seq<char>) -> bool {
    exists|i: int| 0 <= i < tokens.len() && tokens[i].token@ == token
}

/// Some token row carries this token string and is not yet expired.
pub open spec fn has_valid_token(
    tokens: Seq<ActivationToken>,
    token: Seq<char>,
    now: u64,
) -> bool {
    exists|i: int| 0 <= i < tokens.len() && tokens[i].token@ == token && tokens[i].expires_at > now
}

/// The uniqueness constraints of the `users` table: `id`, `email` and
/// `username` are each unique across rows.
pub open spec fn users_wf(users: Seq<User>) -> bool {
    forall|i: int, j: int|
        0 <= i < users.len() && 0 <= j < users.len() && i != j ==> {
            &&& (#[trigger] users[i]).id != (#[trigger] users[j]).id
            &&& users[i].email@ != users[j].email@
            &&& users[i].username@ != users[j].username@
        }
}

/// The constraints of the `verification_tokens` table: `token` is unique
/// across rows, and `user_id` references an existing user row.
pub open spec fn tokens_wf(users: Seq<User>, tokens: Seq<ActivationToken>) -> bool {
    &&& forall|i: int, j: int|
        0 <= i < tokens.len() && 0 <= j < tokens.len() && i != j ==> (#[trigger] tokens[i]).token@
            != (#[trigger] tokens[j]).token@
    &&& forall|i: int| 0 <= i < tokens.len() ==> has_user_id(users, (#[trigger] tokens[i]).user_id)
}

/// The row this row becomes when the user with `id` is activated: the
/// active flag flips to true on a matching row, all else is unchanged.
pub open spec fn activated(u: User, id: u128) -> User {
    if u.id == id {
        User { is_active: true, ..u }
    } else {
        u
    }
}

/// The token rows that survive deleting every row of this user.
pub open spec fn tokens_without_user(
    tokens: Seq<ActivationToken>,
    user_id: u128,
) -> Seq<ActivationToken> {
    tokens.filter(|t: ActivationToken| t.user_id != user_id)
}

/// The token rows that survive deleting the row with this token string.
pub open spec fn tokens_without_string(
    tokens: Seq<ActivationToken>,
    token: Seq<char>,
) -> Seq<ActivationToken> {
    tokens.filter(|t: ActivationToken| t.token@ != token)
}

/// The relational store, modelled as its two tables. It is the sole source
/// of truth for users and activation tokens; the constraints of the schema
/// are its invariant.
pub struct Store {
    pub users: Vec<User>,
    pub tokens: Vec<ActivationToken>,
}

impl Store {
    /// The schema constraints hold of both tables.
    pub open spec fn wf(&self) -> bool {
        users_wf(self.users@) && tokens_wf(self.users@, self.tokens@)
    }

    /// An empty store.
    pub fn new() -> (r: Store)
        ensures
            r.wf(),
            r.users@ == Seq::<User>::empty(),
            r.tokens@ == Seq::<ActivationToken>::empty(),
    {
        Store { users: Vec::new(), tokens: Vec::new() }
    }

    /// Whether a user row with this email exists.
    pub fn email_taken(&self, email: &String) -> (r: bool)
        ensures
            r == has_email(self.users@, email@),
    {
        let mut i: usize = 0;
        while i < self.users.len()
            invariant
                i <= self.users.len(),
                forall|k: int| 0 <= k < i ==> (#[trigger] self.users@[k]).email@ != email@,
            decreases self.users.len() - i,
        {
            if self.users[i].email == *email {
                assert(self.users@[i as int].email@ == email@);
                return true;
            }
            i = i + 1;
        }
        false
    }

    /// Whether a user row with this username exists.
    pub fn username_taken(&self, username: &String) -> (r: bool)
        ensures
            r == has_username(self.users@, username@),
    {
        let mut i: usize = 0;
        while i < self.users.len()
            invariant
                i <= self.users.len(),
                forall|k: int| 0 <= k < i ==> (#[trigger] self.users@[k]).username@ != username@,
            decreases self.users.len() - i,
        {
            if self.users[i].username == *username {
                assert(self.users@[i as int].username@ == username@);
                return true;
            }
            i = i + 1;
        }
        false
    }

    /// Whether a user row with this identifier exists.
    pub fn user_id_taken(&self, id: u128) -> (r: bool)
        ensures
            r == has_user_id(self.users@, id),
    {
        let mut i: usize = 0;
        while i < self.users.len()
            invariant
                i <= self.users.len(),
                forall|k: int| 0 <= k < i ==> (#[trigger] self.users@[k]).id != id,
            decreases self.users.len() - i,
        {
            if self.users[i].id == id {
                assert(self.users@[i as int].id == id);
                return true;
            }
            i = i + 1;
        }
        false
    }

    /// The user row with this identifier, if any.
    pub fn find_by_id(&self, id: u128) -> (r: Option<&User>)
        requires
            self.wf(),
        ensures
            match r {
                Some(u) => exists|i: int|
                    0 <= i < self.users@.len() && self.users@[i] == *u && u.id == id,
                None => !has_user_id(self.users@, id),
            },
    {
        let mut i: usize = 0;
        while i < self.users.len()
            invariant
                i <= self.users.len(),
                forall|k: int| 0 <= k < i ==> (#[trigger] self.users@[k]).id != id,
            decreases self.users.len() - i,
        {
            if self.users[i].id == id {
                return Some(&self.users[i]);
            }
            i = i + 1;
        }
        None
    }

    /// The user row with this username, if any.
    pub fn find_by_username(&self, username: &String) -> (r: Option<&User>)
        requires
            self.wf(),
        ensures
            match r {
                Some(u) => exists|i: int|
                    0 <= i < self.users@.len() && self.users@[i] == *u && u.username@ == username@,
                None => !has_username(self.users@, username@),
            },
    {
        let mut i: usize = 0;
        while i < self.users.len()
            invariant
                i <= self.users.len(),
                forall|k: int| 0 <= k < i ==> (#[trigger] self.users@[k]).username@ != username@,
            decreases self.users.len() - i,
        {
            if self.users[i].username == *username {
                return Some(&self.users[i]);
            }
            i = i + 1;
        }
        None
    }

    /// Inserts a new user row. A collision on the unique `email` or
    /// `username` column surfaces as `AccountAlreadyExists` — deliberately
    /// without saying which column collided; a collision on the generated
    /// `id` is an internal failure. On any failure the store is unchanged.
    pub fn insert_user(&mut self, user: User) -> (r: Result<(), UserError>)
        requires
            old(self).wf(),
        ensures
            final(self).wf(),
            r == (if has_email(old(self).users@, user.email@) || has_username(
                old(self).users@,
                user.username@,
            ) {
                Err::<(), UserError>(UserError::AccountAlreadyExists)
            } else if has_user_id(old(self).users@, user.id) {
                Err::<(), UserError>(UserError::InternalServerError)
            } else {
                Ok::<(), UserError>(())
            }),
            r is Ok ==> final(self).users@ == old(self).users@.push(user) && final(self).tokens@
                == old(self).tokens@,
            r is Err ==> *final(self) == *old(self),
    {
        if self.email_taken(&user.email) || self.username_taken(&user.username) {
            return Err(UserError::AccountAlreadyExists);
        }
        if self.user_id_taken(user.id) {
            return Err(UserError::InternalServerError);
        }
        proof {
            lemma_push_fresh_user_wf(self.users@, self.tokens@, user);
        }
        self.users.push(user);
        Ok(())
    }

    /// Flips the active flag of the user with this identifier to true.
    /// The flip is idempotent, and a missing user is not specially
    /// reported: the statement simply updates no row.
    pub fn activate(&mut self, user_id: u128) -> (r: Result<(), UserError>)
        requires
            old(self).wf(),
        ensures
            final(self).wf(),
            r is Ok,
            final(self).users@.len() == old(self).users@.len(),
            forall|i: int|
                0 <= i < old(self).users@.len() ==> final(self).users@[i] == activated(
                    #[trigger] old(self).users@[i],
                    user_id,
                ),
            final(self).tokens@ == old(self).tokens@,
    {
        let n = self.users.len();
        let mut i: usize = 0;
        while i < n
            invariant
                old(self).wf(),
                i <= n,
                n == self.users.len() == old(self).users.len(),
                self.tokens == old(self).tokens,
                forall|k: int|
                    0 <= k < i ==> self.users@[k] == activated(
                        #[trigger] old(self).users@[k],
                        user_id,
                    ),
                forall|k: int| i <= k < n ==> self.users@[k] == old(self).users@[k],
            decreases n - i,
        {
            if self.users[i].id == user_id {
                self.users[i].is_active = true;
            }
            i = i + 1;
        }
        proof {
            assert forall|i: int, j: int|
                0 <= i < self.users@.len() && 0 <= j < self.users@.len() && i != j implies {
                &&& (#[trigger] self.users@[i]).id != (#[trigger] self.users@[j]).id
                &&& self.users@[i].email@ != self.users@[j].email@
                &&& self.users@[i].username@ != self.users@[j].username@
            } by {
                assert(old(self).users@[i].id != old(self).users@[j].id);
            }
            assert forall|i: int| 0 <= i < self.tokens@.len() implies has_user_id(
                self.users@,
                (#[trigger] self.tokens@[i]).user_id,
            ) by {
                let w = choose|w: int|
                    0 <= w < old(self).users@.len() && old(self).users@[w].id
                        == self.tokens@[i].user_id;
                assert(self.users@[w].id == self.tokens@[i].user_id);
            }
        }
        Ok(())
    }

    /// Inserts an activation-token row. A duplicate token string violates
    /// the unique constraint; a `user_id` with no user row violates the
    /// foreign key. On any failure the store is unchanged.
    pub fn save_token(&mut self, token: ActivationToken) -> (r: Result<(), StoreError>)
        requires
            old(self).wf(),
        ensures
            final(self).wf(),
            r == (if has_token_string(old(self).tokens@, token.token@) {
                Err::<(), StoreError>(StoreError::UniqueViolation)
            } else if !has_user_id(old(self).users@, token.user_id) {
                Err::<(), StoreError>(StoreError::ForeignKeyViolation)
            } else {
                Ok::<(), StoreError>(())
            }),
            r is Ok ==> final(self).tokens@ == old(self).tokens@.push(token) && final(self).users@
                == old(self).users@,
            r is Err ==> *final(self) == *old(self),
    {
        if self.token_string_taken(&token.token) {
            return Err(StoreError::UniqueViolation);
        }
        if !self.user_id_taken(token.user_id) {
            return Err(StoreError::ForeignKeyViolation);
        }
        self.tokens.push(token);
        Ok(())
    }

    /// Whether a token row with this token string exists.
    pub fn token_string_taken(&self, token: &String) -> (r: bool)
        ensures
            r == has_token_string(self.tokens@, token@),
    {
        let mut i: usize = 0;
        while i < self.tokens.len()
            invariant
                i <= self.tokens.len(),
                forall|k: int| 0 <= k < i ==> (#[trigger] self.tokens@[k]).token@ != token@,
            decreases self.tokens.len() - i,
        {
            if self.tokens[i].token == *token {
                assert(self.tokens@[i as int].token@ == token@);
                return true;
            }
            i = i + 1;
        }
        false
    }

    /// The token row that matches this token string exactly and is not yet
    /// expired, if any. An expired row and an absent row are deliberately
    /// indistinguishable to the caller.
    pub fn find_valid(&self, token: &String, now: u64) -> (r: Option<ActivationToken>)
        requires
            self.wf(),
        ensures
            match r {
                Some(t) => exists|i: int|
                    0 <= i < self.tokens@.len() && self.tokens@[i] == t && t.token@ == token@
                        && t.expires_at > now,
                None => !has_valid_token(self.tokens@, token@, now),
            },
    {
        let mut i: usize = 0;
        while i < self.tokens.len()
            invariant
                i <= self.tokens.len(),
                forall|k: int|
                    0 <= k < i ==> !((#[trigger] self.tokens@[k]).token@ == token@
                        && self.tokens@[k].expires_at > now),
            decreases self.tokens.len() - i,
        {
            if self.tokens[i].token == *token && self.tokens[i].expires_at > now {
                return Some(self.tokens[i].duplicate());
            }
            i = i + 1;
        }
        None
    }

    /// Deletes every token row of this user; the user rows are untouched.
    #[verifier::loop_isolation(false)]
    pub fn delete_for_user(&mut self, user_id: u128)
        requires
            old(self).wf(),
        ensures
            final(self).wf(),
            final(self).users@ == old(self).users@,
            final(self).tokens@ == tokens_without_user(old(self).tokens@, user_id),
    {
        broadcast use Seq::lemma_filter_push;

        let ghost pred = |t: ActivationToken| t.user_id != user_id;
        let mut kept: Vec<ActivationToken> = Vec::new();
        let n = self.tokens.len();
        let mut i: usize = 0;
        proof {
            lemma_filter_empty::<ActivationToken>(pred);
            assert(self.tokens@.take(0) =~= Seq::<ActivationToken>::empty());
        }
        while i < n
            invariant
                i <= n,
                n == self.tokens.len(),
                self.users == old(self).users,
                self.tokens == old(self).tokens,
                kept@ == self.tokens@.take(i as int).filter(pred),
            decreases n - i,
        {
            proof {
                assert(self.tokens@.take(i as int + 1) == self.tokens@.take(i as int).push(
                    self.tokens@[i as int],
                ));
                self.tokens@.take(i as int).lemma_filter_push(self.tokens@[i as int], pred);
            }
            if self.tokens[i].user_id != user_id {
                kept.push(self.tokens[i].duplicate());
            }
            i = i + 1;
        }
        proof {
            assert(self.tokens@.take(n as int) == self.tokens@);
            lemma_filter_keeps_token_wf(self.users@, self.tokens@, pred);
        }
        self.tokens = kept;
    }

    /// Deletes the token row that carries this token string, if one exists;
    /// the user rows are untouched.
    #[verifier::loop_isolation(false)]
    pub fn delete_token(&mut self, token: &String)
        requires
            old(self).wf(),
        ensures
            final(self).wf(),
            final(self).users@ == old(self).users@,
            final(self).tokens@ == tokens_without_string(old(self).tokens@, token@),
    {
        broadcast use Seq::lemma_filter_push;

        let ghost pred = |t: ActivationToken| t.token@ != token@;
        let mut kept: Vec<ActivationToken> = Vec::new();
        let n = self.tokens.len();
        let mut i: usize = 0;
        proof {
            lemma_filter_empty::<ActivationToken>(pred);
            assert(self.tokens@.take(0) =~= Seq::<ActivationToken>::empty());
        }
        while i < n
            invariant
                i <= n,
                n == self.tokens.len(),
                self.users == old(self).users,
                self.tokens == old(self).tokens,
                kept@ == self.tokens@.take(i as int).filter(pred),
            decreases n - i,
        {
            proof {
                assert(self.tokens@.take(i as int + 1) == self.tokens@.take(i as int).push(
                    self.tokens@[i as int],
                ));
                self.tokens@.take(i as int).lemma_filter_push(self.tokens@[i as int], pred);
            }
            if self.tokens[i].token != *token {
                kept.push(self.tokens[i].duplicate());
            }
            i = i + 1;
        }
        proof {
            assert(self.tokens@.take(n as int) == self.tokens@);
            lemma_filter_keeps_token_wf(self.users@, self.tokens@, pred);
        }
        self.tokens = kept;
    }
}

/// Filtering an empty sequence yields an empty sequence.
proof fn lemma_filter_empty<A>(pred: spec_fn(A) -> bool)
    ensures
        Seq::<A>::empty().filter(pred) == Seq::<A>::empty(),
{
    reveal(Seq::filter);
}

/// Pushing a user whose id, email and username are all fresh keeps the
/// schema constraints.
proof fn lemma_push_fresh_user_wf(users: Seq<User>, tokens: Seq<ActivationToken>, user: User)
    requires
        users_wf(users),
        tokens_wf(users, tokens),
        !has_email(users, user.email@),
        !has_username(users, user.username@),
        !has_user_id(users, user.id),
    ensures
        users_wf(users.push(user)),
        tokens_wf(users.push(user), tokens),
{
    let grown = users.push(user);
    assert forall|i: int, j: int|
        0 <= i < grown.len() && 0 <= j < grown.len() && i != j implies {
        &&& (#[trigger] grown[i]).id != (#[trigger] grown[j]).id
        &&& grown[i].email@ != grown[j].email@
        &&& grown[i].username@ != grown[j].username@
    } by {
        if i < users.len() && j < users.len() {
            assert(users[i].id != users[j].id);
        } else if i < users.len() {
            assert(!(users[i].email@ == user.email@));
            assert(!(users[i].username@ == user.username@));
            assert(!(users[i].id == user.id));
        } else {
            assert(!(users[j].email@ == user.email@));
            assert(!(users[j].username@ == user.username@));
            assert(!(users[j].id == user.id));
        }
    }
    assert forall|i: int| 0 <= i < tokens.len() implies has_user_id(
        grown,
        (#[trigger] tokens[i]).user_id,
    ) by {
        let w = choose|w: int| 0 <= w < users.len() && users[w].id == tokens[i].user_id;
        assert(grown[w].id == tokens[i].user_id);
    }
}

/// Filtering the token rows keeps the schema constraints: uniqueness of the
/// token strings and the foreign key both carry over to any subset.
proof fn lemma_filter_keeps_token_wf(
    users: Seq<User>,
    tokens: Seq<ActivationToken>,
    pred: spec_fn(ActivationToken) -> bool,
)
    requires
        users_wf(users),
        tokens_wf(users, tokens),
    ensures
        tokens_wf(users, tokens.filter(pred)),
    decreases tokens.len(),
{
    reveal(Seq::filter);
    if tokens.len() > 0 {
        let head = tokens.drop_last();
        assert(tokens_wf(users, head)) by {
            assert forall|i: int, j: int|
                0 <= i < head.len() && 0 <= j < head.len() && i != j implies (#[trigger] head[i]).token@
                != (#[trigger] head[j]).token@ by {
                assert(tokens[i].token@ != tokens[j].token@);
            }
            assert forall|i: int| 0 <= i < head.len() implies has_user_id(
                users,
                (#[trigger] head[i]).user_id,
            ) by {
                assert(has_user_id(users, tokens[i].user_id));
            }
        }
        lemma_filter_keeps_token_wf(users, head, pred);
        let sub = head.filter(pred);
        if pred(tokens.last()) {
            let out = sub.push(tokens.last());
            assert(tokens.filter(pred) == out);
            assert forall|i: int, j: int|
                0 <= i < out.len() && 0 <= j < out.len() && i != j implies (#[trigger] out[i]).token@
                != (#[trigger] out[j]).token@ by {
                broadcast use group_filter_ensures;

                if i < sub.len() && j < sub.len() {
                    assert(sub[i].token@ != sub[j].token@);
                } else {
                    let inner = if i < sub.len() { i } else { j };
                    assert(sub.contains(sub[inner]));
                    head.lemma_filter_contains_rev(pred, sub[inner]);
                    assert(head.contains(sub[inner]));
                    let w = choose|w: int| 0 <= w < head.len() && head[w] == sub[inner];
                    assert(tokens[w].token@ != tokens.last().token@);
                }
            }
            assert forall|i: int| 0 <= i < out.len() implies has_user_id(
                users,
                (#[trigger] out[i]).user_id,
            ) by {
                if i < sub.len() {
                    assert(has_user_id(users, sub[i].user_id));
                } else {
                    assert(out[i] == tokens.last());
                    assert(has_user_id(users, tokens[tokens.len() - 1].user_id));
                }
            }
        }
    }
}

} // verus!

