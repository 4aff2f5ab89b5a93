use vstd::prelude::*;
use crate::models::{ActivationToken, User};
use crate::store::{
    has_email, has_username, has_valid_token, tokens_without_string, tokens_without_user,
};

verus! {

/// Every row that survives deleting a token string carries another string.
proof fn lemma_without_string_elements(tokens: Seq<ActivationToken>, token: Seq<char>)
    ensures
        forall|i: int|
            0 <= i < tokens_without_string(tokens, token).len() ==> (#[trigger] tokens_without_string(
                tokens,
                token,
            )[i]).token@ != token,
    decreases tokens.len(),
{
    reveal(Seq::filter);
    if tokens.len() > 0 {
        lemma_without_string_elements(tokens.drop_last(), token);
    }
}

/// Every row that survives deleting a user's tokens belongs to another
/// user and was a row of the original table.
proof fn lemma_without_user_elements(tokens: Seq<ActivationToken>, user_id: u128)
    ensures
        forall|i: int|
            0 <= i < tokens_without_user(tokens, user_id).len() ==> (#[trigger] tokens_without_user(
                tokens,
                user_id,
            )[i]).user_id != user_id && tokens.contains(
                tokens_without_user(tokens, user_id)[i],
            ),
    decreases tokens.len(),
{
    reveal(Seq::filter);
    if tokens.len() > 0 {
        lemma_without_user_elements(tokens.drop_last(), user_id);
        let head = tokens.drop_last();
        let sub = tokens_without_user(head, user_id);
        assert forall|i: int| 0 <= i < sub.len() implies tokens.contains(sub[i]) by {
            assert(head.contains(sub[i]));
            let w = choose|w: int| 0 <= w < head.len() && head[w] == sub[i];
            assert(tokens[w] == sub[i]);
        }
        if tokens.last().user_id != user_id {
            assert(tokens[tokens.len() - 1] == tokens.last());
        }
    }
}

/// A consumed activation token stays invalid: once verification deletes
/// the row that carried its string, no surviving row carries that string,
/// at any later instant — so a second verification of the same token fails,
/// whichever clock value it runs against.
pub proof fn lemma_consumed_token_stays_invalid(
    tokens: Seq<ActivationToken>,
    token: Seq<char>,
    now: u64,
)
    ensures
        !has_valid_token(tokens_without_string(tokens, token), token, now),
{
    lemma_without_string_elements(tokens, token);
}

/// A resend invalidates every earlier token of the user and leaves the
/// replacement as the one live token: after the user's rows are evicted
/// and the replacement is inserted, an earlier token string of that user
/// matches no row at any instant, while the replacement is a valid match
/// until it expires.
pub proof fn lemma_resend_evicts_old_tokens(
    tokens: Seq<ActivationToken>,
    replacement: ActivationToken,
    old_token: Seq<char>,
    user_id: u128,
    now: u64,
)
    requires
        forall|i: int|
            0 <= i < tokens.len() && (#[trigger] tokens[i]).token@ == old_token ==> tokens[i].user_id
                == user_id,
        replacement.token@ != old_token,
        replacement.user_id == user_id,
    ensures
        !has_valid_token(tokens_without_user(tokens, user_id).push(replacement), old_token, now),
        replacement.expires_at > now ==> has_valid_token(
            tokens_without_user(tokens, user_id).push(replacement),
            replacement.token@,
            now,
        ),
{
    lemma_without_user_elements(tokens, user_id);
    let grown = tokens_without_user(tokens, user_id).push(replacement);
    assert forall|i: int| 0 <= i < grown.len() implies (#[trigger] grown[i]).token@
        != old_token by {
        if i < grown.len() - 1 {
            let kept = tokens_without_user(tokens, user_id);
            assert(tokens.contains(kept[i]));
            let w = choose|w: int| 0 <= w < tokens.len() && tokens[w] == kept[i];
            assert(kept[i].user_id != user_id);
        }
    }
    if replacement.expires_at > now {
        assert(grown[grown.len() - 1] == replacement);
    }
}

/// A registered account makes its email and its username taken: once a
/// user row is inserted, a second registration that repeats either column
/// collides, and the store's contract reports the one conflict error for
/// both, deliberately not saying which column it was.
pub proof fn lemma_registered_account_taken(users: Seq<User>, u: User)
    ensures
        has_email(users.push(u), u.email@),
        has_username(users.push(u), u.username@),
{
    assert(users.push(u)[users.len() as int] == u);
}

} // verus!
