//! Login: checking credentials and issuing a token.

use vstd::prelude::*;
use crate::errors::{ApiError, ApiErrorView, ErrorKind};
use crate::jwt::{current_timestamp, failure_text, has_no_space, sign};
use crate::middlewares::auth::{
    bearer_header, guard_outcome, is_fresh, lemma_fresh_token_outcome, verified_claims,
    AdminPermissionAuthorization, SecretKeyWrapper, UserAuthorization,
};
use crate::models::user::{
    lemma_claim_round_trip, password_matches, token_text, ClaimsView, UserAuthClaimsModel,
    UserAuthModel, UserAuthResponseModel, UserPermissionLevel, UserStoreModel, UserStoreView,
};
use crate::oid::{hex_text, id_hex, object_id_bytes};
use crate::store::{lookup_view, resolve, resolved, result_view};
use crate::text::join3;

verus! {

/// How long a token stays valid, in seconds.
pub const TOKEN_LIFETIME: u64 = 3600;

/// The claim set issued to an account at a time: a snapshot of its
/// identifier, name and permission level, valid for [`TOKEN_LIFETIME`].
pub open spec fn claims_for(user: UserStoreView, now: u64) -> ClaimsView
    recommends
        now + TOKEN_LIFETIME <= u64::MAX,
{
    ClaimsView {
        exp: (now + TOKEN_LIFETIME) as u64,
        id: hex_text(object_id_bytes(user.id)),
        name: user.name,
        permissions: user.permissions,
    }
}

/// The token issued to an account at a time under a secret. It is a
/// function of the three.
pub open spec fn issued_token(user: UserStoreView, now: u64, secret: Seq<char>) -> Seq<char> {
    token_text(claims_for(user, now), secret)
}

/// Whether a token is the one issued to an account at a time under a
/// secret. Such a token holds no space, and it verifies under the secret
/// to the claim set of that account and time.
pub open spec fn is_issued(token: Seq<char>, secret: Seq<char>, user: UserStoreView, now: u64) -> bool {
    &&& token == issued_token(user, now, secret)
    &&& has_no_space(token)
    &&& verified_claims(token, secret) == Some(claims_for(user, now))
}

/// The message for a clock so far ahead that a token's expiry cannot be
/// written.
pub open spec fn clock_out_of_range() -> Seq<char> {
    "The clock is out of range."@
}

/// What a passing login comes to at a time: the token issued to the
/// account at that time, or, where the token's expiry cannot be written,
/// a server fault.
pub open spec fn answers_at(
    answer: Result<UserAuthResponseModel, ApiError>,
    secret: Seq<char>,
    user: UserStoreView,
    now: u64,
) -> bool {
    if now + TOKEN_LIFETIME <= u64::MAX {
        answer matches Ok(issued) && is_issued(issued.token@, secret, user, now)
    } else {
        answer matches Err(failure) && failure@ == (ApiErrorView {
            kind: ErrorKind::ServerFault,
            message: clock_out_of_range(),
        })
    }
}

/// The message for a login under a name that no account has.
pub open spec fn unknown_user(name: Seq<char>) -> Seq<char> {
    "User "@ + name + " not found."@
}

/// What a login comes to, given the answer to a search for the account by
/// name: the account, where the password is its own; forbidden where it is
/// not; not found where there is no such account; a server fault where the
/// search failed.
pub open spec fn login_outcome(
    lookup: Result<Option<UserStoreView>, Seq<char>>,
    name: Seq<char>,
    password: Seq<char>,
) -> Result<UserStoreView, ApiErrorView> {
    match resolved(lookup, unknown_user(name)) {
        Ok(user) => if password_matches(password, user.password_hash) {
            Ok(user)
        } else {
            Err(ApiErrorView { kind: ErrorKind::Forbidden, message: "Invalid password."@ })
        },
        Err(failure) => Err(failure),
    }
}

/// Builds the claim set for an account at a time.
pub fn claims_at(user: &UserStoreModel, now: u64) -> (claim: UserAuthClaimsModel)
    requires
        now + TOKEN_LIFETIME <= u64::MAX,
    ensures
        claim@ == claims_for(user@, now),
{
    UserAuthClaimsModel {
        exp: now + TOKEN_LIFETIME,
        _id: id_hex(&user._id),
        name: user.name.clone(),
        permissions: user.permissions,
    }
}

/// Signs a claim set with the server's secret. The token is the one that
/// the claim set and the secret determine; it holds no space, and it
/// verifies under that secret to this claim set. A signer that failed
/// would be a server fault; the one in use does not fail.
pub fn sign_claim(claim: &UserAuthClaimsModel, secret: &SecretKeyWrapper) -> (token: Result<
    String,
    ApiError,
>)
    ensures
        token matches Ok(text) && text@ == token_text(claim@, secret.key@) && has_no_space(text@)
            && verified_claims(text@, secret.key@) == Some(claim@),
{
    let payload = claim.to_payload();
    proof {
        lemma_claim_round_trip(claim@);
    }
    match sign(&payload, secret.key.as_str()) {
        Ok(text) => Ok(text),
        Err(failure) => Err(ApiError::server_fault(failure_text(&failure))),
    }
}

/// Checks the credentials of a login against the answer to a search for
/// the account by name.
pub fn login(lookup: Result<Option<UserStoreModel>, String>, auth: &UserAuthModel) -> (outcome:
    Result<UserStoreModel, ApiError>)
    ensures
        result_view(outcome) == login_outcome(lookup_view(lookup), auth.name@, auth.password@),
{
    let user = match resolve(lookup, join3("User ", auth.name.as_str(), " not found.")) {
        Ok(user) => user,
        Err(failure) => {
            return Err(failure);
        },
    };
    if !user.authenticate(auth.password.as_str()) {
        return Err(ApiError::new(ErrorKind::Forbidden, "Invalid password."));
    }
    Ok(user)
}

/// Issues a token to an account at a time: the token that the account,
/// the time and the secret determine.
pub fn issue_at(user: &UserStoreModel, secret: &SecretKeyWrapper, now: u64) -> (answer: Result<
    UserAuthResponseModel,
    ApiError,
>)
    requires
        now + TOKEN_LIFETIME <= u64::MAX,
    ensures
        answer matches Ok(issued) && is_issued(issued.token@, secret.key@, user@, now),
{
    let claim = claims_at(user, now);
    match sign_claim(&claim, secret) {
        Ok(token) => Ok(UserAuthResponseModel { token }),
        Err(failure) => Err(failure),
    }
}

/// Answers a login, given the answer to a search for the account by name:
/// a failed login fails as [`login_outcome`] says; a passing one is
/// answered with the token issued to the account at the time the clock
/// reads, or, where the clock is so far ahead that the token's expiry
/// cannot be written, with a server fault.
pub fn get_token(
    lookup: Result<Option<UserStoreModel>, String>,
    secret: &SecretKeyWrapper,
    auth: &UserAuthModel,
) -> (answer: Result<UserAuthResponseModel, ApiError>)
    ensures
        match login_outcome(lookup_view(lookup), auth.name@, auth.password@) {
            Err(refusal) => answer matches Err(failure) && failure@ == refusal,
            Ok(user) => exists|now: u64| #[trigger] answers_at(answer, secret.key@, user, now),
        },
{
    let user = match login(lookup, auth) {
        Ok(user) => user,
        Err(failure) => {
            return Err(failure);
        },
    };
    let now = current_timestamp();
    if now > u64::MAX - TOKEN_LIFETIME {
        let answer = Err(ApiError::new(ErrorKind::ServerFault, "The clock is out of range."));
        assert(answers_at(answer, secret.key@, user@, now));
        return answer;
    }
    let answer = issue_at(&user, secret, now);
    assert(answers_at(answer, secret.key@, user@, now));
    answer
}

/// Issuing is a function of the account, the time and the secret: two
/// tokens issued for the same three are the same token.
pub proof fn lemma_issuing_is_a_function(
    first: Seq<char>,
    second: Seq<char>,
    secret: Seq<char>,
    user: UserStoreView,
    now: u64,
)
    requires
        is_issued(first, secret, user, now),
        is_issued(second, secret, user, now),
    ensures
        first == second,
{
}

/// A token issued to an account, sent as a bearer header before it
/// expires, passes the policy that admits every caller, with the claim set
/// it was issued for; and where administrators only are admitted it passes
/// exactly if the account is one, and is forbidden otherwise.
pub proof fn lemma_issued_token_at_the_guard(
    token: Seq<char>,
    secret: Seq<char>,
    user: UserStoreView,
    issued_at: u64,
    now: u64,
)
    requires
        issued_at + TOKEN_LIFETIME <= u64::MAX,
        is_issued(token, secret, user, issued_at),
        now < issued_at + TOKEN_LIFETIME,
    ensures
        guard_outcome::<UserAuthorization>(Some(bearer_header(token)), Some(secret), now) == Ok::<
            ClaimsView,
            ErrorKind,
        >(claims_for(user, issued_at)),
        user.permissions == UserPermissionLevel::Admin ==> guard_outcome::<
            AdminPermissionAuthorization,
        >(Some(bearer_header(token)), Some(secret), now) == Ok::<ClaimsView, ErrorKind>(
            claims_for(user, issued_at),
        ),
        user.permissions == UserPermissionLevel::User ==> guard_outcome::<
            AdminPermissionAuthorization,
        >(Some(bearer_header(token)), Some(secret), now) == Err::<ClaimsView, ErrorKind>(
            ErrorKind::Forbidden,
        ),
{
    let claim = claims_for(user, issued_at);
    assert(is_fresh(claim, now));
    lemma_fresh_token_outcome::<UserAuthorization>(token, secret, claim, now);
    lemma_fresh_token_outcome::<AdminPermissionAuthorization>(token, secret, claim, now);
}

} // verus!
