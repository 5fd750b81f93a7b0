//! The request guard: bearer token, signing secret, signature, expiry and
//! capability policy, checked in that order; and the owner-or-admin rule.

use vstd::prelude::*;
use core::marker::PhantomData;
use crate::errors::{ApiError, ApiErrorView, ErrorKind};
use crate::jwt::{current_timestamp, has_no_space, jwt_verified, verify};
use crate::models::user::{
    claim_view, claims_of, ClaimsView, UserAuthClaimsModel, UserPermissionLevel,
};
use crate::text::same_text;

verus! {

/// The server's signing secret, set once when the process starts.
pub struct SecretKeyWrapper {
    pub key: String,
}

/// A capability policy: a predicate over a claim set, chosen per endpoint.
pub trait Authorize {
    /// Whether the policy admits a claim set.
    spec fn admits(claim: ClaimsView) -> bool;

    /// Decides whether the policy admits a claim set.
    fn authorize(claim: &UserAuthClaimsModel) -> (allowed: bool)
        ensures
            allowed == Self::admits(claim@),
    ;
}

/// The policy that admits every authenticated caller.
pub struct UserAuthorization {}

/// The policy that admits administrators only.
pub struct AdminPermissionAuthorization {}

impl Authorize for UserAuthorization {
    open spec fn admits(claim: ClaimsView) -> bool {
        true
    }

    fn authorize(_claim: &UserAuthClaimsModel) -> (allowed: bool) {
        true
    }
}

impl Authorize for AdminPermissionAuthorization {
    open spec fn admits(claim: ClaimsView) -> bool {
        claim.permissions == UserPermissionLevel::Admin
    }

    fn authorize(claim: &UserAuthClaimsModel) -> (allowed: bool) {
        claim.permissions == UserPermissionLevel::Admin
    }
}

/// The length of the run of characters before the first space, or of the
/// whole text where it has no space.
pub open spec fn word_len(text: Seq<char>) -> int
    decreases text.len(),
{
    if text.len() == 0 || text[0] == ' ' {
        0
    } else {
        1 + word_len(text.skip(1))
    }
}

/// The token of an authorization header: the header is cut at its spaces,
/// its first piece must be the word `Bearer`, and its second piece, which
/// must exist, is the token. Further pieces are ignored.
pub open spec fn bearer_token_of(header: Seq<char>) -> Option<Seq<char>> {
    let scheme_end = word_len(header);
    if header.take(scheme_end) != "Bearer"@ || scheme_end == header.len() {
        None
    } else {
        let rest = header.skip(scheme_end + 1);
        Some(rest.take(word_len(rest)))
    }
}

/// A run of `count` characters without a space that ends the text or stands
/// before a space is the text's first word.
proof fn lemma_word_len_is(text: Seq<char>, count: int)
    requires
        0 <= count <= text.len(),
        forall|j: int| 0 <= j < count ==> text[j] != ' ',
        count == text.len() || text[count] == ' ',
    ensures
        word_len(text) == count,
    decreases count,
{
    if count > 0 {
        let rest = text.skip(1);
        assert forall|j: int| 0 <= j < count - 1 implies rest[j] != ' ' by {
            assert(rest[j] == text[j + 1]);
        }
        lemma_word_len_is(rest, count - 1);
    }
}

/// Where the word that starts at `from` ends.
fn word_end(text: &str, from: usize, len: usize) -> (end: usize)
    requires
        len == text@.len(),
        from <= len,
    ensures
        from <= end <= len,
        end - from == word_len(text@.skip(from as int)),
{
    let mut end: usize = from;
    while end < len && text.get_char(end) != ' '
        invariant
            len == text@.len(),
            from <= end <= len,
            forall|j: int| from <= j < end ==> text@[j] != ' ',
        decreases len - end,
    {
        end = end + 1;
    }
    proof {
        let rest = text@.skip(from as int);
        assert forall|j: int| 0 <= j < end - from implies rest[j] != ' ' by {
            assert(rest[j] == text@[from + j]);
        }
        lemma_word_len_is(rest, end - from);
    }
    end
}

/// Takes the token out of an authorization header, where the header has the
/// form `Bearer <token>`.
pub fn bearer_token(header: &str) -> (token: Option<&str>)
    ensures
        token is Some <==> bearer_token_of(header@) is Some,
        token is Some ==> token.unwrap()@ == bearer_token_of(header@).unwrap(),
{
    let len = header.unicode_len();
    let scheme_end = word_end(header, 0, len);
    assert(header@.skip(0) =~= header@);
    let scheme = header.substring_char(0, scheme_end);
    if !same_text(scheme, "Bearer") || scheme_end == len {
        return None;
    }
    let start = scheme_end + 1;
    let end = word_end(header, start, len);
    let token = header.substring_char(start, end);
    proof {
        let rest = header@.skip(start as int);
        assert(rest.take(word_len(rest)) =~= header@.subrange(start as int, end as int));
    }
    Some(token)
}

/// The claim set that a token carries, where its signature is valid under
/// the secret and its payload is a claim set. Expiry is not looked at.
pub open spec fn verified_claims(token: Seq<char>, secret: Seq<char>) -> Option<ClaimsView> {
    match jwt_verified(token, secret) {
        Some(fields) => claims_of(fields),
        None => None,
    }
}

/// Whether a claim set is still valid at a time: its expiry lies ahead.
pub open spec fn is_fresh(claim: ClaimsView, now: u64) -> bool {
    claim.exp > now
}

/// What the guard decides once a token has been decoded: a rejected token
/// is forbidden, a stale one is unauthenticated, one that the policy does
/// not admit is forbidden, and any other is admitted.
pub open spec fn claim_outcome<T: Authorize>(claim: Option<ClaimsView>, now: u64) -> Result<
    ClaimsView,
    ErrorKind,
> {
    match claim {
        None => Err(ErrorKind::Forbidden),
        Some(c) => if !is_fresh(c, now) {
            Err(ErrorKind::Unauthenticated)
        } else if !T::admits(c) {
            Err(ErrorKind::Forbidden)
        } else {
            Ok(c)
        },
    }
}

/// What the guard finds in a request before it looks at the clock, each
/// step in its order: no header is unauthenticated, a header of another
/// form is malformed, a missing secret is a server fault; otherwise the
/// claim set that the token carries, or none where the token is rejected.
pub open spec fn request_claim(header: Option<Seq<char>>, secret: Option<Seq<char>>) -> Result<
    Option<ClaimsView>,
    ErrorKind,
> {
    match header {
        None => Err(ErrorKind::Unauthenticated),
        Some(h) => match bearer_token_of(h) {
            None => Err(ErrorKind::MalformedRequest),
            Some(token) => match secret {
                None => Err(ErrorKind::ServerFault),
                Some(s) => Ok(verified_claims(token, s)),
            },
        },
    }
}

/// What the guard decides for a request at a time: what [`request_claim`]
/// refuses is refused so, and the rest is [`claim_outcome`].
pub open spec fn guard_outcome<T: Authorize>(
    header: Option<Seq<char>>,
    secret: Option<Seq<char>>,
    now: u64,
) -> Result<ClaimsView, ErrorKind> {
    match request_claim(header, secret) {
        Err(kind) => Err(kind),
        Ok(claim) => claim_outcome::<T>(claim, now),
    }
}

/// The view of an optional header.
pub open spec fn header_view(header: Option<&str>) -> Option<Seq<char>> {
    match header {
        Some(h) => Some(h@),
        None => None,
    }
}

/// The view of an optional secret.
pub open spec fn secret_view(secret: Option<&SecretKeyWrapper>) -> Option<Seq<char>> {
    match secret {
        Some(s) => Some(s.key@),
        None => None,
    }
}

/// The verified identity of a caller whom the policy `T` admitted.
pub struct AuthorizeToken<T: Authorize> {
    pub token_type: PhantomData<T>,
    pub claim: UserAuthClaimsModel,
}

impl<T: Authorize> View for AuthorizeToken<T> {
    type V = ClaimsView;

    /// The claim set of the admitted caller.
    open spec fn view(&self) -> ClaimsView {
        self.claim@
    }
}

/// The view of what the guard returned.
pub open spec fn admitted<T: Authorize>(outcome: Result<AuthorizeToken<T>, ErrorKind>) -> Result<
    ClaimsView,
    ErrorKind,
> {
    match outcome {
        Ok(token) => Ok(token@),
        Err(kind) => Err(kind),
    }
}

/// Decodes a token under a secret and reads its claim set.
pub fn decode_claim(token: &str, secret: &str) -> (claim: Option<UserAuthClaimsModel>)
    ensures
        claim_view(claim) == verified_claims(token@, secret@),
{
    match verify(token, secret) {
        Some(payload) => UserAuthClaimsModel::from_payload(&payload),
        None => None,
    }
}

/// The first steps of the guard, which need no clock: the header, the
/// secret, and the token's signature.
fn read_claim(header: Option<&str>, secret: Option<&SecretKeyWrapper>) -> (found: Result<
    Option<UserAuthClaimsModel>,
    ErrorKind,
>)
    ensures
        match request_claim(header_view(header), secret_view(secret)) {
            Err(kind) => found matches Err(refusal) && refusal == kind,
            Ok(claim) => found matches Ok(decoded) && claim_view(decoded) == claim,
        },
{
    let token = match header {
        None => {
            return Err(ErrorKind::Unauthenticated);
        },
        Some(header) => match bearer_token(header) {
            None => {
                return Err(ErrorKind::MalformedRequest);
            },
            Some(token) => token,
        },
    };
    let secret = match secret {
        None => {
            return Err(ErrorKind::ServerFault);
        },
        Some(secret) => secret,
    };
    Ok(decode_claim(token, secret.key.as_str()))
}

impl<T: Authorize> AuthorizeToken<T> {
    /// The last steps of the guard, on a token that has been decoded, or
    /// rejected (`None`): expiry first, then the policy.
    pub fn check_claim(claim: Option<UserAuthClaimsModel>, now: u64) -> (outcome: Result<
        Self,
        ErrorKind,
    >)
        ensures
            admitted(outcome) == claim_outcome::<T>(claim_view(claim), now),
    {
        match claim {
            None => Err(ErrorKind::Forbidden),
            Some(claim) => {
                if claim.exp <= now {
                    Err(ErrorKind::Unauthenticated)
                } else if !T::authorize(&claim) {
                    Err(ErrorKind::Forbidden)
                } else {
                    Ok(AuthorizeToken { token_type: PhantomData, claim })
                }
            },
        }
    }

    /// The guard at a given time: the authorization header as the request
    /// carried it, if it carried one, and the secret, if one is configured.
    pub fn admit_at(header: Option<&str>, secret: Option<&SecretKeyWrapper>, now: u64) -> (outcome:
        Result<Self, ErrorKind>)
        ensures
            admitted(outcome) == guard_outcome::<T>(header_view(header), secret_view(secret), now),
    {
        match read_claim(header, secret) {
            Err(kind) => Err(kind),
            Ok(claim) => Self::check_claim(claim, now),
        }
    }

    /// The guard, at the time the clock reads once the token has been
    /// decoded; a request that is refused before that never reads the
    /// clock. The outcome is that of [`Self::admit_at`] for some time.
    pub fn from_request(header: Option<&str>, secret: Option<&SecretKeyWrapper>) -> (outcome:
        Result<Self, ErrorKind>)
        ensures
            exists|now: u64|
                admitted(outcome) == guard_outcome::<T>(
                    header_view(header),
                    secret_view(secret),
                    now,
                ),
    {
        let outcome = match read_claim(header, secret) {
            Err(kind) => Err(kind),
            Ok(None) => Err(ErrorKind::Forbidden),
            Ok(Some(claim)) => {
                let now = current_timestamp();
                let outcome = Self::check_claim(Some(claim), now);
                assert(admitted(outcome) == guard_outcome::<T>(
                    header_view(header),
                    secret_view(secret),
                    now,
                ));
                return outcome;
            },
        };
        assert(admitted(outcome) == guard_outcome::<T>(
            header_view(header),
            secret_view(secret),
            0,
        ));
        outcome
    }
}

/// The authorization header that carries a token.
pub open spec fn bearer_header(token: Seq<char>) -> Seq<char> {
    "Bearer "@ + token
}

/// A token without a space is read back from the header that carries it.
pub proof fn lemma_bearer_header(token: Seq<char>)
    requires
        has_no_space(token),
    ensures
        bearer_token_of(bearer_header(token)) == Some(token),
{
    reveal_strlit("Bearer ");
    reveal_strlit("Bearer");
    let header = bearer_header(token);
    assert(header[6] == ' ');
    lemma_word_len_is(header, 6);
    assert(header.take(6) =~= "Bearer"@);
    let rest = header.skip(7);
    assert(rest =~= token);
    lemma_word_len_is(token, token.len() as int);
    assert(token.take(token.len() as int) =~= token);
}

/// The guard admits a request exactly when every step lets it pass: the
/// header carries a bearer token, a secret is configured, the token
/// verifies under it to a claim set, the claim set has not expired, and
/// the policy admits it. The caller's identity is then that claim set.
pub proof fn lemma_admitted_exactly<T: Authorize>(
    header: Option<Seq<char>>,
    secret: Option<Seq<char>>,
    now: u64,
    claim: ClaimsView,
)
    ensures
        guard_outcome::<T>(header, secret, now) == Ok::<ClaimsView, ErrorKind>(claim) <==> {
            &&& header is Some
            &&& bearer_token_of(header.unwrap()) is Some
            &&& secret is Some
            &&& verified_claims(bearer_token_of(header.unwrap()).unwrap(), secret.unwrap())
                == Some(claim)
            &&& is_fresh(claim, now)
            &&& T::admits(claim)
        },
{
}

/// A token that verifies and has not expired, sent as a bearer header, is
/// admitted exactly if the policy admits its claim set, and is forbidden
/// otherwise.
pub proof fn lemma_fresh_token_outcome<T: Authorize>(
    token: Seq<char>,
    secret: Seq<char>,
    claim: ClaimsView,
    now: u64,
)
    requires
        has_no_space(token),
        verified_claims(token, secret) == Some(claim),
        is_fresh(claim, now),
    ensures
        guard_outcome::<T>(Some(bearer_header(token)), Some(secret), now) == (if T::admits(claim) {
            Ok::<ClaimsView, ErrorKind>(claim)
        } else {
            Err::<ClaimsView, ErrorKind>(ErrorKind::Forbidden)
        }),
{
    lemma_bearer_header(token);
}

/// A token that verifies but whose expiry is not ahead of the clock is
/// unauthenticated, whatever the policy and whatever the claim set grants.
pub proof fn lemma_stale_token_unauthenticated<T: Authorize>(
    header: Seq<char>,
    token: Seq<char>,
    secret: Seq<char>,
    claim: ClaimsView,
    now: u64,
)
    requires
        bearer_token_of(header) == Some(token),
        verified_claims(token, secret) == Some(claim),
        claim.exp <= now,
    ensures
        guard_outcome::<T>(Some(header), Some(secret), now) == Err::<ClaimsView, ErrorKind>(
            ErrorKind::Unauthenticated,
        ),
{
}

/// A token that does not verify under the configured secret is forbidden,
/// whatever the policy and the time.
pub proof fn lemma_rejected_token_forbidden<T: Authorize>(
    header: Seq<char>,
    token: Seq<char>,
    secret: Seq<char>,
    now: u64,
)
    requires
        bearer_token_of(header) == Some(token),
        verified_claims(token, secret) is None,
    ensures
        guard_outcome::<T>(Some(header), Some(secret), now) == Err::<ClaimsView, ErrorKind>(
            ErrorKind::Forbidden,
        ),
{
}

/// The owner may change a resource at any permission level, an
/// administrator may change any resource, and nobody else may.
pub proof fn lemma_ownership_rule(owner: Seq<char>, claim: ClaimsView)
    ensures
        owner == claim.name ==> may_mutate(owner, claim),
        claim.permissions == UserPermissionLevel::Admin ==> may_mutate(owner, claim),
        owner != claim.name && claim.permissions == UserPermissionLevel::User ==> !may_mutate(
            owner,
            claim,
        ),
{
}

/// The ownership rule: a resource may be changed by the account it belongs
/// to, and by any administrator.
pub open spec fn may_mutate(owner: Seq<char>, claim: ClaimsView) -> bool {
    owner == claim.name || claim.permissions == UserPermissionLevel::Admin
}

/// Decides the ownership rule for a resource's owner, by name, and a caller.
pub fn can_mutate(owner: &str, claim: &UserAuthClaimsModel) -> (allowed: bool)
    ensures
        allowed == may_mutate(owner@, claim@),
{
    same_text(owner, claim.name.as_str()) || claim.permissions == UserPermissionLevel::Admin
}

/// The message for a refused change.
pub open spec fn modify_denied() -> Seq<char> {
    "You don't have permission to modify this resource."@
}

/// The message for a refused removal.
pub open spec fn delete_denied() -> Seq<char> {
    "You don't have permission to delete this resource."@
}

/// What the ownership rule comes to for a mutating request: leave to go
/// on, or forbidden, with a message that names what was refused.
pub open spec fn ownership_outcome(owner: Seq<char>, claim: ClaimsView, denial: Seq<char>) -> Result<
    (),
    ApiErrorView,
> {
    if may_mutate(owner, claim) {
        Ok(())
    } else {
        Err(ApiErrorView { kind: ErrorKind::Forbidden, message: denial })
    }
}

/// Applies the ownership rule to a mutating request.
pub fn check_owner(owner: &str, claim: &UserAuthClaimsModel, denial: &str) -> (outcome: Result<
    (),
    ApiError,
>)
    ensures
        match ownership_outcome(owner@, claim@, denial@) {
            Ok(()) => outcome is Ok,
            Err(refusal) => outcome matches Err(failure) && failure@ == refusal,
        },
{
    if can_mutate(owner, claim) {
        Ok(())
    } else {
        Err(ApiError::new(ErrorKind::Forbidden, denial))
    }
}

} // verus!
