use mongodb::bson::oid::ObjectId;
use rkblog::errors::ErrorKind;
use rkblog::middlewares::auth::{
    bearer_token, can_mutate, decode_claim, AdminPermissionAuthorization, Authorize,
    AuthorizeToken, SecretKeyWrapper, UserAuthorization,
};
use rkblog::models::user::{UserAuthClaimsModel, UserPermissionLevel, UserStoreModel, UserWriteModel};
use rkblog::routes::auth::{claims_at, issue_at, sign_claim};

fn secret(text: &str) -> SecretKeyWrapper {
    SecretKeyWrapper { key: text.to_string() }
}

fn account(name: &str, password: &str, permissions: UserPermissionLevel) -> UserStoreModel {
    UserStoreModel::from(
        UserWriteModel {
            name: name.to_string(),
            password: password.to_string(),
            permissions,
            bio: String::new(),
        },
        ObjectId::parse_str("507f1f77bcf86cd799439011").unwrap(),
    )
}

fn claim(name: &str, permissions: UserPermissionLevel, exp: u64) -> UserAuthClaimsModel {
    UserAuthClaimsModel {
        exp,
        _id: "507f1f77bcf86cd799439011".to_string(),
        name: name.to_string(),
        permissions,
    }
}

fn kind_of<T: Authorize>(outcome: Result<AuthorizeToken<T>, ErrorKind>) -> Option<ErrorKind> {
    match outcome {
        Ok(_) => None,
        Err(kind) => Some(kind),
    }
}

#[test]
fn bearer_header_yields_its_token() {
    assert_eq!(bearer_token("Bearer abc.def.ghi"), Some("abc.def.ghi"));
}

#[test]
fn wrong_scheme_is_no_bearer_token() {
    assert_eq!(bearer_token("Token xyz"), None);
    assert_eq!(bearer_token("bearer xyz"), None);
    assert_eq!(bearer_token("Bearerxyz"), None);
}

#[test]
fn scheme_without_token_is_no_bearer_token() {
    assert_eq!(bearer_token("Bearer"), None);
    assert_eq!(bearer_token(""), None);
}

#[test]
fn token_is_the_second_piece_only() {
    assert_eq!(bearer_token("Bearer abc def"), Some("abc"));
    assert_eq!(bearer_token("Bearer "), Some(""));
    assert_eq!(bearer_token("Bearer  abc"), Some(""));
}

#[test]
fn missing_header_is_unauthenticated() {
    let key = secret("s3cret");
    let outcome = AuthorizeToken::<UserAuthorization>::admit_at(None, Some(&key), 100);
    assert_eq!(kind_of(outcome), Some(ErrorKind::Unauthenticated));
}

#[test]
fn wrong_scheme_is_malformed() {
    let key = secret("s3cret");
    let outcome = AuthorizeToken::<UserAuthorization>::admit_at(Some("Token xyz"), Some(&key), 100);
    assert_eq!(kind_of(outcome), Some(ErrorKind::MalformedRequest));
}

#[test]
fn malformed_header_is_reported_before_a_missing_secret() {
    let outcome = AuthorizeToken::<UserAuthorization>::admit_at(Some("Token xyz"), None, 100);
    assert_eq!(kind_of(outcome), Some(ErrorKind::MalformedRequest));
}

#[test]
fn missing_secret_is_a_server_fault() {
    let outcome = AuthorizeToken::<UserAuthorization>::admit_at(Some("Bearer abc"), None, 100);
    assert_eq!(kind_of(outcome), Some(ErrorKind::ServerFault));
}

#[test]
fn garbage_token_is_forbidden() {
    let key = secret("s3cret");
    let outcome =
        AuthorizeToken::<UserAuthorization>::admit_at(Some("Bearer not-a-token"), Some(&key), 100);
    assert_eq!(kind_of(outcome), Some(ErrorKind::Forbidden));
}

#[test]
fn issued_token_is_admitted_while_fresh() {
    let key = secret("s3cret");
    let bob = account("bob", "pw", UserPermissionLevel::User);
    let issued = issue_at(&bob, &key, 1_000).unwrap();
    let header = format!("Bearer {}", issued.token);
    let admitted =
        AuthorizeToken::<UserAuthorization>::admit_at(Some(&header), Some(&key), 1_000).unwrap();
    assert_eq!(admitted.claim.exp, 4_600);
    assert_eq!(admitted.claim.name, "bob");
    assert_eq!(admitted.claim._id, "507f1f77bcf86cd799439011");
    assert!(admitted.claim.permissions == UserPermissionLevel::User);
    let last = AuthorizeToken::<UserAuthorization>::admit_at(Some(&header), Some(&key), 4_599);
    assert!(last.is_ok());
}

#[test]
fn issued_token_is_the_one_its_inputs_determine() {
    let key = secret("s3cret");
    let bob = account("bob", "pw", UserPermissionLevel::User);
    let issued = issue_at(&bob, &key, 1_000).unwrap();
    assert_eq!(
        issued.token,
        "eyJ0eXAiOiJKV1QiLCJhbGciOiJIUzI1NiJ9.\
         eyJleHAiOjQ2MDAsIl9pZCI6IjUwN2YxZjc3YmNmODZjZDc5OTQzOTAxMSIsIm5hbWUiOiJib2IiLCJwZXJtaXNzaW9ucyI6IlVzZXIifQ.\
         VVrPU7HF6EGK-IC7f779oVjvN4sgokRJXQXZERbynfE"
    );
}

#[test]
fn issuing_twice_gives_the_same_token() {
    let key = secret("s3cret");
    let bob = account("bob", "pw", UserPermissionLevel::User);
    let first = issue_at(&bob, &key, 1_000).unwrap().token;
    let second = issue_at(&bob, &key, 1_000).unwrap().token;
    assert_eq!(first, second);
    let later = issue_at(&bob, &key, 1_001).unwrap().token;
    assert_ne!(first, later);
    let other_key = issue_at(&bob, &secret("another"), 1_000).unwrap().token;
    assert_ne!(first, other_key);
    let carol = account("carol", "pw", UserPermissionLevel::User);
    assert_ne!(first, issue_at(&carol, &key, 1_000).unwrap().token);
}

#[test]
fn signing_never_fails_and_the_token_holds_no_space() {
    for text in ["", "k", "a secret with spaces", "\u{e9}\u{1f600}"] {
        let signed = sign_claim(&claim("a b c", UserPermissionLevel::Admin, 0), &secret(text));
        let token = signed.unwrap();
        assert!(!token.contains(' '));
        assert_eq!(token.split('.').count(), 3);
        assert_eq!(decode_claim(&token, text).unwrap().name, "a b c");
    }
}

#[test]
fn rejected_token_is_forbidden_without_a_look_at_the_clock() {
    let key = secret("s3cret");
    let outcome =
        AuthorizeToken::<UserAuthorization>::from_request(Some("Bearer a.b.c"), Some(&key));
    assert_eq!(kind_of(outcome), Some(ErrorKind::Forbidden));
    let outcome = AuthorizeToken::<UserAuthorization>::from_request(Some("Basic abc"), Some(&key));
    assert_eq!(kind_of(outcome), Some(ErrorKind::MalformedRequest));
    let outcome = AuthorizeToken::<UserAuthorization>::from_request(Some("Bearer abc"), None);
    assert_eq!(kind_of(outcome), Some(ErrorKind::ServerFault));
}

#[test]
fn user_token_is_forbidden_where_admin_is_required() {
    let key = secret("s3cret");
    let bob = account("bob", "pw", UserPermissionLevel::User);
    let issued = issue_at(&bob, &key, 1_000).unwrap();
    let header = format!("Bearer {}", issued.token);
    let outcome =
        AuthorizeToken::<AdminPermissionAuthorization>::admit_at(Some(&header), Some(&key), 1_000);
    assert_eq!(kind_of(outcome), Some(ErrorKind::Forbidden));
}

#[test]
fn admin_token_is_admitted_where_admin_is_required() {
    let key = secret("s3cret");
    let root = account("root", "pw", UserPermissionLevel::Admin);
    let issued = issue_at(&root, &key, 1_000).unwrap();
    let header = format!("Bearer {}", issued.token);
    let outcome =
        AuthorizeToken::<AdminPermissionAuthorization>::admit_at(Some(&header), Some(&key), 1_000);
    assert!(outcome.is_ok());
}

#[test]
fn token_expired_a_second_ago_is_unauthenticated() {
    let key = secret("s3cret");
    let now = 50_000;
    let stale = sign_claim(&claim("bob", UserPermissionLevel::User, now - 1), &key).unwrap();
    let header = format!("Bearer {}", stale);
    let outcome = AuthorizeToken::<UserAuthorization>::admit_at(Some(&header), Some(&key), now);
    assert_eq!(kind_of(outcome), Some(ErrorKind::Unauthenticated));
    let outcome =
        AuthorizeToken::<AdminPermissionAuthorization>::admit_at(Some(&header), Some(&key), now);
    assert_eq!(kind_of(outcome), Some(ErrorKind::Unauthenticated));
}

#[test]
fn token_expiring_now_is_unauthenticated() {
    let key = secret("s3cret");
    let edge = sign_claim(&claim("bob", UserPermissionLevel::User, 50_000), &key).unwrap();
    let header = format!("Bearer {}", edge);
    let outcome = AuthorizeToken::<UserAuthorization>::admit_at(Some(&header), Some(&key), 50_000);
    assert_eq!(kind_of(outcome), Some(ErrorKind::Unauthenticated));
}

#[test]
fn long_expired_token_is_unauthenticated() {
    let key = secret("s3cret");
    let stale = sign_claim(&claim("bob", UserPermissionLevel::User, 10), &key).unwrap();
    let header = format!("Bearer {}", stale);
    let outcome = AuthorizeToken::<UserAuthorization>::from_request(Some(&header), Some(&key));
    assert_eq!(kind_of(outcome), Some(ErrorKind::Unauthenticated));
}

#[test]
fn token_signed_with_another_secret_is_forbidden() {
    let issuer = secret("one secret");
    let verifier = secret("another secret");
    let bob = account("bob", "pw", UserPermissionLevel::User);
    let issued = issue_at(&bob, &issuer, 1_000).unwrap();
    let header = format!("Bearer {}", issued.token);
    let outcome = AuthorizeToken::<UserAuthorization>::admit_at(Some(&header), Some(&verifier), 1_000);
    assert_eq!(kind_of(outcome), Some(ErrorKind::Forbidden));
    assert!(decode_claim(&issued.token, "another secret").is_none());
}

#[test]
fn expired_token_with_a_bad_signature_is_forbidden() {
    let issuer = secret("one secret");
    let verifier = secret("another secret");
    let stale = sign_claim(&claim("bob", UserPermissionLevel::User, 10), &issuer).unwrap();
    let header = format!("Bearer {}", stale);
    let outcome = AuthorizeToken::<UserAuthorization>::admit_at(Some(&header), Some(&verifier), 1_000);
    assert_eq!(kind_of(outcome), Some(ErrorKind::Forbidden));
}

#[test]
fn decoded_claim_is_the_signed_one() {
    let key = secret("s3cret");
    let signed = sign_claim(&claim("alice \"q\" \u{e9}", UserPermissionLevel::Admin, u64::MAX), &key)
        .unwrap();
    let back = decode_claim(&signed, "s3cret").unwrap();
    assert_eq!(back.exp, u64::MAX);
    assert_eq!(back._id, "507f1f77bcf86cd799439011");
    assert_eq!(back.name, "alice \"q\" \u{e9}");
    assert!(back.permissions == UserPermissionLevel::Admin);
}

#[test]
fn claims_snapshot_the_account() {
    let carol = account("carol", "pw", UserPermissionLevel::Admin);
    let issued = claims_at(&carol, 7);
    assert_eq!(issued.exp, 3_607);
    assert_eq!(issued._id, "507f1f77bcf86cd799439011");
    assert_eq!(issued.name, "carol");
    assert!(issued.permissions == UserPermissionLevel::Admin);
}

#[test]
fn check_claim_orders_expiry_before_policy() {
    let stale = claim("bob", UserPermissionLevel::User, 5);
    let outcome = AuthorizeToken::<AdminPermissionAuthorization>::check_claim(Some(stale), 6);
    assert_eq!(kind_of(outcome), Some(ErrorKind::Unauthenticated));
    let fresh = claim("bob", UserPermissionLevel::User, 7);
    let outcome = AuthorizeToken::<AdminPermissionAuthorization>::check_claim(Some(fresh), 6);
    assert_eq!(kind_of(outcome), Some(ErrorKind::Forbidden));
    let outcome = AuthorizeToken::<UserAuthorization>::check_claim(None, 6);
    assert_eq!(kind_of(outcome), Some(ErrorKind::Forbidden));
}

#[test]
fn owner_may_mutate_at_any_level() {
    assert!(can_mutate("alice", &claim("alice", UserPermissionLevel::User, 1)));
    assert!(can_mutate("alice", &claim("alice", UserPermissionLevel::Admin, 1)));
}

#[test]
fn stranger_may_not_mutate_unless_admin() {
    assert!(!can_mutate("alice", &claim("bob", UserPermissionLevel::User, 1)));
    assert!(can_mutate("alice", &claim("bob", UserPermissionLevel::Admin, 1)));
}

#[test]
fn policies_decide_by_permission_level() {
    let user = claim("bob", UserPermissionLevel::User, 1);
    let admin = claim("root", UserPermissionLevel::Admin, 1);
    assert!(UserAuthorization::authorize(&user));
    assert!(UserAuthorization::authorize(&admin));
    assert!(!AdminPermissionAuthorization::authorize(&user));
    assert!(AdminPermissionAuthorization::authorize(&admin));
}
