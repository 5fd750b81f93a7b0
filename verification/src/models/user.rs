//! Accounts: what is stored, what is accepted from clients and what is shown.

use vstd::prelude::*;
use mongodb::bson::oid::ObjectId;
use serde_json::{Map as JsonMap, Value};
use crate::digest::{digest, sha256_hex};
use crate::jwt::{
    empty_payload, is_plain, is_reserved_key, is_signable, json_fields, json_keys, jwt_signed, number_at,
    number_field, put_number, put_text, text_at, text_field, JsonField,
};
use crate::oid::{fresh_id, hex_text, id_hex, object_id_bytes};

verus! {

/// The two privilege tiers an account can hold.
#[derive(Clone, Copy, Debug, PartialEq, Eq, Structural)]
pub enum UserPermissionLevel {
    User,
    Admin,
}

impl UserPermissionLevel {
    /// The text that stands for a level inside a token.
    pub open spec fn wire_name(self) -> Seq<char> {
        match self {
            UserPermissionLevel::User => "User"@,
            UserPermissionLevel::Admin => "Admin"@,
        }
    }

    /// The level that a text inside a token stands for, if any.
    pub open spec fn from_wire_name(text: Seq<char>) -> Option<UserPermissionLevel> {
        if text == "User"@ {
            Some(UserPermissionLevel::User)
        } else if text == "Admin"@ {
            Some(UserPermissionLevel::Admin)
        } else {
            None
        }
    }

    /// The text that stands for this level inside a token.
    pub fn name(self) -> (text: &'static str)
        ensures
            text@ == self.wire_name(),
    {
        match self {
            UserPermissionLevel::User => "User",
            UserPermissionLevel::Admin => "Admin",
        }
    }

    /// Reads a level from its text; any other text is no level.
    pub fn parse(text: &str) -> (level: Option<UserPermissionLevel>)
        ensures
            level == Self::from_wire_name(text@),
    {
        let given = text.to_owned();
        if given == "User".to_owned() {
            Some(UserPermissionLevel::User)
        } else if given == "Admin".to_owned() {
            Some(UserPermissionLevel::Admin)
        } else {
            None
        }
    }

    /// Every level is read back from its own text.
    pub proof fn lemma_name_round_trip(level: UserPermissionLevel)
        ensures
            Self::from_wire_name(level.wire_name()) == Some(level),
    {
        reveal_strlit("User");
        reveal_strlit("Admin");
        assert("User"@.len() != "Admin"@.len());
    }
}

/// An account as a client writes it: the password is still plain text.
pub struct UserWriteModel {
    pub name: String,
    pub password: String,
    pub permissions: UserPermissionLevel,
    pub bio: String,
}

/// An account as the store keeps it.
pub struct UserStoreModel {
    pub _id: ObjectId,
    pub name: String,
    pub password_hash: String,
    pub permissions: UserPermissionLevel,
    pub bio: String,
}

/// The short public form of an account.
pub struct UserReadBriefModel {
    pub _id: String,
    pub name: String,
    pub permissions: UserPermissionLevel,
}

/// The full public form of an account. It never holds the password digest.
pub struct UserReadFullModel {
    pub _id: String,
    pub name: String,
    pub permissions: UserPermissionLevel,
    pub bio: String,
}

/// The credentials a client presents to obtain a token.
pub struct UserAuthModel {
    pub name: String,
    pub password: String,
}

/// The answer to a successful login.
pub struct UserAuthResponseModel {
    pub token: String,
}

/// The claim set carried inside a token: a snapshot of an account's
/// identity, valid until `exp` (seconds since the epoch).
pub struct UserAuthClaimsModel {
    pub exp: u64,
    pub _id: String,
    pub name: String,
    pub permissions: UserPermissionLevel,
}

/// What a [`UserWriteModel`] holds, as mathematical values.
pub ghost struct UserWriteView {
    pub name: Seq<char>,
    pub password: Seq<char>,
    pub permissions: UserPermissionLevel,
    pub bio: Seq<char>,
}

/// What a [`UserStoreModel`] holds, as mathematical values.
pub ghost struct UserStoreView {
    pub id: ObjectId,
    pub name: Seq<char>,
    pub password_hash: Seq<char>,
    pub permissions: UserPermissionLevel,
    pub bio: Seq<char>,
}

/// What a [`UserReadBriefModel`] holds, as mathematical values.
pub ghost struct UserReadBriefView {
    pub id: Seq<char>,
    pub name: Seq<char>,
    pub permissions: UserPermissionLevel,
}

/// What a [`UserReadFullModel`] holds, as mathematical values.
pub ghost struct UserReadFullView {
    pub id: Seq<char>,
    pub name: Seq<char>,
    pub permissions: UserPermissionLevel,
    pub bio: Seq<char>,
}

/// What a [`UserAuthClaimsModel`] holds, as mathematical values.
pub ghost struct ClaimsView {
    pub exp: u64,
    pub id: Seq<char>,
    pub name: Seq<char>,
    pub permissions: UserPermissionLevel,
}

impl View for UserWriteModel {
    type V = UserWriteView;

    open spec fn view(&self) -> UserWriteView {
        UserWriteView {
            name: self.name@,
            password: self.password@,
            permissions: self.permissions,
            bio: self.bio@,
        }
    }
}

impl View for UserStoreModel {
    type V = UserStoreView;

    open spec fn view(&self) -> UserStoreView {
        UserStoreView {
            id: self._id,
            name: self.name@,
            password_hash: self.password_hash@,
            permissions: self.permissions,
            bio: self.bio@,
        }
    }
}

impl View for UserReadBriefModel {
    type V = UserReadBriefView;

    open spec fn view(&self) -> UserReadBriefView {
        UserReadBriefView { id: self._id@, name: self.name@, permissions: self.permissions }
    }
}

impl View for UserReadFullModel {
    type V = UserReadFullView;

    open spec fn view(&self) -> UserReadFullView {
        UserReadFullView {
            id: self._id@,
            name: self.name@,
            permissions: self.permissions,
            bio: self.bio@,
        }
    }
}

impl View for UserAuthClaimsModel {
    type V = ClaimsView;

    open spec fn view(&self) -> ClaimsView {
        ClaimsView {
            exp: self.exp,
            id: self._id@,
            name: self.name@,
            permissions: self.permissions,
        }
    }
}

/// The payload that carries a claim set inside a token: `exp` as a number,
/// `_id`, `name` and `permissions` as strings.
pub open spec fn claim_fields(claim: ClaimsView) -> Map<Seq<char>, JsonField> {
    Map::empty().insert("exp"@, JsonField::Number(claim.exp)).insert(
        "_id"@,
        JsonField::Text(claim.id),
    ).insert("name"@, JsonField::Text(claim.name)).insert(
        "permissions"@,
        JsonField::Text(claim.permissions.wire_name()),
    )
}

/// The order in which a claim set's members stand in a token's payload.
pub open spec fn claim_keys() -> Seq<Seq<char>> {
    seq!["exp"@, "_id"@, "name"@, "permissions"@]
}

/// The token that carries a claim set under a secret.
pub open spec fn token_text(claim: ClaimsView, secret: Seq<char>) -> Seq<char> {
    jwt_signed(claim_keys(), claim_fields(claim), secret)
}

/// The claim set made of the four values read from a payload: all four must
/// be there, and the permission text must name a level.
pub open spec fn claims_from_parts(
    exp: Option<u64>,
    id: Option<Seq<char>>,
    name: Option<Seq<char>>,
    permissions: Option<Seq<char>>,
) -> Option<ClaimsView> {
    if exp is Some && id is Some && name is Some && permissions is Some
        && UserPermissionLevel::from_wire_name(permissions.unwrap()) is Some {
        Some(
            ClaimsView {
                exp: exp.unwrap(),
                id: id.unwrap(),
                name: name.unwrap(),
                permissions: UserPermissionLevel::from_wire_name(permissions.unwrap()).unwrap(),
            },
        )
    } else {
        None
    }
}

/// The claim set that a payload carries, if it is one. Members beyond the
/// four are ignored.
pub open spec fn claims_of(fields: Map<Seq<char>, JsonField>) -> Option<ClaimsView> {
    claims_from_parts(
        number_field(fields, "exp"@),
        text_field(fields, "_id"@),
        text_field(fields, "name"@),
        text_field(fields, "permissions"@),
    )
}

/// The view of an optional text.
pub open spec fn text_view(text: Option<String>) -> Option<Seq<char>> {
    match text {
        Some(t) => Some(t@),
        None => None,
    }
}

/// The view of an optional claim set.
pub open spec fn claim_view(claim: Option<UserAuthClaimsModel>) -> Option<ClaimsView> {
    match claim {
        Some(c) => Some(c@),
        None => None,
    }
}

/// A claim set is read back unchanged from the payload that carries it, and
/// that payload can be signed.
pub proof fn lemma_claim_round_trip(claim: ClaimsView)
    ensures
        claims_of(claim_fields(claim)) == Some(claim),
        is_signable(claim_fields(claim)),
{
    reveal_strlit("exp");
    reveal_strlit("_id");
    reveal_strlit("name");
    reveal_strlit("permissions");
    reveal_strlit("nbf");
    reveal_strlit("sub");
    reveal_strlit("iss");
    reveal_strlit("aud");
    let fields = claim_fields(claim);
    assert("exp"@[0] == 'e' && "_id"@[0] == '_' && "name"@[0] == 'n' && "permissions"@[0] == 'p');
    assert("nbf"@[1] == 'b' && "name"@[1] == 'a');
    assert("sub"@[0] == 's' && "iss"@[0] == 'i' && "aud"@[0] == 'a');
    UserPermissionLevel::lemma_name_round_trip(claim.permissions);
    assert(fields.dom().contains("exp"@));
    assert(fields["exp"@] == JsonField::Number(claim.exp));
    assert(fields["_id"@] == JsonField::Text(claim.id));
    assert(fields["name"@] == JsonField::Text(claim.name));
    assert(fields["permissions"@] == JsonField::Text(claim.permissions.wire_name()));
    assert forall|key: Seq<char>| #[trigger] fields.dom().contains(key) implies !(fields[key] is Other)
        && !is_reserved_key(key) by {
        assert(key == "exp"@ || key == "_id"@ || key == "name"@ || key == "permissions"@);
    }
    assert(is_plain(fields));
}

impl UserAuthClaimsModel {
    /// The claim set made of the four values read from a token's payload,
    /// where all four are there and the permission text names a level.
    pub fn from_parts(
        exp: Option<u64>,
        id: Option<String>,
        name: Option<String>,
        permissions: Option<String>,
    ) -> (claim: Option<Self>)
        ensures
            claim_view(claim) == claims_from_parts(
                exp,
                text_view(id),
                text_view(name),
                text_view(permissions),
            ),
    {
        match (exp, id, name, permissions) {
            (Some(exp), Some(_id), Some(name), Some(level_name)) => {
                match UserPermissionLevel::parse(level_name.as_str()) {
                    Some(permissions) => Some(UserAuthClaimsModel { exp, _id, name, permissions }),
                    None => None,
                }
            },
            _ => None,
        }
    }

    /// Reads a claim set from a token's payload.
    pub(crate) fn from_payload(payload: &JsonMap<String, Value>) -> (claim: Option<Self>)
        ensures
            claim_view(claim) == claims_of(json_fields(*payload)),
    {
        let exp = number_at(payload, "exp");
        let id = text_at(payload, "_id");
        let name = text_at(payload, "name");
        let permissions = text_at(payload, "permissions");
        Self::from_parts(exp, id, name, permissions)
    }

    /// Writes this claim set as a token's payload, its members in the
    /// order of [`claim_keys`].
    pub(crate) fn to_payload(&self) -> (payload: JsonMap<String, Value>)
        ensures
            json_fields(payload) == claim_fields(self@),
            json_keys(payload) == claim_keys(),
    {
        proof {
            reveal_strlit("exp");
            reveal_strlit("_id");
            reveal_strlit("name");
            reveal_strlit("permissions");
            assert("exp"@[0] == 'e' && "_id"@[0] == '_' && "name"@[0] == 'n' && "permissions"@[0]
                == 'p');
        }
        let mut payload = empty_payload();
        put_number(&mut payload, "exp", self.exp);
        put_text(&mut payload, "_id", self._id.as_str());
        put_text(&mut payload, "name", self.name.as_str());
        put_text(&mut payload, "permissions", self.permissions.name());
        assert(json_keys(payload) =~= claim_keys());
        payload
    }
}

/// Whether a password is the one whose digest is stored.
pub open spec fn password_matches(password: Seq<char>, stored_digest: Seq<char>) -> bool {
    sha256_hex(password) == stored_digest
}

impl UserStoreView {
    /// The stored form of a written account under a given identifier.
    pub open spec fn of(user: UserWriteView, id: ObjectId) -> UserStoreView {
        UserStoreView {
            id,
            name: user.name,
            password_hash: sha256_hex(user.password),
            permissions: user.permissions,
            bio: user.bio,
        }
    }

    /// The short public form.
    pub open spec fn brief(self) -> UserReadBriefView {
        UserReadBriefView {
            id: hex_text(object_id_bytes(self.id)),
            name: self.name,
            permissions: self.permissions,
        }
    }

    /// The full public form.
    pub open spec fn full(self) -> UserReadFullView {
        UserReadFullView {
            id: hex_text(object_id_bytes(self.id)),
            name: self.name,
            permissions: self.permissions,
            bio: self.bio,
        }
    }
}

impl UserStoreModel {
    /// The record for a newly registered account, under a fresh identifier.
    /// The password is kept as its digest only.
    pub fn new(user: UserWriteModel) -> (stored: Self)
        ensures
            stored@ == UserStoreView::of(user@, stored._id),
    {
        Self::from(user, fresh_id())
    }

    /// The record that replaces an account's data under the identifier it
    /// already has.
    pub fn from(user: UserWriteModel, id: ObjectId) -> (stored: Self)
        ensures
            stored@ == UserStoreView::of(user@, id),
    {
        let password_hash = digest(user.password.as_str());
        Self {
            _id: id,
            name: user.name,
            password_hash,
            permissions: user.permissions,
            bio: user.bio,
        }
    }

    /// A copy of this record.
    pub fn duplicate(&self) -> (copy: Self)
        ensures
            copy@ == self@,
    {
        Self {
            _id: self._id,
            name: self.name.clone(),
            password_hash: self.password_hash.clone(),
            permissions: self.permissions,
            bio: self.bio.clone(),
        }
    }

    /// The short public form of this account.
    pub fn brief(self) -> (shown: UserReadBriefModel)
        ensures
            shown@ == self@.brief(),
    {
        UserReadBriefModel {
            _id: id_hex(&self._id),
            name: self.name,
            permissions: self.permissions,
        }
    }

    /// The full public form of this account.
    pub fn to(self) -> (shown: UserReadFullModel)
        ensures
            shown@ == self@.full(),
    {
        UserReadFullModel {
            _id: id_hex(&self._id),
            name: self.name,
            permissions: self.permissions,
            bio: self.bio,
        }
    }

    /// Whether the password is this account's: its digest equals the stored one.
    pub fn authenticate(&self, password: &str) -> (accepted: bool)
        ensures
            accepted == password_matches(password@, self@.password_hash),
    {
        digest(password) == self.password_hash
    }
}

/// The digest under which a password is stored.
pub fn hash_password(password: &str) -> (stored_digest: String)
    ensures
        stored_digest@ == sha256_hex(password@),
{
    digest(password)
}

/// Whether a password is the one whose digest is given.
pub fn verify_password(password: &str, stored_digest: &str) -> (accepted: bool)
    ensures
        accepted == password_matches(password@, stored_digest@),
{
    digest(password).as_str().to_owned() == stored_digest.to_owned()
}

/// A password is always accepted against its own digest.
pub proof fn lemma_own_digest_accepted(password: Seq<char>)
    ensures
        password_matches(password, sha256_hex(password)),
{
}

} // verus!
