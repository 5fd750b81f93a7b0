//! The handlers for accounts. Showing and listing take the stores' answer
//! and compute; creating, changing and removing are short conversations
//! with the stores.

use vstd::prelude::*;
use crate::errors::{ApiError, ApiErrorView, ErrorKind};
use crate::middlewares::auth::{
    check_owner, may_mutate, modify_denied, ownership_outcome, AdminPermissionAuthorization,
    AuthorizeToken, UserAuthorization,
};
use crate::models::user::{
    UserAuthClaimsModel, UserReadBriefModel, UserReadBriefView, UserReadFullModel,
    UserReadFullView, UserStoreModel, UserStoreView, UserWriteModel,
};
use crate::routes::auth::unknown_user;
use crate::store::{
    confirm, ensure_vacant, listing_view, lookup_view, records_view, resolve, resolved,
    result_view, stored, vacant, Created, Reply, Request, RequestView, Step,
};
use crate::text::join3;

verus! {

/// The message for a name that an account already has.
pub open spec fn user_exists(name: Seq<char>) -> Seq<char> {
    "User "@ + name + " already exists."@
}

/// The short public forms of a list of accounts, in order.
pub open spec fn briefs_of(users: Seq<UserStoreView>) -> Seq<UserReadBriefView> {
    Seq::new(users.len(), |i: int| users[i].brief())
}

/// Lists the accounts, given the stores' answer to a request for all of
/// them: each in its short public form, in the order given; a failed
/// request is a server fault that carries the store's report.
pub fn list(
    _auth: &AuthorizeToken<UserAuthorization>,
    listing: Result<Vec<UserStoreModel>, String>,
) -> (answer: Result<Vec<UserReadBriefModel>, ApiError>)
    ensures
        match listing_view(listing) {
            Ok(users) => answer matches Ok(shown) && records_view(shown) == briefs_of(users),
            Err(report) => answer matches Err(failure) && failure@ == (ApiErrorView {
                kind: ErrorKind::ServerFault,
                message: report,
            }),
        },
{
    let mut users = match listing {
        Ok(users) => users,
        Err(report) => {
            return Err(ApiError::server_fault(report));
        },
    };
    let ghost all = records_view(users);
    let mut shown: Vec<UserReadBriefModel> = Vec::new();
    while users.len() > 0
        invariant
            shown@.len() + users@.len() == all.len(),
            records_view(shown) =~= briefs_of(all).take(shown@.len() as int),
            records_view(users) =~= all.skip(shown@.len() as int),
        decreases users@.len(),
    {
        let ghost before = users;
        let ghost done = shown;
        let user = users.remove(0);
        assert(user@ == records_view(before)[0]);
        let brief = user.brief();
        shown.push(brief);
        assert(records_view(users) =~= records_view(before).skip(1));
        assert(records_view(shown) =~= records_view(done).push(brief@));
    }
    assert(briefs_of(all).take(shown@.len() as int) =~= briefs_of(all));
    Ok(shown)
}

/// Shows the account with a name, given the stores' answer to a search
/// for it.
pub fn get(
    _auth: &AuthorizeToken<UserAuthorization>,
    name: &str,
    lookup: Result<Option<UserStoreModel>, String>,
) -> (answer: Result<UserReadFullModel, ApiError>)
    ensures
        match resolved(lookup_view(lookup), unknown_user(name@)) {
            Ok(user) => result_view(answer) == Ok::<UserReadFullView, ApiErrorView>(user.full()),
            Err(failure) => result_view(answer) == Err::<UserReadFullView, ApiErrorView>(failure),
        },
{
    match resolve(lookup, join3("User ", name, " not found.")) {
        Ok(user) => Ok(user.to()),
        Err(failure) => Err(failure),
    }
}

/// Where the handler that creates an account stands.
pub enum CreateUser {
    /// Waiting to learn whether the name is taken.
    FindingUser { user: UserWriteModel },
    /// Waiting for the store to take the record.
    Inserting { record: UserStoreModel },
}

/// Where the handler that changes an account stands.
pub enum UpdateUser {
    /// Waiting for the account as it is.
    FindingUser { name: String, user: UserWriteModel, claim: UserAuthClaimsModel },
    /// Waiting for the store to take the record.
    Replacing { record: UserStoreModel },
}

/// Where the handler that removes an account stands.
pub enum DeleteUser {
    /// Waiting for the account.
    FindingUser { name: String },
    /// Waiting for the store to remove the account.
    DeletingUser { user: UserStoreModel, name: String },
    /// Waiting for the store to remove the posts that the account owned.
    DeletingPosts { user: UserStoreModel },
}

impl CreateUser {
    /// How the handler goes on from a state when the stores answer.
    pub open spec fn resumes_to(
        self,
        reply: Reply,
        step: Step<CreateUser, Created<UserReadFullModel>>,
    ) -> bool {
        match self {
            CreateUser::FindingUser { user } => match vacant(
                reply.user_lookup(),
                user_exists(user@.name),
            ) {
                Err(failure) => step.fails_with(failure),
                Ok(()) => step matches Step::Ask(CreateUser::Inserting { record }, request)
                    && record@ == UserStoreView::of(user@, record._id) && request@
                    == RequestView::InsertUser(record@),
            },
            CreateUser::Inserting { record } => match stored(reply.write_outcome()) {
                Err(failure) => step.fails_with(failure),
                Ok(()) => step matches Step::Done(Ok(created)) && created.location@
                    == record@.name && created.body@ == record@.full(),
            },
        }
    }

    /// Goes on from this state with the stores' answer.
    pub fn resume(self, reply: Reply) -> (step: Step<CreateUser, Created<UserReadFullModel>>)
        ensures
            self.resumes_to(reply, step),
    {
        match self {
            CreateUser::FindingUser { user } => {
                let taken = join3("User ", user.name.as_str(), " already exists.");
                match ensure_vacant(reply.into_user(), taken) {
                    Err(failure) => Step::Done(Err(failure)),
                    Ok(()) => {
                        let record = UserStoreModel::new(user);
                        let request = Request::InsertUser(record.duplicate());
                        Step::Ask(CreateUser::Inserting { record }, request)
                    },
                }
            },
            CreateUser::Inserting { record } => match confirm(reply.into_written()) {
                Err(failure) => Step::Done(Err(failure)),
                Ok(()) => {
                    let location = record.name.clone();
                    Step::Done(Ok(Created { location, body: record.to() }))
                },
            },
        }
    }
}

/// Starts creating an account. Only an administrator gets here.
pub fn create(_auth: &AuthorizeToken<AdminPermissionAuthorization>, user: UserWriteModel) -> (step:
    Step<CreateUser, Created<UserReadFullModel>>)
    ensures
        step matches Step::Ask(CreateUser::FindingUser { user: kept }, request) && kept@ == user@
            && request@ == RequestView::FindUserByName(user@.name),
{
    let request = Request::FindUserByName(user.name.clone());
    Step::Ask(CreateUser::FindingUser { user }, request)
}

impl UpdateUser {
    /// How the handler goes on from a state when the stores answer. The
    /// store is asked to replace the account only after the ownership rule
    /// has let the caller pass; the account keeps its identifier.
    pub open spec fn resumes_to(self, reply: Reply, step: Step<UpdateUser, UserReadFullModel>) -> bool {
        match self {
            UpdateUser::FindingUser { name, user, claim } => match resolved(
                reply.user_lookup(),
                unknown_user(name@),
            ) {
                Err(failure) => step.fails_with(failure),
                Ok(origin) => match ownership_outcome(origin.name, claim@, modify_denied()) {
                    Err(refusal) => step.fails_with(refusal),
                    Ok(()) => step matches Step::Ask(UpdateUser::Replacing { record }, request)
                        && record@ == UserStoreView::of(user@, origin.id) && request@
                        == RequestView::ReplaceUser(origin.id, record@),
                },
            },
            UpdateUser::Replacing { record } => match stored(reply.write_outcome()) {
                Err(failure) => step.fails_with(failure),
                Ok(()) => step matches Step::Done(Ok(shown)) && shown@ == record@.full(),
            },
        }
    }

    /// Goes on from this state with the stores' answer.
    pub fn resume(self, reply: Reply) -> (step: Step<UpdateUser, UserReadFullModel>)
        ensures
            self.resumes_to(reply, step),
    {
        match self {
            UpdateUser::FindingUser { name, user, claim } => {
                let missing = join3("User ", name.as_str(), " not found.");
                let origin = match resolve(reply.into_user(), missing) {
                    Err(failure) => {
                        return Step::Done(Err(failure));
                    },
                    Ok(origin) => origin,
                };
                match check_owner(
                    origin.name.as_str(),
                    &claim,
                    "You don't have permission to modify this resource.",
                ) {
                    Err(failure) => Step::Done(Err(failure)),
                    Ok(()) => {
                        let record = UserStoreModel::from(user, origin._id);
                        let request = Request::ReplaceUser(origin._id, record.duplicate());
                        Step::Ask(UpdateUser::Replacing { record }, request)
                    },
                }
            },
            UpdateUser::Replacing { record } => match confirm(reply.into_written()) {
                Err(failure) => Step::Done(Err(failure)),
                Ok(()) => Step::Done(Ok(record.to())),
            },
        }
    }
}

/// Starts changing the account with a name.
pub fn update(auth: AuthorizeToken<UserAuthorization>, name: &str, user: UserWriteModel) -> (step:
    Step<UpdateUser, UserReadFullModel>)
    ensures
        step matches Step::Ask(
            UpdateUser::FindingUser { name: sought, user: kept, claim },
            request,
        ) && sought@ == name@ && kept@ == user@ && claim@ == auth@ && request@
            == RequestView::FindUserByName(name@),
{
    Step::Ask(
        UpdateUser::FindingUser { name: name.to_owned(), user, claim: auth.claim },
        Request::FindUserByName(name.to_owned()),
    )
}

impl DeleteUser {
    /// How the handler goes on from a state when the stores answer. Once
    /// the account is removed the posts it owned are removed too, and
    /// success is reported only when both removals were confirmed.
    pub open spec fn resumes_to(self, reply: Reply, step: Step<DeleteUser, UserReadFullModel>) -> bool {
        match self {
            DeleteUser::FindingUser { name } => match resolved(
                reply.user_lookup(),
                unknown_user(name@),
            ) {
                Err(failure) => step.fails_with(failure),
                Ok(found) => step matches Step::Ask(
                    DeleteUser::DeletingUser { user, name: sought },
                    request,
                ) && user@ == found && sought@ == name@ && request@
                    == RequestView::DeleteUserByName(name@),
            },
            DeleteUser::DeletingUser { user, name } => match stored(reply.write_outcome()) {
                Err(failure) => step.fails_with(failure),
                Ok(()) => step matches Step::Ask(DeleteUser::DeletingPosts { user: kept }, request)
                    && kept@ == user@ && request@ == RequestView::DeletePostsByAuthor(user._id),
            },
            DeleteUser::DeletingPosts { user } => match stored(reply.write_outcome()) {
                Err(failure) => step.fails_with(failure),
                Ok(()) => step matches Step::Done(Ok(shown)) && shown@ == user@.full(),
            },
        }
    }

    /// Goes on from this state with the stores' answer.
    pub fn resume(self, reply: Reply) -> (step: Step<DeleteUser, UserReadFullModel>)
        ensures
            self.resumes_to(reply, step),
    {
        match self {
            DeleteUser::FindingUser { name } => {
                let missing = join3("User ", name.as_str(), " not found.");
                match resolve(reply.into_user(), missing) {
                    Err(failure) => Step::Done(Err(failure)),
                    Ok(user) => {
                        let request = Request::DeleteUserByName(name.clone());
                        Step::Ask(DeleteUser::DeletingUser { user, name }, request)
                    },
                }
            },
            DeleteUser::DeletingUser { user, name: _ } => match confirm(reply.into_written()) {
                Err(failure) => Step::Done(Err(failure)),
                Ok(()) => {
                    let request = Request::DeletePostsByAuthor(user._id);
                    Step::Ask(DeleteUser::DeletingPosts { user }, request)
                },
            },
            DeleteUser::DeletingPosts { user } => match confirm(reply.into_written()) {
                Err(failure) => Step::Done(Err(failure)),
                Ok(()) => Step::Done(Ok(user.to())),
            },
        }
    }
}

/// Starts removing the account with a name, and with it the posts it
/// owns. Only an administrator gets here.
pub fn delete(_auth: &AuthorizeToken<AdminPermissionAuthorization>, name: &str) -> (step: Step<
    DeleteUser,
    UserReadFullModel,
>)
    ensures
        step matches Step::Ask(DeleteUser::FindingUser { name: sought }, request) && sought@
            == name@ && request@ == RequestView::FindUserByName(name@),
{
    Step::Ask(
        DeleteUser::FindingUser { name: name.to_owned() },
        Request::FindUserByName(name.to_owned()),
    )
}

/// While an account is being changed, the store is asked to write only
/// after the ownership rule has let the caller pass: the caller is that
/// account or an administrator.
pub proof fn lemma_update_writes_after_ownership(
    state: UpdateUser,
    reply: Reply,
    step: Step<UpdateUser, UserReadFullModel>,
)
    requires
        state.resumes_to(reply, step),
        step matches Step::Ask(_, request) && request@.is_write(),
    ensures
        state matches UpdateUser::FindingUser { claim, .. } && reply.user_lookup() matches Ok(
            Some(origin),
        ) && may_mutate(origin.name, claim@),
{
}

/// Removing an account cascades. The handler reports success only when
/// its last question, the removal of the posts, was confirmed; it asks
/// that question only when the removal of the account was confirmed; and
/// the posts it asks to remove are those that the account owns.
pub proof fn lemma_delete_cascades(
    state: DeleteUser,
    reply: Reply,
    step: Step<DeleteUser, UserReadFullModel>,
)
    requires
        state.resumes_to(reply, step),
    ensures
        step matches Step::Done(Ok(_)) ==> state is DeletingPosts && reply.write_outcome() is Ok,
        step matches Step::Ask(next, request) ==> (next is DeletingPosts ==> (
        state matches DeleteUser::DeletingUser { user, .. } && reply.write_outcome() is Ok
            && request@ == RequestView::DeletePostsByAuthor(user._id))),
        state is DeletingUser && reply.write_outcome() is Ok ==> (step matches Step::Ask(
            next,
            _,
        ) && next is DeletingPosts),
{
}

/// An account is created only under a name that no account has: where the
/// search finds one, the handler ends with a conflict and asks for no write.
pub proof fn lemma_create_refuses_taken_name(
    state: CreateUser,
    reply: Reply,
    step: Step<CreateUser, Created<UserReadFullModel>>,
)
    requires
        state.resumes_to(reply, step),
        state matches CreateUser::FindingUser { .. },
        reply.user_lookup() matches Ok(Some(_)),
    ensures
        step matches Step::Done(Err(failure)) && failure@.kind == ErrorKind::Conflict,
{
}

} // verus!
