//! The handlers for posts. Each one is a short conversation with the
//! stores: it starts with a question, and every answer leads to the next
//! question or to the end.

use vstd::prelude::*;
use crate::errors::{ApiError, ApiErrorView, ErrorKind};
use crate::middlewares::auth::{
    check_owner, delete_denied, may_mutate, modify_denied, ownership_outcome, AuthorizeToken,
    UserAuthorization,
};
use crate::models::post::{
    author_missing, PostReadBriefModel, PostReadFullModel, PostStoreModel, PostStoreView,
    PostWriteModel,
};
use crate::models::user::{UserAuthClaimsModel, UserPermissionLevel};
use crate::store::{
    confirm, ensure_vacant, records_view, resolve, resolved, stored, vacant, Created, Reply,
    Request, RequestView, Step,
};
use crate::text::join3;

verus! {

/// The message for a title that no post has.
pub open spec fn post_missing(title: Seq<char>) -> Seq<char> {
    "Post "@ + title + " not found."@
}

/// The message for a title that a post already has.
pub open spec fn post_exists(title: Seq<char>) -> Seq<char> {
    "Post "@ + title + " already exists."@
}

/// Where the handler that shows one post stands.
pub enum GetPost {
    /// Waiting for the post.
    FindingPost { title: String },
    /// Waiting for the post's owner.
    Showing { post: PostStoreModel },
}

/// Where the handler that lists the posts stands.
pub enum ListPosts {
    /// Waiting for the posts.
    Listing,
    /// Waiting for the owner of `current`; `shown` holds the posts before
    /// it, `rest` the posts after it.
    Showing { current: PostStoreModel, rest: Vec<PostStoreModel>, shown: Vec<PostReadBriefModel> },
}

/// Where the handler that creates a post stands.
pub enum CreatePost {
    /// Waiting to learn whether the title is taken.
    FindingPost { post: PostWriteModel, claim: UserAuthClaimsModel },
    /// Waiting for the caller's account, which will own the post.
    FindingAuthor { post: PostWriteModel },
    /// Waiting for the store to take the record.
    Inserting { record: PostStoreModel },
    /// Waiting for the owner, to show the post.
    Showing { record: PostStoreModel },
}

/// Where the handler that changes a post stands.
pub enum UpdatePost {
    /// Waiting for the post as it is.
    FindingPost { title: String, post: PostWriteModel, claim: UserAuthClaimsModel },
    /// Waiting for the post's owner, to apply the ownership rule.
    CheckingOwner { origin: PostStoreModel, post: PostWriteModel, claim: UserAuthClaimsModel },
    /// Waiting for the caller's account, which will own the changed post.
    FindingAuthor { origin: PostStoreModel, post: PostWriteModel },
    /// Waiting for the store to take the record.
    Replacing { record: PostStoreModel },
    /// Waiting for the owner, to show the post.
    Showing { record: PostStoreModel },
}

/// Where the handler that removes a post stands.
pub enum DeletePost {
    /// Waiting for the post.
    FindingPost { title: String, claim: UserAuthClaimsModel },
    /// Waiting for the post's owner, to apply the ownership rule.
    CheckingOwner { post: PostStoreModel, title: String, claim: UserAuthClaimsModel },
    /// Waiting for the store to remove the post.
    Deleting { post: PostStoreModel },
    /// Waiting for the owner, to show what was removed.
    Showing { post: PostStoreModel },
}

impl GetPost {
    /// How the handler goes on from a state when the stores answer.
    pub open spec fn resumes_to(self, reply: Reply, step: Step<GetPost, PostReadFullModel>) -> bool {
        match self {
            GetPost::FindingPost { title } => match resolved(
                reply.post_lookup(),
                post_missing(title@),
            ) {
                Err(failure) => step.fails_with(failure),
                Ok(found) => step matches Step::Ask(GetPost::Showing { post }, request) && post@
                    == found && request@ == RequestView::FindUserById(found.author),
            },
            GetPost::Showing { post } => match resolved(reply.user_lookup(), author_missing()) {
                Err(failure) => step.fails_with(failure),
                Ok(owner) => step matches Step::Done(Ok(shown)) && shown@ == post@.full(owner),
            },
        }
    }

    /// Goes on from this state with the stores' answer.
    pub fn resume(self, reply: Reply) -> (step: Step<GetPost, PostReadFullModel>)
        ensures
            self.resumes_to(reply, step),
    {
        match self {
            GetPost::FindingPost { title } => {
                let missing = join3("Post ", title.as_str(), " not found.");
                match resolve(reply.into_post(), missing) {
                    Err(failure) => Step::Done(Err(failure)),
                    Ok(post) => {
                        let request = Request::FindUserById(post.author);
                        Step::Ask(GetPost::Showing { post }, request)
                    },
                }
            },
            GetPost::Showing { post } => Step::Done(post.to(reply.into_user())),
        }
    }
}

/// Starts showing the post with a title.
pub fn get(_auth: &AuthorizeToken<UserAuthorization>, title: &str) -> (step: Step<
    GetPost,
    PostReadFullModel,
>)
    ensures
        step matches Step::Ask(GetPost::FindingPost { title: sought }, request) && sought@
            == title@ && request@ == RequestView::FindPostByTitle(title@),
{
    Step::Ask(
        GetPost::FindingPost { title: title.to_owned() },
        Request::FindPostByTitle(title.to_owned()),
    )
}

impl ListPosts {
    /// How the handler goes on once the owner of `current` is known: with
    /// the next post, or to the end.
    pub open spec fn shows_next(
        current: PostStoreView,
        rest: Seq<PostStoreView>,
        shown: Seq<crate::models::post::PostReadBriefView>,
        reply: Reply,
        step: Step<ListPosts, Vec<PostReadBriefModel>>,
    ) -> bool {
        match resolved(reply.user_lookup(), author_missing()) {
            Err(failure) => step.fails_with(failure),
            Ok(owner) => if rest.len() == 0 {
                step matches Step::Done(Ok(all)) && records_view(all) == shown.push(
                    current.brief(owner),
                )
            } else {
                step matches Step::Ask(
                    ListPosts::Showing { current: next, rest: later, shown: so_far },
                    request,
                ) && next@ == rest[0] && records_view(later) == rest.skip(1) && records_view(so_far)
                    == shown.push(current.brief(owner)) && request@ == RequestView::FindUserById(
                    rest[0].author,
                )
            },
        }
    }

    /// How the handler goes on from a state when the stores answer.
    pub open spec fn resumes_to(
        self,
        reply: Reply,
        step: Step<ListPosts, Vec<PostReadBriefModel>>,
    ) -> bool {
        match self {
            ListPosts::Listing => match reply.post_listing() {
                Err(report) => step.fails_with(
                    ApiErrorView { kind: ErrorKind::ServerFault, message: report },
                ),
                Ok(posts) => if posts.len() == 0 {
                    step matches Step::Done(Ok(all)) && all@.len() == 0
                } else {
                    step matches Step::Ask(
                        ListPosts::Showing { current, rest, shown },
                        request,
                    ) && current@ == posts[0] && records_view(rest) == posts.skip(1) && shown@.len()
                        == 0 && request@ == RequestView::FindUserById(posts[0].author)
                },
            },
            ListPosts::Showing { current, rest, shown } => Self::shows_next(
                current@,
                records_view(rest),
                records_view(shown),
                reply,
                step,
            ),
        }
    }

    /// Asks for the owner of the first post that is left, or ends the list.
    fn advance(rest: Vec<PostStoreModel>, shown: Vec<PostReadBriefModel>) -> (step: Step<
        ListPosts,
        Vec<PostReadBriefModel>,
    >)
        ensures
            if rest@.len() == 0 {
                step matches Step::Done(Ok(all)) && records_view(all) == records_view(shown)
            } else {
                step matches Step::Ask(
                    ListPosts::Showing { current: next, rest: later, shown: so_far },
                    request,
                ) && next@ == rest@[0]@ && records_view(later) == records_view(rest).skip(1)
                    && records_view(so_far) == records_view(shown) && request@
                    == RequestView::FindUserById(rest@[0].author)
            },
    {
        let mut rest = rest;
        if rest.len() == 0 {
            Step::Done(Ok(shown))
        } else {
            let ghost before = rest;
            let current = rest.remove(0);
            assert(records_view(rest) =~= records_view(before).skip(1));
            let request = Request::FindUserById(current.author);
            Step::Ask(ListPosts::Showing { current, rest, shown }, request)
        }
    }

    /// Goes on from this state with the stores' answer.
    pub fn resume(self, reply: Reply) -> (step: Step<ListPosts, Vec<PostReadBriefModel>>)
        ensures
            self.resumes_to(reply, step),
    {
        match self {
            ListPosts::Listing => match reply.into_posts() {
                Err(report) => Step::Done(Err(ApiError::server_fault(report))),
                Ok(posts) => {
                    let shown: Vec<PostReadBriefModel> = Vec::new();
                    let step = Self::advance(posts, shown);
                    assert(records_view(shown).len() == 0);
                    assert(step matches Step::Done(Ok(all)) ==> records_view(all).len()
                        == all@.len());
                    assert(step matches Step::Ask(
                        ListPosts::Showing { current, rest, shown: so_far },
                        request,
                    ) ==> records_view(so_far).len() == so_far@.len());
                    step
                },
            },
            ListPosts::Showing { current, rest, shown } => {
                let ghost before = shown;
                match current.brief(reply.into_user()) {
                    Err(failure) => Step::Done(Err(failure)),
                    Ok(brief) => {
                        let mut shown = shown;
                        shown.push(brief);
                        assert(records_view(shown) =~= records_view(before).push(brief@));
                        Self::advance(rest, shown)
                    },
                }
            },
        }
    }
}

/// Starts listing the posts.
pub fn list(_auth: &AuthorizeToken<UserAuthorization>) -> (step: Step<
    ListPosts,
    Vec<PostReadBriefModel>,
>)
    ensures
        step matches Step::Ask(ListPosts::Listing, request) && request@ == RequestView::ListPosts,
{
    Step::Ask(ListPosts::Listing, Request::ListPosts)
}

impl CreatePost {
    /// How the handler goes on from a state when the stores answer.
    pub open spec fn resumes_to(
        self,
        reply: Reply,
        step: Step<CreatePost, Created<PostReadFullModel>>,
    ) -> bool {
        match self {
            CreatePost::FindingPost { post, claim } => match vacant(
                reply.post_lookup(),
                post_exists(post@.title),
            ) {
                Err(failure) => step.fails_with(failure),
                Ok(()) => step matches Step::Ask(CreatePost::FindingAuthor { post: kept }, request)
                    && kept@ == post@ && request@ == RequestView::FindUserByName(claim@.name),
            },
            CreatePost::FindingAuthor { post } => match resolved(
                reply.user_lookup(),
                author_missing(),
            ) {
                Err(failure) => step.fails_with(failure),
                Ok(owner) => step matches Step::Ask(CreatePost::Inserting { record }, request)
                    && record@ == PostStoreView::of(post@, record._id, owner) && request@
                    == RequestView::InsertPost(record@),
            },
            CreatePost::Inserting { record } => match stored(reply.write_outcome()) {
                Err(failure) => step.fails_with(failure),
                Ok(()) => step matches Step::Ask(CreatePost::Showing { record: kept }, request)
                    && kept@ == record@ && request@ == RequestView::FindUserById(record.author),
            },
            CreatePost::Showing { record } => match resolved(
                reply.user_lookup(),
                author_missing(),
            ) {
                Err(failure) => step.fails_with(failure),
                Ok(owner) => step matches Step::Done(Ok(created)) && created.location@
                    == record@.title && created.body@ == record@.full(owner),
            },
        }
    }

    /// Goes on from this state with the stores' answer.
    pub fn resume(self, reply: Reply) -> (step: Step<CreatePost, Created<PostReadFullModel>>)
        ensures
            self.resumes_to(reply, step),
    {
        match self {
            CreatePost::FindingPost { post, claim } => {
                let taken = join3("Post ", post.title.as_str(), " already exists.");
                match ensure_vacant(reply.into_post(), taken) {
                    Err(failure) => Step::Done(Err(failure)),
                    Ok(()) => Step::Ask(
                        CreatePost::FindingAuthor { post },
                        Request::FindUserByName(claim.name),
                    ),
                }
            },
            CreatePost::FindingAuthor { post } => match PostStoreModel::new(
                post,
                reply.into_user(),
            ) {
                Err(failure) => Step::Done(Err(failure)),
                Ok(record) => {
                    let request = Request::InsertPost(record.duplicate());
                    Step::Ask(CreatePost::Inserting { record }, request)
                },
            },
            CreatePost::Inserting { record } => match confirm(reply.into_written()) {
                Err(failure) => Step::Done(Err(failure)),
                Ok(()) => {
                    let request = Request::FindUserById(record.author);
                    Step::Ask(CreatePost::Showing { record }, request)
                },
            },
            CreatePost::Showing { record } => {
                let location = record.title.clone();
                match record.to(reply.into_user()) {
                    Err(failure) => Step::Done(Err(failure)),
                    Ok(body) => Step::Done(Ok(Created { location, body })),
                }
            },
        }
    }
}

/// Starts creating a post that the caller will own.
pub fn create(auth: AuthorizeToken<UserAuthorization>, post: PostWriteModel) -> (step: Step<
    CreatePost,
    Created<PostReadFullModel>,
>)
    ensures
        step matches Step::Ask(CreatePost::FindingPost { post: kept, claim }, request) && kept@
            == post@ && claim@ == auth@ && request@ == RequestView::FindPostByTitle(post@.title),
{
    let request = Request::FindPostByTitle(post.title.clone());
    Step::Ask(CreatePost::FindingPost { post, claim: auth.claim }, request)
}

impl UpdatePost {
    /// How the handler goes on from a state when the stores answer. The
    /// store is asked to replace the post only after the ownership rule has
    /// let the caller pass.
    pub open spec fn resumes_to(self, reply: Reply, step: Step<UpdatePost, PostReadFullModel>) -> bool {
        match self {
            UpdatePost::FindingPost { title, post, claim } => match resolved(
                reply.post_lookup(),
                post_missing(title@),
            ) {
                Err(failure) => step.fails_with(failure),
                Ok(found) => step matches Step::Ask(
                    UpdatePost::CheckingOwner { origin, post: kept, claim: caller },
                    request,
                ) && origin@ == found && kept@ == post@ && caller@ == claim@ && request@
                    == RequestView::FindUserById(found.author),
            },
            UpdatePost::CheckingOwner { origin, post, claim } => match resolved(
                reply.user_lookup(),
                author_missing(),
            ) {
                Err(failure) => step.fails_with(failure),
                Ok(owner) => match ownership_outcome(owner.name, claim@, modify_denied()) {
                    Err(refusal) => step.fails_with(refusal),
                    Ok(()) => step matches Step::Ask(
                        UpdatePost::FindingAuthor { origin: same, post: kept },
                        request,
                    ) && same@ == origin@ && kept@ == post@ && request@
                        == RequestView::FindUserByName(claim@.name),
                },
            },
            UpdatePost::FindingAuthor { origin, post } => match resolved(
                reply.user_lookup(),
                author_missing(),
            ) {
                Err(failure) => step.fails_with(failure),
                Ok(owner) => step matches Step::Ask(UpdatePost::Replacing { record }, request)
                    && record@ == PostStoreView::of(post@, origin._id, owner) && request@
                    == RequestView::ReplacePost(origin._id, record@),
            },
            UpdatePost::Replacing { record } => match stored(reply.write_outcome()) {
                Err(failure) => step.fails_with(failure),
                Ok(()) => step matches Step::Ask(UpdatePost::Showing { record: kept }, request)
                    && kept@ == record@ && request@ == RequestView::FindUserById(record.author),
            },
            UpdatePost::Showing { record } => match resolved(
                reply.user_lookup(),
                author_missing(),
            ) {
                Err(failure) => step.fails_with(failure),
                Ok(owner) => step matches Step::Done(Ok(shown)) && shown@ == record@.full(owner),
            },
        }
    }

    /// Goes on from this state with the stores' answer.
    pub fn resume(self, reply: Reply) -> (step: Step<UpdatePost, PostReadFullModel>)
        ensures
            self.resumes_to(reply, step),
    {
        match self {
            UpdatePost::FindingPost { title, post, claim } => {
                let missing = join3("Post ", title.as_str(), " not found.");
                match resolve(reply.into_post(), missing) {
                    Err(failure) => Step::Done(Err(failure)),
                    Ok(origin) => {
                        let request = Request::FindUserById(origin.author);
                        Step::Ask(UpdatePost::CheckingOwner { origin, post, claim }, request)
                    },
                }
            },
            UpdatePost::CheckingOwner { origin, post, claim } => {
                let owner = match PostStoreModel::query_author(reply.into_user()) {
                    Err(failure) => {
                        return Step::Done(Err(failure));
                    },
                    Ok(owner) => owner,
                };
                match check_owner(
                    owner.name.as_str(),
                    &claim,
                    "You don't have permission to modify this resource.",
                ) {
                    Err(failure) => Step::Done(Err(failure)),
                    Ok(()) => Step::Ask(
                        UpdatePost::FindingAuthor { origin, post },
                        Request::FindUserByName(claim.name),
                    ),
                }
            },
            UpdatePost::FindingAuthor { origin, post } => match PostStoreModel::from(
                post,
                origin._id,
                reply.into_user(),
            ) {
                Err(failure) => Step::Done(Err(failure)),
                Ok(record) => {
                    let request = Request::ReplacePost(origin._id, record.duplicate());
                    Step::Ask(UpdatePost::Replacing { record }, request)
                },
            },
            UpdatePost::Replacing { record } => match confirm(reply.into_written()) {
                Err(failure) => Step::Done(Err(failure)),
                Ok(()) => {
                    let request = Request::FindUserById(record.author);
                    Step::Ask(UpdatePost::Showing { record }, request)
                },
            },
            UpdatePost::Showing { record } => Step::Done(record.to(reply.into_user())),
        }
    }
}

/// Starts changing the post with a title.
pub fn update(auth: AuthorizeToken<UserAuthorization>, title: &str, post: PostWriteModel) -> (step:
    Step<UpdatePost, PostReadFullModel>)
    ensures
        step matches Step::Ask(
            UpdatePost::FindingPost { title: sought, post: kept, claim },
            request,
        ) && sought@ == title@ && kept@ == post@ && claim@ == auth@ && request@
            == RequestView::FindPostByTitle(title@),
{
    Step::Ask(
        UpdatePost::FindingPost { title: title.to_owned(), post, claim: auth.claim },
        Request::FindPostByTitle(title.to_owned()),
    )
}

impl DeletePost {
    /// How the handler goes on from a state when the stores answer. The
    /// store is asked to remove the post only after the ownership rule has
    /// let the caller pass.
    pub open spec fn resumes_to(self, reply: Reply, step: Step<DeletePost, PostReadFullModel>) -> bool {
        match self {
            DeletePost::FindingPost { title, claim } => match resolved(
                reply.post_lookup(),
                post_missing(title@),
            ) {
                Err(failure) => step.fails_with(failure),
                Ok(found) => step matches Step::Ask(
                    DeletePost::CheckingOwner { post, title: sought, claim: caller },
                    request,
                ) && post@ == found && sought@ == title@ && caller@ == claim@ && request@
                    == RequestView::FindUserById(found.author),
            },
            DeletePost::CheckingOwner { post, title, claim } => match resolved(
                reply.user_lookup(),
                author_missing(),
            ) {
                Err(failure) => step.fails_with(failure),
                Ok(owner) => match ownership_outcome(owner.name, claim@, delete_denied()) {
                    Err(refusal) => step.fails_with(refusal),
                    Ok(()) => step matches Step::Ask(DeletePost::Deleting { post: kept }, request)
                        && kept@ == post@ && request@ == RequestView::DeletePostByTitle(title@),
                },
            },
            DeletePost::Deleting { post } => match stored(reply.write_outcome()) {
                Err(failure) => step.fails_with(failure),
                Ok(()) => step matches Step::Ask(DeletePost::Showing { post: kept }, request)
                    && kept@ == post@ && request@ == RequestView::FindUserById(post.author),
            },
            DeletePost::Showing { post } => match resolved(reply.user_lookup(), author_missing()) {
                Err(failure) => step.fails_with(failure),
                Ok(owner) => step matches Step::Done(Ok(shown)) && shown@ == post@.full(owner),
            },
        }
    }

    /// Goes on from this state with the stores' answer.
    pub fn resume(self, reply: Reply) -> (step: Step<DeletePost, PostReadFullModel>)
        ensures
            self.resumes_to(reply, step),
    {
        match self {
            DeletePost::FindingPost { title, claim } => {
                let missing = join3("Post ", title.as_str(), " not found.");
                match resolve(reply.into_post(), missing) {
                    Err(failure) => Step::Done(Err(failure)),
                    Ok(post) => {
                        let request = Request::FindUserById(post.author);
                        Step::Ask(DeletePost::CheckingOwner { post, title, claim }, request)
                    },
                }
            },
            DeletePost::CheckingOwner { post, title, claim } => {
                let owner = match PostStoreModel::query_author(reply.into_user()) {
                    Err(failure) => {
                        return Step::Done(Err(failure));
                    },
                    Ok(owner) => owner,
                };
                match check_owner(
                    owner.name.as_str(),
                    &claim,
                    "You don't have permission to delete this resource.",
                ) {
                    Err(failure) => Step::Done(Err(failure)),
                    Ok(()) => Step::Ask(
                        DeletePost::Deleting { post },
                        Request::DeletePostByTitle(title),
                    ),
                }
            },
            DeletePost::Deleting { post } => match confirm(reply.into_written()) {
                Err(failure) => Step::Done(Err(failure)),
                Ok(()) => {
                    let request = Request::FindUserById(post.author);
                    Step::Ask(DeletePost::Showing { post }, request)
                },
            },
            DeletePost::Showing { post } => Step::Done(post.to(reply.into_user())),
        }
    }
}

/// Starts removing the post with a title.
pub fn delete(auth: AuthorizeToken<UserAuthorization>, title: &str) -> (step: Step<
    DeletePost,
    PostReadFullModel,
>)
    ensures
        step matches Step::Ask(DeletePost::FindingPost { title: sought, claim }, request) && sought@
            == title@ && claim@ == auth@ && request@ == RequestView::FindPostByTitle(title@),
{
    Step::Ask(
        DeletePost::FindingPost { title: title.to_owned(), claim: auth.claim },
        Request::FindPostByTitle(title.to_owned()),
    )
}

/// While a post is being changed, the store is asked to write only once
/// the caller's account has been looked up, and that happens only after
/// the ownership rule has let the caller pass: the caller is the post's
/// owner or an administrator.
pub proof fn lemma_update_writes_after_ownership(
    state: UpdatePost,
    reply: Reply,
    step: Step<UpdatePost, PostReadFullModel>,
)
    requires
        state.resumes_to(reply, step),
    ensures
        step matches Step::Ask(_, request) && request@.is_write() ==> state is FindingAuthor,
        step matches Step::Ask(next, _) && next is FindingAuthor ==> (state matches UpdatePost::CheckingOwner {
            claim,
            ..
        } && reply.user_lookup() matches Ok(Some(owner)) && may_mutate(owner.name, claim@)),
{
}

/// A caller who is neither the owner of a post nor an administrator is
/// forbidden to change it, and the handler ends there.
pub proof fn lemma_update_by_stranger_forbidden(
    state: UpdatePost,
    reply: Reply,
    step: Step<UpdatePost, PostReadFullModel>,
)
    requires
        state.resumes_to(reply, step),
        state matches UpdatePost::CheckingOwner { claim, .. } && reply.user_lookup() matches Ok(
            Some(owner),
        ) && owner.name != claim@.name && claim@.permissions == UserPermissionLevel::User,
    ensures
        step.fails_with(ApiErrorView { kind: ErrorKind::Forbidden, message: modify_denied() }),
{
}

/// While a post is being removed, the store is asked to write only after
/// the ownership rule has let the caller pass: the caller is the post's
/// owner or an administrator.
pub proof fn lemma_delete_writes_after_ownership(
    state: DeletePost,
    reply: Reply,
    step: Step<DeletePost, PostReadFullModel>,
)
    requires
        state.resumes_to(reply, step),
        step matches Step::Ask(_, request) && request@.is_write(),
    ensures
        state matches DeletePost::CheckingOwner { claim, .. } && reply.user_lookup() matches Ok(
            Some(owner),
        ) && may_mutate(owner.name, claim@),
{
}

/// A post is created only under a title that no post has: where the search
/// finds one, the handler ends with a conflict and asks for no write.
pub proof fn lemma_create_refuses_taken_title(
    state: CreatePost,
    reply: Reply,
    step: Step<CreatePost, Created<PostReadFullModel>>,
)
    requires
        state.resumes_to(reply, step),
        state matches CreatePost::FindingPost { .. },
        reply.post_lookup() matches Ok(Some(_)),
    ensures
        step matches Step::Done(Err(failure)) && failure@.kind == ErrorKind::Conflict,
{
}

} // verus!
