//! What the stores answer, and how an answer becomes a record or a failure.
//! The stores themselves are outside this library: a handler says what it
//! needs, and is handed the answer.

use vstd::prelude::*;
use mongodb::bson::oid::ObjectId;
use crate::errors::{ApiError, ApiErrorView, ErrorKind};
use crate::models::post::{PostStoreModel, PostStoreView};
use crate::models::user::{UserStoreModel, UserStoreView};

verus! {

/// What a handler asks of the stores.
pub enum Request {
    /// The account with this name.
    FindUserByName(String),
    /// The account with this identifier.
    FindUserById(ObjectId),
    /// The post with this title.
    FindPostByTitle(String),
    /// Every account.
    ListUsers,
    /// Every post.
    ListPosts,
    /// Add this account.
    InsertUser(UserStoreModel),
    /// Put this record in place of the account with this identifier.
    ReplaceUser(ObjectId, UserStoreModel),
    /// Remove the account with this name.
    DeleteUserByName(String),
    /// Add this post.
    InsertPost(PostStoreModel),
    /// Put this record in place of the post with this identifier.
    ReplacePost(ObjectId, PostStoreModel),
    /// Remove the post with this title.
    DeletePostByTitle(String),
    /// Remove every post that the account with this identifier owns.
    DeletePostsByAuthor(ObjectId),
}

/// What a [`Request`] holds, as mathematical values.
pub ghost enum RequestView {
    FindUserByName(Seq<char>),
    FindUserById(ObjectId),
    FindPostByTitle(Seq<char>),
    ListUsers,
    ListPosts,
    InsertUser(UserStoreView),
    ReplaceUser(ObjectId, UserStoreView),
    DeleteUserByName(Seq<char>),
    InsertPost(PostStoreView),
    ReplacePost(ObjectId, PostStoreView),
    DeletePostByTitle(Seq<char>),
    DeletePostsByAuthor(ObjectId),
}

impl View for Request {
    type V = RequestView;

    open spec fn view(&self) -> RequestView {
        match self {
            Request::FindUserByName(name) => RequestView::FindUserByName(name@),
            Request::FindUserById(id) => RequestView::FindUserById(*id),
            Request::FindPostByTitle(title) => RequestView::FindPostByTitle(title@),
            Request::ListUsers => RequestView::ListUsers,
            Request::ListPosts => RequestView::ListPosts,
            Request::InsertUser(user) => RequestView::InsertUser(user@),
            Request::ReplaceUser(id, user) => RequestView::ReplaceUser(*id, user@),
            Request::DeleteUserByName(name) => RequestView::DeleteUserByName(name@),
            Request::InsertPost(post) => RequestView::InsertPost(post@),
            Request::ReplacePost(id, post) => RequestView::ReplacePost(*id, post@),
            Request::DeletePostByTitle(title) => RequestView::DeletePostByTitle(title@),
            Request::DeletePostsByAuthor(id) => RequestView::DeletePostsByAuthor(*id),
        }
    }
}

impl RequestView {
    /// Whether the request changes what the stores hold.
    pub open spec fn is_write(self) -> bool {
        !(self is FindUserByName || self is FindUserById || self is FindPostByTitle
            || self is ListUsers || self is ListPosts)
    }
}

/// What the stores answer to a [`Request`].
pub enum Reply {
    /// The answer to a search for one account.
    User(Result<Option<UserStoreModel>, String>),
    /// The answer to a search for one post.
    Post(Result<Option<PostStoreModel>, String>),
    /// The answer to a request for every account.
    Users(Result<Vec<UserStoreModel>, String>),
    /// The answer to a request for every post.
    Posts(Result<Vec<PostStoreModel>, String>),
    /// The answer to a write.
    Written(Result<(), String>),
}

/// What a handler does next: it asks the stores something and goes on from
/// the state given once they answered, or it is done.
pub enum Step<S, T> {
    Ask(S, Request),
    Done(Result<T, ApiError>),
}

impl<S, T> Step<S, T> {
    /// Whether the handler is done, with this failure.
    pub open spec fn fails_with(self, failure: ApiErrorView) -> bool {
        self matches Step::Done(Err(e)) && e@ == failure
    }
}

/// An answer that is there with a `Created` status, under a location.
pub struct Created<T> {
    pub location: String,
    pub body: T,
}

/// The report that stands for an answer of another kind than the one asked for.
pub open spec fn unexpected_answer() -> Seq<char> {
    "Unexpected answer from the store."@
}

/// The views of the records in a list, in order.
pub open spec fn records_view<T: View>(records: Vec<T>) -> Seq<T::V> {
    Seq::new(records@.len(), |i: int| records@[i]@)
}

/// The view of a store's answer to a request for every record of a kind.
pub open spec fn listing_view<T: View>(listing: Result<Vec<T>, String>) -> Result<
    Seq<T::V>,
    Seq<char>,
> {
    match listing {
        Ok(records) => Ok(records_view(records)),
        Err(report) => Err(report@),
    }
}

impl Reply {
    /// The answer read as one to a search for an account.
    pub open spec fn user_lookup(self) -> Result<Option<UserStoreView>, Seq<char>> {
        match self {
            Reply::User(lookup) => lookup_view(lookup),
            _ => Err(unexpected_answer()),
        }
    }

    /// The answer read as one to a search for a post.
    pub open spec fn post_lookup(self) -> Result<Option<PostStoreView>, Seq<char>> {
        match self {
            Reply::Post(lookup) => lookup_view(lookup),
            _ => Err(unexpected_answer()),
        }
    }

    /// The answer read as one to a request for every account.
    pub open spec fn user_listing(self) -> Result<Seq<UserStoreView>, Seq<char>> {
        match self {
            Reply::Users(listing) => listing_view(listing),
            _ => Err(unexpected_answer()),
        }
    }

    /// The answer read as one to a request for every post.
    pub open spec fn post_listing(self) -> Result<Seq<PostStoreView>, Seq<char>> {
        match self {
            Reply::Posts(listing) => listing_view(listing),
            _ => Err(unexpected_answer()),
        }
    }

    /// The answer read as one to a write.
    pub open spec fn write_outcome(self) -> Result<(), Seq<char>> {
        match self {
            Reply::Written(outcome) => written_view(outcome),
            _ => Err(unexpected_answer()),
        }
    }

    /// Reads the answer as one to a search for an account; an answer of
    /// another kind counts as a failed search.
    pub fn into_user(self) -> (lookup: Result<Option<UserStoreModel>, String>)
        ensures
            lookup_view(lookup) == self.user_lookup(),
    {
        match self {
            Reply::User(lookup) => lookup,
            _ => Err("Unexpected answer from the store.".to_owned()),
        }
    }

    /// Reads the answer as one to a search for a post; an answer of another
    /// kind counts as a failed search.
    pub fn into_post(self) -> (lookup: Result<Option<PostStoreModel>, String>)
        ensures
            lookup_view(lookup) == self.post_lookup(),
    {
        match self {
            Reply::Post(lookup) => lookup,
            _ => Err("Unexpected answer from the store.".to_owned()),
        }
    }

    /// Reads the answer as one to a request for every account; an answer of
    /// another kind counts as a failed request.
    pub fn into_users(self) -> (listing: Result<Vec<UserStoreModel>, String>)
        ensures
            listing_view(listing) == self.user_listing(),
    {
        match self {
            Reply::Users(listing) => listing,
            _ => Err("Unexpected answer from the store.".to_owned()),
        }
    }

    /// Reads the answer as one to a request for every post; an answer of
    /// another kind counts as a failed request.
    pub fn into_posts(self) -> (listing: Result<Vec<PostStoreModel>, String>)
        ensures
            listing_view(listing) == self.post_listing(),
    {
        match self {
            Reply::Posts(listing) => listing,
            _ => Err("Unexpected answer from the store.".to_owned()),
        }
    }

    /// Reads the answer as one to a write; an answer of another kind counts
    /// as a failed write.
    pub fn into_written(self) -> (outcome: Result<(), String>)
        ensures
            written_view(outcome) == self.write_outcome(),
    {
        match self {
            Reply::Written(outcome) => outcome,
            _ => Err("Unexpected answer from the store.".to_owned()),
        }
    }
}

/// The view of a store's answer to a search for one record: the record, or
/// nothing, or what the store reported when it failed.
pub open spec fn lookup_view<T: View>(lookup: Result<Option<T>, String>) -> Result<
    Option<T::V>,
    Seq<char>,
> {
    match lookup {
        Ok(Some(record)) => Ok(Some(record@)),
        Ok(None) => Ok(None),
        Err(report) => Err(report@),
    }
}

/// The view of a store's answer to a write.
pub open spec fn written_view(outcome: Result<(), String>) -> Result<(), Seq<char>> {
    match outcome {
        Ok(()) => Ok(()),
        Err(report) => Err(report@),
    }
}

/// The view of an operation's outcome.
pub open spec fn result_view<T: View>(outcome: Result<T, ApiError>) -> Result<T::V, ApiErrorView> {
    match outcome {
        Ok(value) => Ok(value@),
        Err(failure) => Err(failure@),
    }
}

/// What a search comes to: the record found; where there is none, not found,
/// with the message given; where the store failed, a server fault that
/// carries the store's report.
pub open spec fn resolved<V>(lookup: Result<Option<V>, Seq<char>>, missing: Seq<char>) -> Result<
    V,
    ApiErrorView,
> {
    match lookup {
        Ok(Some(record)) => Ok(record),
        Ok(None) => Err(ApiErrorView { kind: ErrorKind::NotFound, message: missing }),
        Err(report) => Err(ApiErrorView { kind: ErrorKind::ServerFault, message: report }),
    }
}

/// What a write comes to: done, or a server fault that carries the store's
/// report.
pub open spec fn stored(outcome: Result<(), Seq<char>>) -> Result<(), ApiErrorView> {
    match outcome {
        Ok(()) => Ok(()),
        Err(report) => Err(ApiErrorView { kind: ErrorKind::ServerFault, message: report }),
    }
}

/// Turns the answer to a search into the record or the failure.
pub fn resolve<T: View>(lookup: Result<Option<T>, String>, missing: String) -> (outcome: Result<
    T,
    ApiError,
>)
    ensures
        result_view(outcome) == resolved(lookup_view(lookup), missing@),
        lookup matches Ok(Some(record)) ==> outcome == Ok::<T, ApiError>(record),
{
    match lookup {
        Ok(Some(record)) => Ok(record),
        Ok(None) => Err(ApiError { kind: ErrorKind::NotFound, message: missing }),
        Err(report) => Err(ApiError::server_fault(report)),
    }
}

/// What a search before a create comes to: nothing found lets the create
/// go on; a record found is a conflict, with the message given; a failed
/// search is a server fault that carries the store's report.
pub open spec fn vacant<V>(lookup: Result<Option<V>, Seq<char>>, taken: Seq<char>) -> Result<
    (),
    ApiErrorView,
> {
    match lookup {
        Ok(None) => Ok(()),
        Ok(Some(_)) => Err(ApiErrorView { kind: ErrorKind::Conflict, message: taken }),
        Err(report) => Err(ApiErrorView { kind: ErrorKind::ServerFault, message: report }),
    }
}

/// Turns the answer to a search before a create into leave to go on, or
/// the failure.
pub fn ensure_vacant<T: View>(lookup: Result<Option<T>, String>, taken: String) -> (outcome: Result<
    (),
    ApiError,
>)
    ensures
        result_view(outcome) == vacant(lookup_view(lookup), taken@),
{
    match lookup {
        Ok(None) => Ok(()),
        Ok(Some(_)) => Err(ApiError { kind: ErrorKind::Conflict, message: taken }),
        Err(report) => Err(ApiError::server_fault(report)),
    }
}

/// Turns the answer to a write into success or the failure.
pub fn confirm(outcome: Result<(), String>) -> (confirmed: Result<(), ApiError>)
    ensures
        result_view(confirmed) == stored(written_view(outcome)),
{
    match outcome {
        Ok(()) => Ok(()),
        Err(report) => Err(ApiError::server_fault(report)),
    }
}

} // verus!
