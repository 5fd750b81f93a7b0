//! Posts: what is stored, what is accepted from clients and what is shown.

use vstd::prelude::*;
use mongodb::bson::oid::ObjectId;
use crate::errors::{ApiError, ApiErrorView};
use crate::models::user::{UserReadBriefModel, UserReadBriefView, UserStoreModel, UserStoreView};
use crate::oid::{fresh_id, hex_text, id_hex, object_id_bytes};
use crate::store::{lookup_view, resolve, resolved, result_view};

verus! {

/// A post as a client writes it.
pub struct PostWriteModel {
    pub title: String,
    pub content: String,
}

/// The short public form of a post; the author is shown by name.
pub struct PostReadBriefModel {
    pub _id: String,
    pub title: String,
    pub author: String,
}

/// The full public form of a post.
pub struct PostReadFullModel {
    pub _id: String,
    pub title: String,
    pub content: String,
    pub author: UserReadBriefModel,
}

/// A post as the store keeps it; `author` refers to the owning account.
pub struct PostStoreModel {
    pub _id: ObjectId,
    pub title: String,
    pub content: String,
    pub author: ObjectId,
}

/// What a [`PostWriteModel`] holds, as mathematical values.
pub ghost struct PostWriteView {
    pub title: Seq<char>,
    pub content: Seq<char>,
}

/// What a [`PostReadBriefModel`] holds, as mathematical values.
pub ghost struct PostReadBriefView {
    pub id: Seq<char>,
    pub title: Seq<char>,
    pub author: Seq<char>,
}

/// What a [`PostReadFullModel`] holds, as mathematical values.
pub ghost struct PostReadFullView {
    pub id: Seq<char>,
    pub title: Seq<char>,
    pub content: Seq<char>,
    pub author: UserReadBriefView,
}

/// What a [`PostStoreModel`] holds, as mathematical values.
pub ghost struct PostStoreView {
    pub id: ObjectId,
    pub title: Seq<char>,
    pub content: Seq<char>,
    pub author: ObjectId,
}

impl View for PostWriteModel {
    type V = PostWriteView;

    open spec fn view(&self) -> PostWriteView {
        PostWriteView { title: self.title@, content: self.content@ }
    }
}

impl View for PostReadBriefModel {
    type V = PostReadBriefView;

    open spec fn view(&self) -> PostReadBriefView {
        PostReadBriefView { id: self._id@, title: self.title@, author: self.author@ }
    }
}

impl View for PostReadFullModel {
    type V = PostReadFullView;

    open spec fn view(&self) -> PostReadFullView {
        PostReadFullView {
            id: self._id@,
            title: self.title@,
            content: self.content@,
            author: self.author@,
        }
    }
}

impl View for PostStoreModel {
    type V = PostStoreView;

    open spec fn view(&self) -> PostStoreView {
        PostStoreView {
            id: self._id,
            title: self.title@,
            content: self.content@,
            author: self.author,
        }
    }
}

/// The message of a failed search for a post's author.
pub open spec fn author_missing() -> Seq<char> {
    "User not found."@
}

impl PostStoreView {
    /// The stored form of a written post under an identifier, owned by an account.
    pub open spec fn of(post: PostWriteView, id: ObjectId, author: UserStoreView) -> PostStoreView {
        PostStoreView { id, title: post.title, content: post.content, author: author.id }
    }

    /// The short public form, given the owning account.
    pub open spec fn brief(self, author: UserStoreView) -> PostReadBriefView {
        PostReadBriefView {
            id: hex_text(object_id_bytes(self.id)),
            title: self.title,
            author: author.name,
        }
    }

    /// The full public form, given the owning account.
    pub open spec fn full(self, author: UserStoreView) -> PostReadFullView {
        PostReadFullView {
            id: hex_text(object_id_bytes(self.id)),
            title: self.title,
            content: self.content,
            author: author.brief(),
        }
    }
}

impl PostStoreModel {
    /// Resolves a post's owner from the answer to a search for the account:
    /// a missing account is not found, a failed search is a server fault.
    pub fn query_author(lookup: Result<Option<UserStoreModel>, String>) -> (author: Result<
        UserStoreModel,
        ApiError,
    >)
        ensures
            result_view(author) == resolved(lookup_view(lookup), author_missing()),
            lookup matches Ok(Some(record)) ==> author == Ok::<UserStoreModel, ApiError>(record),
    {
        resolve(lookup, "User not found.".to_owned())
    }

    /// The record for a new post under a fresh identifier, owned by the
    /// account that a search by the author's name found.
    pub fn new(post: PostWriteModel, author: Result<Option<UserStoreModel>, String>) -> (stored:
        Result<Self, ApiError>)
        ensures
            match resolved(lookup_view(author), author_missing()) {
                Ok(owner) => stored matches Ok(record) && record@ == PostStoreView::of(
                    post@,
                    record._id,
                    owner,
                ),
                Err(failure) => result_view(stored) == Err::<PostStoreView, ApiErrorView>(failure),
            },
    {
        Self::from(post, fresh_id(), author)
    }

    /// The record that replaces a post's data under the identifier it
    /// already has, owned by the account that a search by the author's name
    /// found.
    pub fn from(post: PostWriteModel, id: ObjectId, author: Result<Option<UserStoreModel>, String>)
        -> (stored: Result<Self, ApiError>)
        ensures
            match resolved(lookup_view(author), author_missing()) {
                Ok(owner) => result_view(stored) == Ok::<PostStoreView, ApiErrorView>(
                    PostStoreView::of(post@, id, owner),
                ),
                Err(failure) => result_view(stored) == Err::<PostStoreView, ApiErrorView>(failure),
            },
    {
        match Self::query_author(author) {
            Ok(owner) => Ok(
                Self { _id: id, title: post.title, content: post.content, author: owner._id },
            ),
            Err(failure) => Err(failure),
        }
    }

    /// A copy of this record.
    pub fn duplicate(&self) -> (copy: Self)
        ensures
            copy@ == self@,
    {
        Self {
            _id: self._id,
            title: self.title.clone(),
            content: self.content.clone(),
            author: self.author,
        }
    }

    /// The short public form of this post, given the answer to a search for
    /// its owner by identifier.
    pub fn brief(self, author: Result<Option<UserStoreModel>, String>) -> (shown: Result<
        PostReadBriefModel,
        ApiError,
    >)
        ensures
            match resolved(lookup_view(author), author_missing()) {
                Ok(owner) => result_view(shown) == Ok::<PostReadBriefView, ApiErrorView>(
                    self@.brief(owner),
                ),
                Err(failure) => result_view(shown) == Err::<PostReadBriefView, ApiErrorView>(
                    failure,
                ),
            },
    {
        match Self::query_author(author) {
            Ok(owner) => Ok(
                PostReadBriefModel {
                    _id: id_hex(&self._id),
                    title: self.title,
                    author: owner.name,
                },
            ),
            Err(failure) => Err(failure),
        }
    }

    /// The full public form of this post, given the answer to a search for
    /// its owner by identifier.
    pub fn to(self, author: Result<Option<UserStoreModel>, String>) -> (shown: Result<
        PostReadFullModel,
        ApiError,
    >)
        ensures
            match resolved(lookup_view(author), author_missing()) {
                Ok(owner) => result_view(shown) == Ok::<PostReadFullView, ApiErrorView>(
                    self@.full(owner),
                ),
                Err(failure) => result_view(shown) == Err::<PostReadFullView, ApiErrorView>(
                    failure,
                ),
            },
    {
        match Self::query_author(author) {
            Ok(owner) => Ok(
                PostReadFullModel {
                    _id: id_hex(&self._id),
                    title: self.title,
                    content: self.content,
                    author: owner.brief(),
                },
            ),
            Err(failure) => Err(failure),
        }
    }
}

} // verus!
