//! The records that the datastore keeps.

use crate::datastore::clock::Timestamp;
use crate::datastore::ident::Uuid;
use crate::datastore::postfilters::PostFilters;
use crate::datastore::substring::{contains, is_substring};
use vstd::prelude::*;

verus! {

/// A user of the website.
#[derive(Debug, PartialEq, Eq, Hash)]
pub struct User {
    pub id: Uuid,
    pub created_at: Timestamp,
    pub deleted_at: Option<Timestamp>,
    pub name: String,
}

impl User {
    /// Has this user been deleted?
    pub fn is_deleted(&self) -> (r: bool)
        ensures
            r == (self.deleted_at is Some),
    {
        self.deleted_at.is_some()
    }
}

/// Parameters for the statement which inserts new users.
pub struct NewUser {
    pub name: String,
}

/// What a post carries besides its text. So far a post carries nothing
/// more.
#[derive(Debug, Clone, Copy, PartialEq, Eq, Hash, Structural)]
pub enum Content {
    Empty,
}

/// A post from a user
#[derive(Debug, PartialEq, Eq, Hash)]
pub struct Post {
    pub id: Uuid,
    pub created_at: Timestamp,
    pub deleted_at: Option<Timestamp>,
    pub content: Content,
    pub text: String,
    pub user_id: Uuid,
}

/// Parameters for the statement which inserts new posts.
pub struct NewPost {
    pub content: Content,
    pub text: String,
    pub user_id: Uuid,
}

impl Post {
    /// The post is soft-deleted: it carries the instant of its deletion.
    pub open spec fn deleted(&self) -> bool {
        self.deleted_at is Some
    }

    /// The post existed at `t`: it was created strictly before `t` and, if it
    /// has been deleted, that happened strictly after `t`.
    pub open spec fn existed_at(&self, t: Timestamp) -> bool {
        &&& self.created_at.before(t)
        &&& self.deleted_at matches Some(d) ==> t.before(d)
    }

    /// The post passes every field that `filters` sets. An unset field passes
    /// every post.
    pub open spec fn matches_spec(&self, filters: &PostFilters) -> bool {
        &&& filters.user_id matches Some(user_id) ==> user_id == self.user_id
        &&& filters.id matches Some(id) ==> id == self.id
        &&& filters.is_deleted matches Some(is_deleted) ==> is_deleted == self.deleted()
        &&& filters.text_contains matches Some(substring) ==> is_substring(
            self.text@,
            substring@,
        )
        &&& filters.existed_at matches Some(t) ==> self.existed_at(t)
    }

    /// Has this post been deleted?
    pub fn is_deleted(&self) -> (r: bool)
        ensures
            r == self.deleted(),
    {
        self.deleted_at.is_some()
    }

    /// Does this post match all specified filters?
    pub fn matches(&self, filters: &PostFilters) -> (r: bool)
        ensures
            r == self.matches_spec(filters),
    {
        if let Some(user_id) = filters.user_id {
            if user_id != self.user_id {
                return false;
            }
        }
        if let Some(id) = filters.id {
            if id != self.id {
                return false;
            }
        }
        if let Some(is_deleted) = filters.is_deleted {
            if is_deleted != self.is_deleted() {
                return false;
            }
        }
        if let Some(substring) = &filters.text_contains {
            if !contains(self.text.as_str(), substring.as_str()) {
                return false;
            }
        }
        if let Some(existed_at) = filters.existed_at {
            if let Some(deleted_at) = self.deleted_at {
                if !(self.created_at.is_before(&existed_at) && existed_at.is_before(&deleted_at)) {
                    return false;
                }
            } else if !self.created_at.is_before(&existed_at) {
                return false;
            }
        }
        true
    }
}

/// A post matches a filter exactly when it matches each field of the filter
/// taken alone, and a field taken alone asks for what is stated here. The
/// order in which the fields are looked at plays no part.
pub proof fn lemma_matches_is_conjunction(post: Post, filters: PostFilters)
    ensures
        post.matches_spec(&filters) == {
            &&& post.matches_spec(&filters.only_user_id())
            &&& post.matches_spec(&filters.only_id())
            &&& post.matches_spec(&filters.only_is_deleted())
            &&& post.matches_spec(&filters.only_text_contains())
            &&& post.matches_spec(&filters.only_existed_at())
        },
        post.matches_spec(&filters.only_user_id()) == (filters.user_id matches Some(user_id)
            ==> post.user_id == user_id),
        post.matches_spec(&filters.only_id()) == (filters.id matches Some(id) ==> post.id == id),
        post.matches_spec(&filters.only_is_deleted()) == (filters.is_deleted matches Some(flag)
            ==> flag == (post.deleted_at is Some)),
        post.matches_spec(&filters.only_text_contains()) == (filters.text_contains matches Some(
            substring,
        ) ==> is_substring(post.text@, substring@)),
        post.matches_spec(&filters.only_existed_at()) == (filters.existed_at matches Some(t)
            ==> post.existed_at(t)),
{
}

/// A filter with no field set matches every post.
pub proof fn lemma_unset_matches_every_post(post: Post, filters: PostFilters)
    requires
        filters.is_unset(),
    ensures
        post.matches_spec(&filters),
{
}

/// A post existed at an instant exactly when the instant lies strictly
/// between its creation and its deletion. Both ends are left out: at the
/// instant of its creation the post did not exist yet, and at the instant of
/// its deletion it existed no more. An active post has existed at every
/// instant after its creation.
pub proof fn lemma_temporal_boundary(post: Post, t: Timestamp)
    ensures
        post.deleted_at is None ==> post.existed_at(t) == post.created_at.before(t),
        post.deleted_at matches Some(deleted_at) ==> post.existed_at(t) == (
        post.created_at.before(t) && t.before(deleted_at)),
        !post.existed_at(post.created_at),
        post.deleted_at matches Some(deleted_at) ==> !post.existed_at(deleted_at),
        post.deleted_at matches Some(deleted_at) ==> (deleted_at.before(t) ==> !post.existed_at(
            t,
        )),
{
}

impl Clone for Post {
    fn clone(&self) -> (copy: Post)
        ensures
            copy == *self,
    {
        Post {
            id: self.id,
            created_at: self.created_at,
            deleted_at: self.deleted_at,
            content: self.content,
            text: self.text.clone(),
            user_id: self.user_id,
        }
    }
}

} // verus!
