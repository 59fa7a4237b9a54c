//! For every business-logic struct in `datastore`, this module has a matching
//! struct which leaves out the business-sensitive fields.

use crate::datastore::clock::Timestamp;
use crate::datastore::ident::Uuid;
use crate::datastore::structs::{Content, Post};
use vstd::prelude::*;

verus! {

/// A subset of Post that doesn't include business-sensitive fields
#[derive(Debug, PartialEq, Eq)]
pub struct UserFacingPost {
    pub id: Uuid,
    pub created_at: Timestamp,
    pub deleted_at: Option<Timestamp>,
    pub text: String,
    pub content: Content,
}

impl From<Post> for UserFacingPost {
    /// Discards the business-sensitive fields of the post.
    fn from(t: Post) -> (shown: UserFacingPost) {
        UserFacingPost {
            id: t.id,
            created_at: t.created_at,
            deleted_at: t.deleted_at,
            content: t.content,
            text: t.text,
        }
    }
}

impl vstd::std_specs::convert::FromSpecImpl<Post> for UserFacingPost {
    open spec fn obeys_from_spec() -> bool {
        true
    }

    open spec fn from_spec(t: Post) -> UserFacingPost {
        UserFacingPost {
            id: t.id,
            created_at: t.created_at,
            deleted_at: t.deleted_at,
            content: t.content,
            text: t.text,
        }
    }
}

/// What a user sends to write a post.
pub struct WritePostBody {
    pub text: String,
    pub content: Content,
}

/// Filters that users can specify via the API
#[derive(Debug, PartialEq, Eq)]
pub struct PostFilters {
    pub name: Option<String>,
    pub is_deleted: Option<bool>,
    pub existed_at: Option<Timestamp>,
    pub uuid: Option<Uuid>,
    pub text_contains: Option<String>,
    pub limit: u8,
}

impl Default for PostFilters {
    /// No field set, and the default limit.
    fn default() -> (f: PostFilters)
        ensures
            f.name is None,
            f.is_deleted is None,
            f.existed_at is None,
            f.uuid is None,
            f.text_contains is None,
            f.limit == 100,
    {
        PostFilters {
            name: None,
            is_deleted: None,
            existed_at: None,
            uuid: None,
            text_contains: None,
            limit: crate::datastore::postfilters::default_limit(),
        }
    }
}

impl PostFilters {
    /// The datastore filter for these filters and the owner `user_id`.
    pub open spec fn datastore_filters(self, user_id: Uuid) -> crate::datastore::postfilters::PostFilters {
        crate::datastore::postfilters::PostFilters {
            user_id: Some(user_id),
            is_deleted: self.is_deleted,
            existed_at: self.existed_at,
            text_contains: self.text_contains,
            id: self.uuid,
            limit: self.limit,
        }
    }

    /// Users are never able to name an owner as a filter in the API, nor to
    /// query posts they don't own. API filters have to be combined with the
    /// owner, which comes from the URL path or the user's credentials,
    /// before the datastore can execute them: the result always carries
    /// `user_id`, and nothing of the caller's can take its place.
    pub fn into_datastore_filters(self, user_id: Uuid) -> (filters:
        crate::datastore::postfilters::PostFilters)
        ensures
            filters == self.datastore_filters(user_id),
            filters.user_id == Some(user_id),
    {
        crate::datastore::postfilters::PostFilters {
            user_id: Some(user_id),
            is_deleted: self.is_deleted,
            existed_at: self.existed_at,
            text_contains: self.text_contains,
            id: self.uuid,
            limit: self.limit,
        }
    }
}

} // verus!
