//! Ways to filter posts based on their fields. A field that is unset applies
//! no filter; a field that is set leaves out the posts that do not match it.

use crate::datastore::clock::Timestamp;
use crate::datastore::ident::Uuid;
use vstd::prelude::*;

verus! {

/// Filters that can be applied to queries on the datastore.
#[derive(Debug, PartialEq, Eq)]
pub struct PostFilters {
    pub is_deleted: Option<bool>,
    pub text_contains: Option<String>,
    pub existed_at: Option<Timestamp>,
    pub id: Option<Uuid>,
    pub user_id: Option<Uuid>,
    /// Maximum number of posts to let match the filter
    pub limit: u8,
}

/// The limit of a filter that names none.
pub fn default_limit() -> (limit: u8)
    ensures
        limit == 100,
{
    100
}

impl PostFilters {
    /// No field is set: the filter lets every post through.
    pub open spec fn is_unset(&self) -> bool {
        &&& self.is_deleted is None
        &&& self.text_contains is None
        &&& self.existed_at is None
        &&& self.id is None
        &&& self.user_id is None
    }

    /// The filter with no field set and the given limit.
    pub open spec fn unset(limit: u8) -> PostFilters {
        PostFilters {
            is_deleted: None,
            text_contains: None,
            existed_at: None,
            id: None,
            user_id: None,
            limit,
        }
    }

    /// This filter with every field unset but `user_id`.
    pub open spec fn only_user_id(&self) -> PostFilters {
        PostFilters { user_id: self.user_id, ..PostFilters::unset(self.limit) }
    }

    /// This filter with every field unset but `id`.
    pub open spec fn only_id(&self) -> PostFilters {
        PostFilters { id: self.id, ..PostFilters::unset(self.limit) }
    }

    /// This filter with every field unset but `is_deleted`.
    pub open spec fn only_is_deleted(&self) -> PostFilters {
        PostFilters { is_deleted: self.is_deleted, ..PostFilters::unset(self.limit) }
    }

    /// This filter with every field unset but `text_contains`.
    pub open spec fn only_text_contains(&self) -> PostFilters {
        PostFilters { text_contains: self.text_contains, ..PostFilters::unset(self.limit) }
    }

    /// This filter with every field unset but `existed_at`.
    pub open spec fn only_existed_at(&self) -> PostFilters {
        PostFilters { existed_at: self.existed_at, ..PostFilters::unset(self.limit) }
    }
}

impl Default for PostFilters {
    /// The filter with no field set and the default limit.
    fn default() -> (f: PostFilters)
        ensures
            f == PostFilters::unset(100),
    {
        PostFilters {
            is_deleted: None,
            text_contains: None,
            existed_at: None,
            id: None,
            user_id: None,
            limit: default_limit(),
        }
    }
}

} // verus!
