//! Posts, the filters over them, and the stores that hold them.

pub mod clock;
pub mod ident;
pub mod memory;
pub mod model;
pub mod postfilters;
pub mod postgres;
pub mod structs;
pub mod substring;

use crate::datastore::ident::Uuid;
use crate::datastore::model::{
    ascending, created, found, fresh_post, has_id, listed, soft_deleted,
};
use crate::datastore::postfilters::PostFilters;
use crate::datastore::structs::{NewPost, Post};
use crate::twoface::Fallible;
use vstd::prelude::*;

verus! {

/// The interface for storing post data.
///
/// A post is created active and can be soft-deleted once; nothing removes a
/// post or brings a deleted one back. Every operation either does what is
/// stated here of the store's contents or fails and leaves them as they were.
/// That a post is not there is no failure: `find_post` and `delete_post`
/// then give `None`.
pub trait Client {
    /// The posts that the store holds, in the order of their creation.
    spec fn posts(&self) -> Seq<Post>;

    /// The store is in order.
    spec fn wf(&self) -> bool;

    /// Creates a post with a fresh identity, created now and active.
    fn new_post(&mut self, new_post: NewPost) -> (r: Fallible<Post>)
        requires
            old(self).wf(),
        ensures
            final(self).wf(),
            match r {
                Ok(post) => {
                    &&& post == fresh_post(post.id, post.created_at, new_post)
                    &&& !has_id(old(self).posts(), post.id)
                    &&& final(self).posts() == created(old(self).posts(), post)
                },
                Err(_) => final(self).posts() == old(self).posts(),
            },
    ;

    /// Lists the posts that match the filter, oldest first, up to the
    /// filter's limit.
    fn list_posts(&self, filters: PostFilters) -> (r: Fallible<Vec<Post>>)
        requires
            self.wf(),
        ensures
            r matches Ok(posts) ==> {
                &&& posts@ == listed(self.posts(), filters)
                &&& posts.len() <= filters.limit
                &&& ascending(posts@)
            },
    ;

    /// Finds a post by its owner and its identity together, never by its
    /// identity alone.
    fn find_post(&self, user_id: Uuid, post_id: Uuid) -> (r: Fallible<Option<Post>>)
        requires
            self.wf(),
        ensures
            r matches Ok(post) ==> {
                &&& post == found(self.posts(), user_id, post_id)
                &&& post matches Some(p) ==> p.id == post_id && p.user_id == user_id
            },
    ;

    /// Soft-deletes the post of that owner and identity now, if it is there
    /// and active, and gives the post as it then stands.
    fn delete_post(&mut self, user_id: Uuid, post_id: Uuid) -> (r: Fallible<Option<Post>>)
        requires
            old(self).wf(),
        ensures
            final(self).wf(),
            match r {
                Ok(post) => {
                    &&& exists|at: crate::datastore::clock::Timestamp|
                        final(self).posts() == #[trigger] soft_deleted(
                            old(self).posts(),
                            user_id,
                            post_id,
                            at,
                        )
                    &&& post == found(final(self).posts(), user_id, post_id)
                    &&& post is Some <==> found(old(self).posts(), user_id, post_id) is Some
                    &&& post matches Some(p) ==> p.deleted_at is Some
                },
                Err(_) => final(self).posts() == old(self).posts(),
            },
    ;
}

} // verus!
