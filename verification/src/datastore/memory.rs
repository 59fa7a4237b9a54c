//! A store that keeps its posts in memory.

use crate::datastore::clock::{now, Timestamp};
use crate::datastore::ident::{new_v4, Uuid};
use crate::datastore::model::{
    ascending, created, distinct_ids, found, fresh_post, has_id, lemma_created, lemma_filter_cut,
    lemma_filter_push, lemma_found_at, lemma_listed, lemma_soft_deleted, lemma_soft_deleted_at,
    matcher, slot, soft_deleted,
};
use crate::datastore::postfilters::PostFilters;
use crate::datastore::postgres::post_store::{select_where, selected, Term};
use crate::datastore::structs::{NewPost, Post};
use crate::datastore::Client;
use crate::twoface::{Describe, ExternalError, Fallible};
use vstd::prelude::*;

verus! {

/// Posts kept in a vector, sorted by the instant of their creation, with no
/// identity used twice.
#[derive(Debug)]
pub struct MemoryStore {
    posts: Vec<Post>,
}

/// Tells whether the posts stand in the order of their creation.
fn is_ascending(posts: &Vec<Post>) -> (r: bool)
    ensures
        r == ascending(posts@),
{
    let mut j: usize = 1;
    while j < posts.len()
        invariant
            1 <= j,
            forall|a: int, b: int|
                0 <= a < b < j && b < posts.len() ==> (#[trigger] posts@[a]).created_at.not_after(
                    (#[trigger] posts@[b]).created_at,
                ),
        decreases posts.len() - j,
    {
        if posts[j].created_at.is_before(&posts[j - 1].created_at) {
            return false;
        }
        proof {
            assert forall|a: int, b: int| 0 <= a < b < j + 1 && b < posts.len() implies (
            #[trigger] posts@[a]).created_at.not_after((#[trigger] posts@[b]).created_at) by {
                if b == j && a < j - 1 {
                    assert(posts@[a].created_at.not_after(posts@[j - 1].created_at));
                }
            }
        }
        j += 1;
    }
    true
}

/// Tells whether no two of the posts share an identity.
fn has_distinct_ids(posts: &Vec<Post>) -> (r: bool)
    ensures
        r == distinct_ids(posts@),
{
    let mut j: usize = 0;
    while j < posts.len()
        invariant
            j <= posts.len(),
            forall|a: int, b: int|
                0 <= a < b < j ==> (#[trigger] posts@[a]).id != (#[trigger] posts@[b]).id,
        decreases posts.len() - j,
    {
        let mut i: usize = 0;
        while i < j
            invariant
                i <= j < posts.len(),
                forall|a: int| 0 <= a < i ==> (#[trigger] posts@[a]).id != posts@[j as int].id,
            decreases j - i,
        {
            if posts[i].id == posts[j].id {
                return false;
            }
            i += 1;
        }
        j += 1;
    }
    true
}

impl View for MemoryStore {
    type V = Seq<Post>;

    closed spec fn view(&self) -> Seq<Post> {
        self.posts@
    }
}

impl MemoryStore {
    /// The posts are sorted by creation and their identities are distinct.
    pub open spec fn valid(&self) -> bool {
        &&& ascending(self@)
        &&& distinct_ids(self@)
    }

    /// A store without posts.
    pub fn new() -> (store: MemoryStore)
        ensures
            store@ == Seq::<Post>::empty(),
            store.valid(),
    {
        MemoryStore { posts: Vec::new() }
    }

    /// The number of posts in the store, deleted ones included.
    pub fn len(&self) -> (n: usize)
        ensures
            n == self@.len(),
    {
        self.posts.len()
    }

    /// Replaces the posts of the store by `posts`, if these stand in the
    /// order of their creation and no two of them share an identity.
    /// Otherwise the store stays as it was.
    pub fn set_posts(&mut self, posts: Vec<Post>) -> (accepted: bool)
        requires
            old(self).valid(),
        ensures
            final(self).valid(),
            accepted == (ascending(posts@) && distinct_ids(posts@)),
            final(self)@ == if accepted {
                posts@
            } else {
                old(self)@
            },
    {
        if is_ascending(&posts) && has_distinct_ids(&posts) {
            self.posts = posts;
            true
        } else {
            false
        }
    }

    /// Answers a query as a query-capable backend would: with the posts of
    /// which every term of the `WHERE` clause holds, oldest first, up to
    /// `limit`.
    pub fn query(&self, wheres: &Vec<Term>, limit: u8) -> (r: Vec<Post>)
        ensures
            r@ == selected(self@, wheres@, limit),
    {
        select_where(&self.posts, wheres, limit)
    }

    /// Tells whether some post carries the identity `id`.
    pub fn holds_id(&self, id: Uuid) -> (r: bool)
        ensures
            r == has_id(self@, id),
    {
        let mut i: usize = 0;
        while i < self.posts.len()
            invariant
                i <= self.posts.len(),
                forall|j: int| 0 <= j < i ==> (#[trigger] self.posts@[j]).id != id,
            decreases self.posts.len() - i,
        {
            if self.posts[i].id == id {
                return true;
            }
            i += 1;
        }
        false
    }

    /// The place of the first post with that identity and owner, or the
    /// number of posts where there is none.
    fn position(&self, user_id: Uuid, post_id: Uuid) -> (i: usize)
        ensures
            i <= self@.len(),
            forall|j: int|
                0 <= j < i ==> !((#[trigger] self@[j]).id == post_id && self@[j].user_id
                    == user_id),
            i < self@.len() ==> self@[i as int].id == post_id && self@[i as int].user_id
                == user_id,
    {
        let mut i: usize = 0;
        while i < self.posts.len()
            invariant
                i <= self.posts.len(),
                forall|j: int|
                    0 <= j < i ==> !((#[trigger] self.posts@[j]).id == post_id
                        && self.posts@[j].user_id == user_id),
            decreases self.posts.len() - i,
        {
            if self.posts[i].id == post_id && self.posts[i].user_id == user_id {
                return i;
            }
            i += 1;
        }
        i
    }

    /// Creates a post with the given identity and instant of creation. An
    /// identity that is in use already is refused, and the store stays as it
    /// was. The new post goes behind the posts that were not created after
    /// it, so the store stays sorted even if the instants do not arrive in
    /// order.
    pub fn insert_post(&mut self, id: Uuid, created_at: Timestamp, new_post: NewPost) -> (r:
        Option<Post>)
        requires
            old(self).valid(),
        ensures
            final(self).valid(),
            match r {
                Some(post) => {
                    &&& !has_id(old(self)@, id)
                    &&& post == fresh_post(id, created_at, new_post)
                    &&& final(self)@ == created(old(self)@, post)
                },
                None => has_id(old(self)@, id) && final(self)@ == old(self)@,
            },
    {
        if self.holds_id(id) {
            return None;
        }
        let post = Post {
            id,
            created_at,
            deleted_at: None,
            content: new_post.content,
            text: new_post.text,
            user_id: new_post.user_id,
        };
        let mut i: usize = self.posts.len();
        assert(self.posts@.take(i as int) =~= self.posts@);
        while i > 0 && created_at.is_before(&self.posts[i - 1].created_at)
            invariant
                i <= self.posts.len(),
                slot(self.posts@, created_at) == slot(self.posts@.take(i as int), created_at),
            decreases i,
        {
            proof {
                assert(self.posts@.take(i as int).drop_last() =~= self.posts@.take(i - 1));
            }
            i -= 1;
        }
        proof {
            lemma_created(self.posts@, post);
        }
        let copy = post.clone();
        self.posts.insert(i, post);
        Some(copy)
    }

    /// Soft-deletes the post of that owner and identity at the instant `at`.
    /// An active post gets `at` as the instant of its deletion. A post that
    /// is deleted already keeps the instant it has. Either way the post is
    /// returned as it stands afterwards; where the owner has no post of that
    /// identity, nothing is returned and nothing changes.
    pub fn delete_post_at(&mut self, user_id: Uuid, post_id: Uuid, at: Timestamp) -> (r: Option<
        Post,
    >)
        requires
            old(self).valid(),
        ensures
            final(self).valid(),
            final(self)@ == soft_deleted(old(self)@, user_id, post_id, at),
            r == found(final(self)@, user_id, post_id),
            r is Some <==> found(old(self)@, user_id, post_id) is Some,
            r matches Some(post) ==> post.deleted_at is Some,
    {
        let i = self.position(user_id, post_id);
        proof {
            lemma_soft_deleted(self@, user_id, post_id, at);
            lemma_soft_deleted_at(self@, user_id, post_id, at, i as int);
            lemma_found_at(self@, user_id, post_id, i as int);
            lemma_found_at(soft_deleted(self@, user_id, post_id, at), user_id, post_id, i as int);
        }
        if i >= self.posts.len() {
            return None;
        }
        if self.posts[i].deleted_at.is_none() {
            self.posts[i].deleted_at = Some(at);
        }
        Some(self.posts[i].clone())
    }
}

impl Default for MemoryStore {
    fn default() -> (store: MemoryStore)
        ensures
            store@ == Seq::<Post>::empty(),
            store.valid(),
    {
        MemoryStore::new()
    }
}

impl Client for MemoryStore {
    open spec fn posts(&self) -> Seq<Post> {
        self@
    }

    open spec fn wf(&self) -> bool {
        self.valid()
    }

    /// Draws an identity and reads the clock, then creates the post with
    /// them. Fails only if the identity drawn is in use already, which an
    /// empty store rules out; the failure is a server error.
    fn new_post(&mut self, new_post: NewPost) -> (r: Fallible<Post>)
        ensures
            old(self)@.len() == 0 ==> r is Ok,
            r matches Err(err) ==> {
                &&& old(self)@.len() > 0
                &&& err.external == ExternalError::generic()
                &&& err.internal@ == "identity drawn for a new post is already in use"@
            },
    {
        let id = new_v4();
        let created_at = now();
        match self.insert_post(id, created_at, new_post) {
            Some(post) => Ok(post),
            None => Err("identity drawn for a new post is already in use".describe(
                ExternalError::default(),
            )),
        }
    }

    /// Never fails.
    fn list_posts(&self, filters: PostFilters) -> (r: Fallible<Vec<Post>>)
        ensures
            r is Ok,
    {
        let ghost pred = matcher(filters);
        let limit = filters.limit as usize;
        let mut results: Vec<Post> = Vec::new();
        let mut i: usize = 0;
        while i < self.posts.len() && results.len() < limit
            invariant
                i <= self.posts.len(),
                limit == filters.limit,
                pred == matcher(filters),
                results@ == self.posts@.take(i as int).filter(pred),
                results.len() <= limit,
            decreases self.posts.len() - i,
        {
            proof {
                lemma_filter_push(self.posts@.take(i as int), self.posts@[i as int], pred);
                assert(self.posts@.take(i + 1) =~= self.posts@.take(i as int).push(
                    self.posts@[i as int],
                ));
            }
            if self.posts[i].matches(&filters) {
                results.push(self.posts[i].clone());
            }
            i += 1;
        }
        proof {
            lemma_filter_cut(self.posts@, pred, i as int, limit as int);
            lemma_listed(self@, filters);
        }
        Ok(results)
    }

    /// Never fails.
    fn find_post(&self, user_id: Uuid, post_id: Uuid) -> (r: Fallible<Option<Post>>)
        ensures
            r is Ok,
    {
        let i = self.position(user_id, post_id);
        proof {
            lemma_found_at(self@, user_id, post_id, i as int);
        }
        if i < self.posts.len() {
            Ok(Some(self.posts[i].clone()))
        } else {
            Ok(None)
        }
    }

    /// Reads the clock, then soft-deletes at that instant. Never fails.
    fn delete_post(&mut self, user_id: Uuid, post_id: Uuid) -> (r: Fallible<Option<Post>>)
        ensures
            r is Ok,
    {
        let at = now();
        Ok(self.delete_post_at(user_id, post_id, at))
    }
}

} // verus!
