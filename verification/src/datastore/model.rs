//! The contents of a post store as a sequence of posts, and what each of the
//! four operations makes of it.
//!
//! Every store states its operations over these functions, so that an
//! in-memory store and a query-backed one are held to the same results: the
//! same posts, in the same order, under the same cap.

use crate::datastore::clock::Timestamp;
use crate::datastore::ident::Uuid;
use crate::datastore::postfilters::PostFilters;
use crate::datastore::structs::{NewPost, Post};
use vstd::prelude::*;

verus! {

/// The posts stand in the order of their creation: none was created before
/// one that stands earlier in the sequence.
pub open spec fn ascending(posts: Seq<Post>) -> bool {
    forall|i: int, j: int|
        0 <= i < j < posts.len() ==> (#[trigger] posts[i]).created_at.not_after(
            (#[trigger] posts[j]).created_at,
        )
}

/// No two posts share an identity.
pub open spec fn distinct_ids(posts: Seq<Post>) -> bool {
    forall|i: int, j: int|
        0 <= i < j < posts.len() ==> (#[trigger] posts[i]).id != (#[trigger] posts[j]).id
}

/// Some post carries the identity `id`.
pub open spec fn has_id(posts: Seq<Post>, id: Uuid) -> bool {
    exists|i: int| 0 <= i < posts.len() && (#[trigger] posts[i]).id == id
}

/// The filter as a predicate on posts.
pub open spec fn matcher(filters: PostFilters) -> spec_fn(Post) -> bool {
    |post: Post| post.matches_spec(&filters)
}

/// The first `limit` of `hits`, or all of them where there are no more.
pub open spec fn capped(hits: Seq<Post>, limit: u8) -> Seq<Post> {
    if hits.len() <= limit {
        hits
    } else {
        hits.take(limit as int)
    }
}

/// What `list` returns: the posts that the filter matches, in the order in
/// which they stand, cut off after `filters.limit` of them.
pub open spec fn listed(posts: Seq<Post>, filters: PostFilters) -> Seq<Post> {
    capped(posts.filter(matcher(filters)), filters.limit)
}

/// The filter that asks for one post by its identity and its owner together.
pub open spec fn owned(user_id: Uuid, id: Uuid) -> PostFilters {
    PostFilters {
        is_deleted: None,
        text_contains: None,
        existed_at: None,
        id: Some(id),
        user_id: Some(user_id),
        limit: 1,
    }
}

/// What `get` returns: the one post that `list` gives for the identity and
/// the owner together, if it gives one.
pub open spec fn found(posts: Seq<Post>, user_id: Uuid, id: Uuid) -> Option<Post> {
    let hits = listed(posts, owned(user_id, id));
    if hits.len() == 0 {
        None
    } else {
        Some(hits[0])
    }
}

/// The post that `create` makes of its parameters, an identity and an
/// instant. It starts active.
pub open spec fn fresh_post(id: Uuid, at: Timestamp, new_post: NewPost) -> Post {
    Post {
        id,
        created_at: at,
        deleted_at: None,
        content: new_post.content,
        text: new_post.text,
        user_id: new_post.user_id,
    }
}

/// Where a post created at `t` goes: behind every post that was not created
/// after `t`.
pub open spec fn slot(posts: Seq<Post>, t: Timestamp) -> int
    decreases posts.len(),
{
    if posts.len() > 0 && t.before(posts.last().created_at) {
        slot(posts.drop_last(), t)
    } else {
        posts.len() as int
    }
}

/// The contents after `post` was created: every earlier post, and `post` in
/// its slot.
pub open spec fn created(posts: Seq<Post>, post: Post) -> Seq<Post> {
    posts.insert(slot(posts, post.created_at), post)
}

/// What a soft delete of the post `id` of `user_id` at `at` makes of `post`.
/// Only that post changes, only while it is active, and only in its
/// `deleted_at`; a post that is deleted already stays as it is.
pub open spec fn retired(post: Post, user_id: Uuid, id: Uuid, at: Timestamp) -> Post {
    if post.id == id && post.user_id == user_id && post.deleted_at is None {
        Post {
            id: post.id,
            created_at: post.created_at,
            deleted_at: Some(at),
            content: post.content,
            text: post.text,
            user_id: post.user_id,
        }
    } else {
        post
    }
}

/// The contents after the post `id` of `user_id` was soft-deleted at `at`.
pub open spec fn soft_deleted(posts: Seq<Post>, user_id: Uuid, id: Uuid, at: Timestamp) -> Seq<
    Post,
> {
    posts.map_values(|post: Post| retired(post, user_id, id, at))
}

/// Filtering a sequence with one more element at its end.
pub proof fn lemma_filter_push(posts: Seq<Post>, post: Post, pred: spec_fn(Post) -> bool)
    ensures
        posts.push(post).filter(pred) == if pred(post) {
            posts.filter(pred).push(post)
        } else {
            posts.filter(pred)
        },
{
    reveal(Seq::filter);
    assert(posts.push(post).drop_last() =~= posts);
}

/// A scan that stops early has all it needs: once the first `i` posts have
/// given `limit` hits, or once every post was looked at, the hits so far are
/// the hits of the whole sequence under the cap.
pub proof fn lemma_filter_cut(posts: Seq<Post>, pred: spec_fn(Post) -> bool, i: int, limit: int)
    requires
        0 <= i <= posts.len(),
        0 <= limit <= u8::MAX,
        posts.take(i).filter(pred).len() <= limit,
        i == posts.len() || posts.take(i).filter(pred).len() == limit,
    ensures
        posts.take(i).filter(pred) == capped(posts.filter(pred), limit as u8),
{
    let head = posts.take(i);
    let tail = posts.skip(i);
    assert(posts =~= head + tail);
    Seq::filter_distributes_over_add(head, tail, pred);
    if i == posts.len() {
        assert(tail.filter(pred) =~= Seq::<Post>::empty()) by {
            reveal(Seq::filter);
        }
    }
    assert(head.filter(pred) =~= capped(posts.filter(pred), limit as u8));
}

/// Filtering keeps nothing where no element passes.
pub proof fn lemma_filter_none(posts: Seq<Post>, pred: spec_fn(Post) -> bool)
    requires
        forall|i: int| 0 <= i < posts.len() ==> !pred(#[trigger] posts[i]),
    ensures
        posts.filter(pred).len() == 0,
    decreases posts.len(),
{
    reveal(Seq::filter);
    if posts.len() > 0 {
        lemma_filter_none(posts.drop_last(), pred);
    }
}

/// Filtering keeps everything where every element passes.
pub proof fn lemma_filter_all(posts: Seq<Post>, pred: spec_fn(Post) -> bool)
    requires
        forall|i: int| 0 <= i < posts.len() ==> pred(#[trigger] posts[i]),
    ensures
        posts.filter(pred) == posts,
    decreases posts.len(),
{
    reveal(Seq::filter);
    if posts.len() > 0 {
        lemma_filter_all(posts.drop_last(), pred);
        assert(posts.drop_last().push(posts.last()) =~= posts);
    }
}

/// The first element that passes is the first that the filter keeps.
pub proof fn lemma_filter_first(posts: Seq<Post>, pred: spec_fn(Post) -> bool, i: int)
    requires
        0 <= i < posts.len(),
        pred(posts[i]),
        forall|j: int| 0 <= j < i ==> !pred(#[trigger] posts[j]),
    ensures
        posts.filter(pred).len() > 0,
        posts.filter(pred)[0] == posts[i],
{
    let head = posts.take(i);
    let tail = posts.skip(i + 1);
    assert(posts =~= head.push(posts[i]) + tail);
    Seq::filter_distributes_over_add(head.push(posts[i]), tail, pred);
    lemma_filter_push(head, posts[i], pred);
    lemma_filter_none(head, pred);
}

/// The filter keeps elements of the sequence, and keeps them in their order.
pub proof fn lemma_filter_ascending(posts: Seq<Post>, pred: spec_fn(Post) -> bool)
    requires
        ascending(posts),
    ensures
        ascending(posts.filter(pred)),
    decreases posts.len(),
{
    reveal(Seq::filter);
    if posts.len() > 0 {
        let init = posts.drop_last();
        let kept = init.filter(pred);
        assert forall|i: int, j: int| 0 <= i < j < init.len() implies (#[trigger] init[i])
            .created_at.not_after((#[trigger] init[j]).created_at) by {
            assert(init[i] == posts[i] && init[j] == posts[j]);
        }
        lemma_filter_ascending(init, pred);
        if pred(posts.last()) {
            let all = kept.push(posts.last());
            assert forall|i: int, j: int| 0 <= i < j < all.len() implies (#[trigger] all[i])
                .created_at.not_after((#[trigger] all[j]).created_at) by {
                if j < kept.len() {
                    assert(all[i] == kept[i] && all[j] == kept[j]);
                } else {
                    assert(kept.contains(kept[i]));
                    init.lemma_filter_contains_rev(pred, kept[i]);
                    let k = choose|k: int| 0 <= k < init.len() && init[k] == kept[i];
                    assert(posts[k] == kept[i]);
                    assert(posts[posts.len() - 1] == all[j]);
                }
            }
        }
    }
}

/// What is listed: at most `limit` posts, each one a post of the store that
/// the filter matches, in the order of their creation.
pub proof fn lemma_listed(posts: Seq<Post>, filters: PostFilters)
    ensures
        listed(posts, filters).len() <= filters.limit,
        listed(posts, filters).len() <= posts.len(),
        forall|i: int|
            0 <= i < listed(posts, filters).len() ==> {
                &&& (#[trigger] listed(posts, filters)[i]).matches_spec(&filters)
                &&& posts.contains(listed(posts, filters)[i])
            },
        ascending(posts) ==> ascending(listed(posts, filters)),
{
    let hits = posts.filter(matcher(filters));
    let out = listed(posts, filters);
    posts.lemma_filter_len(matcher(filters));
    assert forall|i: int| 0 <= i < out.len() implies {
        &&& (#[trigger] out[i]).matches_spec(&filters)
        &&& posts.contains(out[i])
    } by {
        assert(out[i] == hits[i]);
        posts.lemma_filter_pred(matcher(filters), i);
        assert(hits.contains(hits[i]));
        posts.lemma_filter_contains_rev(matcher(filters), hits[i]);
    }
    if ascending(posts) {
        lemma_filter_ascending(posts, matcher(filters));
        assert forall|i: int, j: int| 0 <= i < j < out.len() implies (#[trigger] out[i])
            .created_at.not_after((#[trigger] out[j]).created_at) by {
            assert(out[i] == hits[i] && out[j] == hits[j]);
        }
    }
}

/// A filter with no field set lists every post of the store, in the order of
/// their creation, up to its limit.
pub proof fn lemma_identity_filter(posts: Seq<Post>, filters: PostFilters)
    requires
        filters.is_unset(),
    ensures
        listed(posts, filters) == capped(posts, filters.limit),
        posts.len() <= filters.limit ==> listed(posts, filters) == posts,
        ascending(posts) ==> ascending(listed(posts, filters)),
{
    lemma_filter_all(posts, matcher(filters));
    lemma_listed(posts, filters);
}

/// A post is found under an owner and an identity exactly when the store
/// holds a post with both; it then is that post.
pub proof fn lemma_found(posts: Seq<Post>, user_id: Uuid, id: Uuid)
    ensures
        match found(posts, user_id, id) {
            Some(post) => post.id == id && post.user_id == user_id && posts.contains(post),
            None => forall|i: int|
                0 <= i < posts.len() ==> !((#[trigger] posts[i]).id == id && posts[i].user_id
                    == user_id),
        },
{
    let filters = owned(user_id, id);
    lemma_listed(posts, filters);
    let hits = listed(posts, filters);
    if hits.len() == 0 {
        assert forall|i: int| 0 <= i < posts.len() implies !((#[trigger] posts[i]).id == id
            && posts[i].user_id == user_id) by {
            if posts[i].id == id && posts[i].user_id == user_id {
                assert(matcher(filters)(posts[i]));
                posts.lemma_filter_contains(matcher(filters), i);
            }
        }
    } else {
        assert(hits[0].matches_spec(&filters));
    }
}

/// What `get` returns, by the place of the post: the first post with the
/// identity and the owner, or nothing where no post has both.
pub proof fn lemma_found_at(posts: Seq<Post>, user_id: Uuid, id: Uuid, i: int)
    requires
        0 <= i <= posts.len(),
        forall|j: int|
            0 <= j < i ==> !((#[trigger] posts[j]).id == id && posts[j].user_id == user_id),
        i < posts.len() ==> posts[i].id == id && posts[i].user_id == user_id,
    ensures
        found(posts, user_id, id) == if i < posts.len() {
            Some(posts[i])
        } else {
            None
        },
{
    let filters = owned(user_id, id);
    let pred = matcher(filters);
    if i < posts.len() {
        assert(pred(posts[i]));
        lemma_filter_first(posts, pred, i);
    } else {
        lemma_filter_none(posts, pred);
    }
}

/// One owner cannot reach another owner's post: where the identity belongs
/// to a post of a different owner, `get` finds nothing, although the post is
/// there.
pub proof fn lemma_ownership_isolation(posts: Seq<Post>, user_id: Uuid, other: Post)
    requires
        distinct_ids(posts),
        posts.contains(other),
        other.user_id != user_id,
    ensures
        found(posts, user_id, other.id) is None,
{
    lemma_found(posts, user_id, other.id);
    if found(posts, user_id, other.id) is Some {
        let post = found(posts, user_id, other.id)->0;
        let i = choose|i: int| 0 <= i < posts.len() && posts[i] == post;
        let j = choose|j: int| 0 <= j < posts.len() && posts[j] == other;
        assert(posts[i].id == posts[j].id);
        assert(i != j);
    }
}

/// The slot of an instant divides the posts: those before it were not
/// created after the instant, those from it on were.
pub proof fn lemma_slot(posts: Seq<Post>, t: Timestamp)
    requires
        ascending(posts),
    ensures
        0 <= slot(posts, t) <= posts.len(),
        forall|k: int| 0 <= k < slot(posts, t) ==> (#[trigger] posts[k]).created_at.not_after(t),
        forall|k: int| slot(posts, t) <= k < posts.len() ==> t.before((#[trigger] posts[k]).created_at),
    decreases posts.len(),
{
    if posts.len() > 0 && t.before(posts.last().created_at) {
        let init = posts.drop_last();
        assert forall|i: int, j: int| 0 <= i < j < init.len() implies (#[trigger] init[i])
            .created_at.not_after((#[trigger] init[j]).created_at) by {
            assert(init[i] == posts[i] && init[j] == posts[j]);
        }
        lemma_slot(init, t);
        assert forall|k: int| 0 <= k < slot(posts, t) implies (#[trigger] posts[k])
            .created_at.not_after(t) by {
            assert(posts[k] == init[k]);
        }
        assert forall|k: int| slot(posts, t) <= k < posts.len() implies t.before(
            (#[trigger] posts[k]).created_at,
        ) by {
            if k < init.len() {
                assert(posts[k] == init[k]);
            }
        }
    } else {
        assert forall|k: int| 0 <= k < posts.len() implies (#[trigger] posts[k])
            .created_at.not_after(t) by {
            let last = posts.len() - 1;
            assert(posts[k].created_at.not_after(posts[last].created_at));
        }
    }
}

/// Creating a post with an unused identity keeps the store in order: the
/// posts stay sorted by creation, and identities stay distinct. Every earlier
/// post is still there, unchanged.
pub proof fn lemma_created(posts: Seq<Post>, post: Post)
    requires
        ascending(posts),
        distinct_ids(posts),
        !has_id(posts, post.id),
    ensures
        ascending(created(posts, post)),
        distinct_ids(created(posts, post)),
        created(posts, post).len() == posts.len() + 1,
        created(posts, post).contains(post),
        forall|i: int| 0 <= i < posts.len() ==> created(posts, post).contains(#[trigger] posts[i]),
{
    let s = slot(posts, post.created_at);
    let after = created(posts, post);
    lemma_slot(posts, post.created_at);
    assert(after[s] == post);
    assert forall|k: int| 0 <= k < after.len() implies #[trigger] after[k] == (if k < s {
        posts[k]
    } else if k == s {
        post
    } else {
        posts[k - 1]
    }) by {}
    assert forall|i: int, j: int| 0 <= i < j < after.len() implies (#[trigger] after[i])
        .created_at.not_after((#[trigger] after[j]).created_at) by {
        if j < s {
            assert(posts[i].created_at.not_after(posts[j].created_at));
        } else if j == s {
            assert(posts[i].created_at.not_after(post.created_at));
        } else if i < s {
            assert(posts[i].created_at.not_after(posts[j - 1].created_at));
        } else if i == s {
            assert(post.created_at.before(posts[j - 1].created_at));
        } else {
            assert(posts[i - 1].created_at.not_after(posts[j - 1].created_at));
        }
    }
    assert forall|i: int, j: int| 0 <= i < j < after.len() implies (#[trigger] after[i]).id != (
    #[trigger] after[j]).id by {
        if j < s {
            assert(posts[i].id != posts[j].id);
        } else if j == s {
            assert(posts[i].id != post.id);
        } else if i < s {
            assert(posts[i].id != posts[j - 1].id);
        } else if i == s {
            assert(posts[j - 1].id != post.id);
        } else {
            assert(posts[i - 1].id != posts[j - 1].id);
        }
    }
    assert forall|i: int| 0 <= i < posts.len() implies after.contains(#[trigger] posts[i]) by {
        if i < s {
            assert(after[i] == posts[i]);
        } else {
            assert(after[i + 1] == posts[i]);
        }
    }
}

/// A soft delete changes nothing but `deleted_at`, and that only from unset
/// to set: every post keeps its place, its identity, its owner, its creation
/// instant and its text, and a deleted post keeps the instant of its
/// deletion. So the store stays in order.
pub proof fn lemma_soft_deleted(posts: Seq<Post>, user_id: Uuid, id: Uuid, at: Timestamp)
    ensures
        soft_deleted(posts, user_id, id, at).len() == posts.len(),
        forall|i: int|
            0 <= i < posts.len() ==> {
                let before = posts[i];
                let after = #[trigger] soft_deleted(posts, user_id, id, at)[i];
                &&& after.id == before.id
                &&& after.user_id == before.user_id
                &&& after.created_at == before.created_at
                &&& after.text == before.text
                &&& after.content == before.content
                &&& before.deleted_at is Some ==> after == before
                &&& after.deleted_at is None ==> after == before
            },
        ascending(posts) ==> ascending(soft_deleted(posts, user_id, id, at)),
        distinct_ids(posts) ==> distinct_ids(soft_deleted(posts, user_id, id, at)),
{
    let after = soft_deleted(posts, user_id, id, at);
    if ascending(posts) {
        assert forall|i: int, j: int| 0 <= i < j < after.len() implies (#[trigger] after[i])
            .created_at.not_after((#[trigger] after[j]).created_at) by {
            assert(posts[i].created_at.not_after(posts[j].created_at));
        }
    }
    if distinct_ids(posts) {
        assert forall|i: int, j: int| 0 <= i < j < after.len() implies (#[trigger] after[i]).id
            != (#[trigger] after[j]).id by {
            assert(posts[i].id != posts[j].id);
        }
    }
}

/// Deleted is final: deleting a second time, at whatever instant, changes
/// nothing.
pub proof fn lemma_soft_delete_twice(
    posts: Seq<Post>,
    user_id: Uuid,
    id: Uuid,
    first: Timestamp,
    second: Timestamp,
)
    ensures
        soft_deleted(soft_deleted(posts, user_id, id, first), user_id, id, second) == soft_deleted(
            posts,
            user_id,
            id,
            first,
        ),
{
    let once = soft_deleted(posts, user_id, id, first);
    let twice = soft_deleted(once, user_id, id, second);
    assert(twice =~= once);
}

/// With distinct identities a soft delete touches the one place where the
/// post stands, and no place at all where no post has the identity and the
/// owner.
pub proof fn lemma_soft_deleted_at(
    posts: Seq<Post>,
    user_id: Uuid,
    id: Uuid,
    at: Timestamp,
    i: int,
)
    requires
        distinct_ids(posts),
        0 <= i <= posts.len(),
        forall|j: int|
            0 <= j < i ==> !((#[trigger] posts[j]).id == id && posts[j].user_id == user_id),
        i < posts.len() ==> posts[i].id == id && posts[i].user_id == user_id,
    ensures
        soft_deleted(posts, user_id, id, at) == if i < posts.len() {
            posts.update(i, retired(posts[i], user_id, id, at))
        } else {
            posts
        },
{
    let after = soft_deleted(posts, user_id, id, at);
    if i < posts.len() {
        let direct = posts.update(i, retired(posts[i], user_id, id, at));
        assert forall|k: int| 0 <= k < posts.len() implies #[trigger] after[k] == direct[k] by {
            if k != i {
                assert(posts[k].id != posts[i].id);
            }
        }
        assert(after =~= direct);
    } else {
        assert(after =~= posts);
    }
}

} // verus!
