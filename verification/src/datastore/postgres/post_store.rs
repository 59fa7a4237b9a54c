//! Compiles a filter into the predicate terms of a `WHERE` clause.
//!
//! A query-capable backend joins the terms with `AND`. Term by term they say
//! what `Post::matches` checks field by field, so that a query built from the
//! terms selects the posts that the filter matches.

use crate::datastore::clock::Timestamp;
use crate::datastore::ident::Uuid;
use crate::datastore::model::{capped, lemma_filter_cut, lemma_filter_push, listed, matcher};
use crate::datastore::postfilters::PostFilters;
use crate::datastore::structs::Post;
use crate::datastore::substring::{contains, is_substring};
use vstd::prelude::*;

verus! {

/// One condition on a row of the posts table.
#[derive(Debug, PartialEq, Eq)]
pub enum Term {
    /// `id = ..`
    IdEq(Uuid),
    /// `text` contains the given string, case-sensitively
    TextContains(String),
    /// `deleted_at IS NULL`
    DeletedAtIsNull,
    /// `deleted_at IS NOT NULL`
    DeletedAtIsNotNull,
    /// `created_at < ..`
    CreatedAtLt(Timestamp),
    /// `deleted_at IS NULL OR deleted_at > ..`
    DeletedAtIsNullOrGt(Timestamp),
    /// `user_id = ..`
    UserIdEq(Uuid),
}

impl Term {
    /// The condition holds of `post`.
    pub open spec fn holds_spec(&self, post: &Post) -> bool {
        match self {
            Term::IdEq(id) => post.id == *id,
            Term::TextContains(substring) => is_substring(post.text@, substring@),
            Term::DeletedAtIsNull => post.deleted_at is None,
            Term::DeletedAtIsNotNull => post.deleted_at is Some,
            Term::CreatedAtLt(t) => post.created_at.before(*t),
            Term::DeletedAtIsNullOrGt(t) => post.deleted_at matches Some(d) ==> t.before(d),
            Term::UserIdEq(user_id) => post.user_id == *user_id,
        }
    }

    /// Tells whether the condition holds of `post`.
    pub fn holds(&self, post: &Post) -> (r: bool)
        ensures
            r == self.holds_spec(post),
    {
        match self {
            Term::IdEq(id) => post.id == *id,
            Term::TextContains(substring) => contains(post.text.as_str(), substring.as_str()),
            Term::DeletedAtIsNull => post.deleted_at.is_none(),
            Term::DeletedAtIsNotNull => post.deleted_at.is_some(),
            Term::CreatedAtLt(t) => post.created_at.is_before(t),
            Term::DeletedAtIsNullOrGt(t) => match post.deleted_at {
                Some(d) => t.is_before(&d),
                None => true,
            },
            Term::UserIdEq(user_id) => post.user_id == *user_id,
        }
    }
}

/// Every term of `terms` holds of `post`. No terms at all hold of every post.
pub open spec fn all_hold(terms: Seq<Term>, post: Post) -> bool {
    forall|i: int| 0 <= i < terms.len() ==> (#[trigger] terms[i]).holds_spec(&post)
}

/// Tells whether every term of `terms` holds of `post`.
pub fn terms_hold(terms: &Vec<Term>, post: &Post) -> (r: bool)
    ensures
        r == all_hold(terms@, *post),
{
    let mut i: usize = 0;
    while i < terms.len()
        invariant
            i <= terms.len(),
            forall|j: int| 0 <= j < i ==> (#[trigger] terms@[j]).holds_spec(post),
        decreases terms.len() - i,
    {
        if !terms[i].holds(post) {
            return false;
        }
        i += 1;
    }
    true
}

impl PostFilters {
    /// The term for the `id` field.
    pub open spec fn id_terms(&self) -> Seq<Term> {
        match self.id {
            Some(id) => seq![Term::IdEq(id)],
            None => seq![],
        }
    }

    /// The term for the `text_contains` field.
    pub open spec fn text_terms(&self) -> Seq<Term> {
        match self.text_contains {
            Some(substring) => seq![Term::TextContains(substring)],
            None => seq![],
        }
    }

    /// The term for the `is_deleted` field.
    pub open spec fn deleted_terms(&self) -> Seq<Term> {
        match self.is_deleted {
            Some(true) => seq![Term::DeletedAtIsNotNull],
            Some(false) => seq![Term::DeletedAtIsNull],
            None => seq![],
        }
    }

    /// The two terms for the `existed_at` field: created before the instant,
    /// and not deleted by then.
    pub open spec fn existed_terms(&self) -> Seq<Term> {
        match self.existed_at {
            Some(t) => seq![Term::CreatedAtLt(t), Term::DeletedAtIsNullOrGt(t)],
            None => seq![],
        }
    }

    /// The term for the `user_id` field.
    pub open spec fn user_terms(&self) -> Seq<Term> {
        match self.user_id {
            Some(user_id) => seq![Term::UserIdEq(user_id)],
            None => seq![],
        }
    }

    /// The terms that the filter compiles to, in the order in which they are
    /// emitted: id, text, deletion state, existence at an instant, owner.
    pub open spec fn sql_where(&self) -> Seq<Term> {
        self.id_terms() + self.text_terms() + self.deleted_terms() + self.existed_terms()
            + self.user_terms()
    }

    /// Compiles the filter into terms to be joined with `AND`. An unset field
    /// gives no term, so the filter with no field set gives none at all,
    /// which selects every post.
    pub fn as_sql_where(&self) -> (wheres: Vec<Term>)
        ensures
            wheres@ == self.sql_where(),
            wheres.len() <= 6,
    {
        let mut wheres: Vec<Term> = Vec::new();
        if let Some(id) = self.id {
            wheres.push(Term::IdEq(id));
        }
        assert(wheres@ == self.id_terms());
        if let Some(substring) = &self.text_contains {
            wheres.push(Term::TextContains(substring.clone()));
        }
        assert(wheres@ == self.id_terms() + self.text_terms());
        if let Some(is_deleted) = self.is_deleted {
            if is_deleted {
                wheres.push(Term::DeletedAtIsNotNull);
            } else {
                wheres.push(Term::DeletedAtIsNull);
            }
        }
        assert(wheres@ == self.id_terms() + self.text_terms() + self.deleted_terms());
        if let Some(existed_at) = self.existed_at {
            wheres.push(Term::CreatedAtLt(existed_at));
            wheres.push(Term::DeletedAtIsNullOrGt(existed_at));
        }
        assert(wheres@ == self.id_terms() + self.text_terms() + self.deleted_terms()
            + self.existed_terms());
        if let Some(user_id) = self.user_id {
            wheres.push(Term::UserIdEq(user_id));
        }
        wheres
    }
}

/// A post satisfies the compiled terms of a filter exactly when the filter
/// matches it: the compiler and the evaluator agree on every filter and every
/// post.
pub proof fn lemma_compiled_terms_agree(filters: PostFilters, post: Post)
    ensures
        all_hold(filters.sql_where(), post) == post.matches_spec(&filters),
{
    let a = filters.id_terms();
    let b = filters.text_terms();
    let c = filters.deleted_terms();
    let d = filters.existed_terms();
    let e = filters.user_terms();
    let terms = filters.sql_where();
    lemma_all_hold_concat(a, b, post);
    lemma_all_hold_concat(a + b, c, post);
    lemma_all_hold_concat(a + b + c, d, post);
    lemma_all_hold_concat(a + b + c + d, e, post);
    assert(all_hold(a, post) == (filters.id matches Some(id) ==> id == post.id)) by {
        if filters.id is Some {
            assert(a[0].holds_spec(&post) == (filters.id->0 == post.id));
        }
    }
    assert(all_hold(b, post) == (filters.text_contains matches Some(s) ==> is_substring(
        post.text@,
        s@,
    ))) by {
        if filters.text_contains is Some {
            assert(b[0].holds_spec(&post) == is_substring(
                post.text@,
                filters.text_contains->0@,
            ));
        }
    }
    assert(all_hold(c, post) == (filters.is_deleted matches Some(flag) ==> flag
        == post.deleted())) by {
        if filters.is_deleted is Some {
            assert(c[0].holds_spec(&post) == (filters.is_deleted->0 == post.deleted()));
        }
    }
    assert(all_hold(d, post) == (filters.existed_at matches Some(t) ==> post.existed_at(t))) by {
        if filters.existed_at is Some {
            let t = filters.existed_at->0;
            assert(d[0].holds_spec(&post) == post.created_at.before(t));
            assert(d[1].holds_spec(&post) == (post.deleted_at matches Some(x) ==> t.before(x)));
        }
    }
    assert(all_hold(e, post) == (filters.user_id matches Some(u) ==> u == post.user_id)) by {
        if filters.user_id is Some {
            assert(e[0].holds_spec(&post) == (filters.user_id->0 == post.user_id));
        }
    }
}

/// The terms as a predicate on posts: all of them joined with `AND`.
pub open spec fn term_matcher(terms: Seq<Term>) -> spec_fn(Post) -> bool {
    |post: Post| all_hold(terms, post)
}

/// What a query with the `WHERE` clause `terms`, ordered by creation and with
/// the limit `limit`, selects from rows that stand in the order of their
/// creation.
pub open spec fn selected(rows: Seq<Post>, terms: Seq<Term>, limit: u8) -> Seq<Post> {
    capped(rows.filter(term_matcher(terms)), limit)
}

/// Filtering in memory and querying with the compiled terms give the same
/// posts in the same order, whatever the filter and whatever the posts.
pub proof fn lemma_query_equals_list(rows: Seq<Post>, filters: PostFilters)
    ensures
        selected(rows, filters.sql_where(), filters.limit) == listed(rows, filters),
{
    let by_terms = term_matcher(filters.sql_where());
    let by_filter = matcher(filters);
    assert forall|post: Post| #[trigger] by_terms(post) == by_filter(post) by {
        lemma_compiled_terms_agree(filters, post);
    }
    assert(by_terms =~= by_filter);
}

/// Runs a query over rows held in memory: the rows of which every term
/// holds, in the order of the rows, cut off after `limit` of them.
pub fn select_where(rows: &Vec<Post>, wheres: &Vec<Term>, limit: u8) -> (r: Vec<Post>)
    ensures
        r@ == selected(rows@, wheres@, limit),
{
    let ghost pred = term_matcher(wheres@);
    let limit = limit as usize;
    let mut results: Vec<Post> = Vec::new();
    let mut i: usize = 0;
    while i < rows.len() && results.len() < limit
        invariant
            i <= rows.len(),
            pred == term_matcher(wheres@),
            results@ == rows@.take(i as int).filter(pred),
            results.len() <= limit,
        decreases rows.len() - i,
    {
        proof {
            lemma_filter_push(rows@.take(i as int), rows@[i as int], pred);
            assert(rows@.take(i + 1) =~= rows@.take(i as int).push(rows@[i as int]));
        }
        if terms_hold(wheres, &rows[i]) {
            results.push(rows[i].clone());
        }
        i += 1;
    }
    proof {
        lemma_filter_cut(rows@, pred, i as int, limit as int);
    }
    results
}

/// The terms of two lists joined hold exactly when the terms of each do.
proof fn lemma_all_hold_concat(a: Seq<Term>, b: Seq<Term>, post: Post)
    ensures
        all_hold(a + b, post) == (all_hold(a, post) && all_hold(b, post)),
{
    let ab = a + b;
    if all_hold(ab, post) {
        assert forall|i: int| 0 <= i < a.len() implies (#[trigger] a[i]).holds_spec(&post) by {
            assert(ab[i] == a[i]);
        }
        assert forall|i: int| 0 <= i < b.len() implies (#[trigger] b[i]).holds_spec(&post) by {
            assert(ab[i + a.len()] == b[i]);
        }
    }
    if all_hold(a, post) && all_hold(b, post) {
        assert forall|i: int| 0 <= i < ab.len() implies (#[trigger] ab[i]).holds_spec(&post) by {
            if i < a.len() {
                assert(ab[i] == a[i]);
            } else {
                assert(ab[i] == b[i - a.len()]);
            }
        }
    }
}

} // verus!
