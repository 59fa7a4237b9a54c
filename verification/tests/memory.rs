use quietbackend::datastore::clock::Timestamp;
use quietbackend::datastore::ident::Uuid;
use quietbackend::datastore::memory::MemoryStore;
use quietbackend::datastore::postfilters::PostFilters;
use quietbackend::datastore::structs::{Content, NewPost, Post};
use quietbackend::datastore::Client;

fn new_post(owner: u128, text: &str) -> NewPost {
    NewPost {
        content: Content::Empty,
        text: text.to_owned(),
        user_id: Uuid::from_u128(owner),
    }
}

fn at(secs: i64) -> Timestamp {
    Timestamp::new(secs, 0)
}

fn id(v: u128) -> Uuid {
    Uuid::from_u128(v)
}

fn owned_by(owner: u128) -> PostFilters {
    PostFilters {
        user_id: Some(id(owner)),
        ..Default::default()
    }
}

fn ids_of(posts: &[Post]) -> Vec<u128> {
    posts.iter().map(|post| post.id.as_u128()).collect()
}

#[test]
fn end_to_end_scenario() {
    let u1 = id(1);
    let u2 = id(2);
    let mut store = MemoryStore::new();

    let created = store.new_post(new_post(1, "hello")).unwrap();
    assert_eq!(created.user_id, u1);
    assert_eq!(created.text, "hello");
    assert_eq!(created.content, Content::Empty);
    assert_eq!(created.deleted_at, None);
    assert!(!created.is_deleted());

    let listed = store.list_posts(owned_by(1)).unwrap();
    assert_eq!(listed, vec![created.clone()]);

    let deleted = store.delete_post(u1, created.id).unwrap().unwrap();
    assert!(deleted.deleted_at.is_some());
    assert_eq!(deleted.id, created.id);
    assert_eq!(deleted.user_id, u1);
    assert_eq!(deleted.created_at, created.created_at);
    assert_eq!(deleted.text, "hello");

    let active = store
        .list_posts(PostFilters {
            is_deleted: Some(false),
            ..owned_by(1)
        })
        .unwrap();
    assert_eq!(active, Vec::<Post>::new());

    let gone = store
        .list_posts(PostFilters {
            is_deleted: Some(true),
            ..owned_by(1)
        })
        .unwrap();
    assert_eq!(gone, vec![deleted.clone()]);

    assert_eq!(store.find_post(u2, created.id).unwrap(), None);
    assert_eq!(store.find_post(u1, created.id).unwrap(), Some(deleted));
}

#[test]
fn empty_store_has_nothing() {
    let store = MemoryStore::new();
    assert_eq!(store.len(), 0);
    assert_eq!(store.list_posts(PostFilters::default()).unwrap(), Vec::<Post>::new());
    assert_eq!(store.find_post(id(1), id(1)).unwrap(), None);
    assert_eq!(MemoryStore::default().len(), 0);
}

#[test]
fn insert_post_builds_an_active_post() {
    let mut store = MemoryStore::new();
    let post = store.insert_post(id(10), at(100), new_post(1, "hello")).unwrap();
    assert_eq!(
        post,
        Post {
            id: id(10),
            created_at: at(100),
            deleted_at: None,
            content: Content::Empty,
            text: "hello".to_owned(),
            user_id: id(1),
        }
    );
    assert_eq!(store.len(), 1);
    assert!(store.holds_id(id(10)));
    assert!(!store.holds_id(id(11)));
}

#[test]
fn insert_post_refuses_an_identity_in_use() {
    let mut store = MemoryStore::new();
    let first = store.insert_post(id(10), at(100), new_post(1, "hello")).unwrap();
    assert_eq!(store.insert_post(id(10), at(200), new_post(2, "again")), None);
    assert_eq!(store.len(), 1);
    assert_eq!(store.list_posts(PostFilters::default()).unwrap(), vec![first]);
}

#[test]
fn new_posts_get_distinct_identities() {
    let mut store = MemoryStore::new();
    let a = store.new_post(new_post(1, "a")).unwrap();
    let b = store.new_post(new_post(1, "b")).unwrap();
    let c = store.new_post(new_post(2, "c")).unwrap();
    assert_ne!(a.id, b.id);
    assert_ne!(a.id, c.id);
    assert_ne!(b.id, c.id);
    assert_eq!(store.len(), 3);
    assert!(!b.created_at.is_before(&a.created_at));
    assert!(!c.created_at.is_before(&b.created_at));
}

#[test]
fn list_is_ordered_by_creation_whatever_the_order_of_arrival() {
    let mut store = MemoryStore::new();
    store.insert_post(id(1), at(300), new_post(1, "c")).unwrap();
    store.insert_post(id(2), at(100), new_post(1, "a")).unwrap();
    store.insert_post(id(3), at(200), new_post(1, "b")).unwrap();
    store.insert_post(id(4), at(50), new_post(1, "z")).unwrap();
    store.insert_post(id(5), at(400), new_post(1, "d")).unwrap();
    let listed = store.list_posts(PostFilters::default()).unwrap();
    assert_eq!(ids_of(&listed), vec![4, 2, 3, 1, 5]);
}

#[test]
fn posts_created_at_the_same_instant_keep_their_order_of_arrival() {
    let mut store = MemoryStore::new();
    store.insert_post(id(1), at(100), new_post(1, "a")).unwrap();
    store.insert_post(id(2), at(100), new_post(1, "b")).unwrap();
    store.insert_post(id(3), at(50), new_post(1, "c")).unwrap();
    store.insert_post(id(4), at(100), new_post(1, "d")).unwrap();
    let listed = store.list_posts(PostFilters::default()).unwrap();
    assert_eq!(ids_of(&listed), vec![3, 1, 2, 4]);
}

#[test]
fn identity_filter_lists_everything_up_to_the_default_limit() {
    let mut store = MemoryStore::new();
    for n in 0..7u128 {
        store
            .insert_post(id(n), at(1000 - n as i64), new_post(n % 3, "post"))
            .unwrap();
    }
    let listed = store.list_posts(PostFilters::default()).unwrap();
    assert_eq!(ids_of(&listed), vec![6, 5, 4, 3, 2, 1, 0]);
}

#[test]
fn identity_filter_is_capped_at_100() {
    let mut store = MemoryStore::new();
    for n in 0..150u128 {
        store
            .insert_post(id(n), at(5000 - n as i64), new_post(n % 4, "post"))
            .unwrap();
    }
    assert_eq!(store.len(), 150);
    let listed = store.list_posts(PostFilters::default()).unwrap();
    assert_eq!(listed.len(), 100);
    // The hundred oldest, oldest first.
    let expected: Vec<u128> = (50..150u128).rev().collect();
    assert_eq!(ids_of(&listed), expected);
    for pair in listed.windows(2) {
        assert!(!pair[1].created_at.is_before(&pair[0].created_at));
    }
}

#[test]
fn limit_cuts_the_list_after_filtering() {
    let mut store = MemoryStore::new();
    for n in 0..10u128 {
        store
            .insert_post(id(n), at(n as i64), new_post(n % 2, "post"))
            .unwrap();
    }
    let two = store
        .list_posts(PostFilters {
            limit: 2,
            ..owned_by(1)
        })
        .unwrap();
    assert_eq!(ids_of(&two), vec![1, 3]);
    let none = store
        .list_posts(PostFilters {
            limit: 0,
            ..owned_by(1)
        })
        .unwrap();
    assert_eq!(none, Vec::<Post>::new());
    let all = store
        .list_posts(PostFilters {
            limit: 255,
            ..owned_by(1)
        })
        .unwrap();
    assert_eq!(ids_of(&all), vec![1, 3, 5, 7, 9]);
}

#[test]
fn list_applies_every_set_field() {
    let mut store = MemoryStore::new();
    store.insert_post(id(1), at(10), new_post(1, "first light")).unwrap();
    store.insert_post(id(2), at(20), new_post(2, "second light")).unwrap();
    store.insert_post(id(3), at(30), new_post(1, "third")).unwrap();
    store.insert_post(id(4), at(40), new_post(1, "fourth light")).unwrap();
    store.delete_post_at(id(1), id(4), at(45)).unwrap();

    let listed = store
        .list_posts(PostFilters {
            text_contains: Some("light".to_owned()),
            ..owned_by(1)
        })
        .unwrap();
    assert_eq!(ids_of(&listed), vec![1, 4]);

    let existed = store
        .list_posts(PostFilters {
            existed_at: Some(at(42)),
            ..owned_by(1)
        })
        .unwrap();
    assert_eq!(ids_of(&existed), vec![1, 3, 4]);

    let existed_later = store
        .list_posts(PostFilters {
            existed_at: Some(at(45)),
            ..owned_by(1)
        })
        .unwrap();
    assert_eq!(ids_of(&existed_later), vec![1, 3]);

    let one = store
        .list_posts(PostFilters {
            id: Some(id(3)),
            ..owned_by(1)
        })
        .unwrap();
    assert_eq!(ids_of(&one), vec![3]);
}

#[test]
fn ownership_isolation() {
    let mut store = MemoryStore::new();
    let mine = store.insert_post(id(10), at(100), new_post(1, "mine")).unwrap();
    let theirs = store.insert_post(id(20), at(200), new_post(2, "theirs")).unwrap();

    assert_eq!(store.find_post(id(1), id(10)).unwrap(), Some(mine));
    assert_eq!(store.find_post(id(2), id(20)).unwrap(), Some(theirs.clone()));
    // The identity exists, but under the other owner.
    assert_eq!(store.find_post(id(1), id(20)).unwrap(), None);
    assert_eq!(store.find_post(id(2), id(10)).unwrap(), None);
    // Nor can the other owner's post be deleted.
    assert_eq!(store.delete_post(id(1), id(20)).unwrap(), None);
    assert_eq!(store.find_post(id(2), id(20)).unwrap(), Some(theirs));
}

#[test]
fn find_post_of_an_unknown_identity_is_absent() {
    let mut store = MemoryStore::new();
    store.insert_post(id(10), at(100), new_post(1, "mine")).unwrap();
    assert_eq!(store.find_post(id(1), id(11)).unwrap(), None);
}

#[test]
fn delete_post_at_sets_deleted_at_and_nothing_else() {
    let mut store = MemoryStore::new();
    store.insert_post(id(1), at(10), new_post(1, "keep")).unwrap();
    let before = store.insert_post(id(2), at(20), new_post(1, "drop")).unwrap();
    store.insert_post(id(3), at(30), new_post(2, "other")).unwrap();

    let after = store.delete_post_at(id(1), id(2), at(99)).unwrap();
    assert_eq!(
        after,
        Post {
            deleted_at: Some(at(99)),
            ..before
        }
    );
    assert_eq!(store.len(), 3);
    let listed = store.list_posts(PostFilters::default()).unwrap();
    assert_eq!(ids_of(&listed), vec![1, 2, 3]);
    assert_eq!(listed[0].deleted_at, None);
    assert_eq!(listed[1], after);
    assert_eq!(listed[2].deleted_at, None);
}

#[test]
fn deleting_twice_keeps_the_first_instant() {
    let mut store = MemoryStore::new();
    store.insert_post(id(1), at(10), new_post(1, "once")).unwrap();
    let first = store.delete_post_at(id(1), id(1), at(20)).unwrap();
    let second = store.delete_post_at(id(1), id(1), at(30)).unwrap();
    assert_eq!(first.deleted_at, Some(at(20)));
    assert_eq!(second, first);
    assert_eq!(store.find_post(id(1), id(1)).unwrap(), Some(first));
}

#[test]
fn deleting_what_is_not_there_is_absence_not_an_error() {
    let mut store = MemoryStore::new();
    store.insert_post(id(1), at(10), new_post(1, "here")).unwrap();
    assert!(matches!(store.delete_post(id(1), id(2)), Ok(None)));
    assert!(matches!(store.delete_post(id(2), id(1)), Ok(None)));
    assert_eq!(store.delete_post_at(id(3), id(3), at(5)), None);
    let listed = store.list_posts(PostFilters::default()).unwrap();
    assert_eq!(listed.len(), 1);
    assert_eq!(listed[0].deleted_at, None);
}

#[test]
fn set_posts_takes_posts_in_order_with_distinct_identities() {
    let post = |n: u128, secs: i64| Post {
        id: id(n),
        created_at: at(secs),
        deleted_at: None,
        content: Content::Empty,
        text: "seeded".to_owned(),
        user_id: id(1),
    };
    let mut store = MemoryStore::new();
    assert!(store.set_posts(vec![post(1, 10), post(2, 10), post(3, 20)]));
    assert_eq!(store.len(), 3);

    // Out of order: refused, and the store stays as it was.
    assert!(!store.set_posts(vec![post(1, 20), post(2, 10)]));
    assert_eq!(store.len(), 3);
    // An identity twice: refused.
    assert!(!store.set_posts(vec![post(1, 10), post(2, 20), post(1, 30)]));
    assert_eq!(store.len(), 3);
    // Nothing at all is in order.
    assert!(store.set_posts(Vec::new()));
    assert_eq!(store.len(), 0);
}

#[test]
fn first_post_into_an_empty_store_always_succeeds() {
    for n in 0..50u128 {
        let mut store = MemoryStore::new();
        let created = store.new_post(new_post(n, "first")).unwrap();
        assert_eq!(created.user_id, id(n));
        assert_eq!(created.deleted_at, None);
        assert_eq!(store.len(), 1);
        assert!(store.holds_id(created.id));
    }
}
