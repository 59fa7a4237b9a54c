use chrono::offset::Utc;
use chrono::DateTime;
use quietbackend::datastore::clock::Timestamp;
use quietbackend::datastore::ident::Uuid;
use quietbackend::datastore::postfilters::{default_limit, PostFilters};
use quietbackend::datastore::structs::{Content, Post, User};

fn instant(at: DateTime<Utc>) -> Timestamp {
    Timestamp::new(at.timestamp(), at.timestamp_subsec_nanos())
}

fn random_id() -> Uuid {
    Uuid::from_u128(uuid::Uuid::new_v4().as_u128())
}

fn later_than(at: DateTime<Utc>) -> DateTime<Utc> {
    let mut later = Utc::now();
    while later <= at {
        later = Utc::now();
    }
    later
}

/// A post of owner 1 with identity 7, created at second 100 and deleted at
/// second 200.
fn deleted_post() -> Post {
    Post {
        id: Uuid::from_u128(7),
        user_id: Uuid::from_u128(1),
        text: "example text".to_owned(),
        content: Content::Empty,
        created_at: Timestamp::new(100, 0),
        deleted_at: Some(Timestamp::new(200, 0)),
    }
}

fn active_post() -> Post {
    Post {
        deleted_at: None,
        ..deleted_post()
    }
}

#[test]
fn test_post_condition() {
    let post_id = random_id();
    let user_id = random_id();
    let created = Utc::now();
    let active_post = Post {
        id: post_id,
        user_id,
        text: "example text".to_owned(),
        content: Content::Empty,
        created_at: instant(created),
        deleted_at: None,
    };

    assert!(active_post.matches(&PostFilters {
        user_id: Some(user_id),
        ..Default::default()
    }));

    assert!(active_post.matches(&PostFilters {
        text_contains: Some("ample".to_owned()),
        ..Default::default()
    }));

    assert!(active_post.matches(&PostFilters {
        existed_at: Some(instant(later_than(created))),
        ..Default::default()
    }));

    assert!(active_post.matches(&PostFilters {
        is_deleted: Some(false),
        ..Default::default()
    }));

    let deleted = later_than(created);
    let inactive_post = Post {
        deleted_at: Some(instant(deleted)),
        ..active_post
    };
    // The post is no longer active, so it shouldn't exist at `now()`
    assert!(!inactive_post.matches(&PostFilters {
        existed_at: Some(instant(later_than(deleted))),
        ..Default::default()
    }));
}

#[test]
fn default_filter_has_no_field_set_and_limit_100() {
    let filters = PostFilters::default();
    assert_eq!(filters.is_deleted, None);
    assert_eq!(filters.text_contains, None);
    assert_eq!(filters.existed_at, None);
    assert_eq!(filters.id, None);
    assert_eq!(filters.user_id, None);
    assert_eq!(filters.limit, 100);
    assert_eq!(default_limit(), 100);
}

#[test]
fn unset_filter_matches_every_post() {
    assert!(active_post().matches(&PostFilters::default()));
    assert!(deleted_post().matches(&PostFilters::default()));
}

#[test]
fn owner_filter_is_equality() {
    let post = active_post();
    assert!(post.matches(&PostFilters {
        user_id: Some(Uuid::from_u128(1)),
        ..Default::default()
    }));
    assert!(!post.matches(&PostFilters {
        user_id: Some(Uuid::from_u128(2)),
        ..Default::default()
    }));
}

#[test]
fn id_filter_is_equality() {
    let post = active_post();
    assert!(post.matches(&PostFilters {
        id: Some(Uuid::from_u128(7)),
        ..Default::default()
    }));
    assert!(!post.matches(&PostFilters {
        id: Some(Uuid::from_u128(8)),
        ..Default::default()
    }));
}

#[test]
fn is_deleted_filter_follows_deleted_at() {
    let yes = PostFilters {
        is_deleted: Some(true),
        ..Default::default()
    };
    let no = PostFilters {
        is_deleted: Some(false),
        ..Default::default()
    };
    assert!(deleted_post().matches(&yes));
    assert!(!deleted_post().matches(&no));
    assert!(!active_post().matches(&yes));
    assert!(active_post().matches(&no));
    assert!(deleted_post().is_deleted());
    assert!(!active_post().is_deleted());
}

#[test]
fn text_filter_is_case_sensitive_containment() {
    let post = active_post();
    let with = |s: &str| PostFilters {
        text_contains: Some(s.to_owned()),
        ..Default::default()
    };
    assert!(post.matches(&with("ample")));
    assert!(post.matches(&with("example text")));
    assert!(post.matches(&with("")));
    assert!(post.matches(&with("e t")));
    assert!(!post.matches(&with("Ample")));
    assert!(!post.matches(&with("example text!")));
    assert!(!post.matches(&with("texts")));
}

#[test]
fn existed_at_leaves_out_both_boundary_instants() {
    let post = deleted_post();
    let at = |secs: i64, nanos: u32| PostFilters {
        existed_at: Some(Timestamp::new(secs, nanos)),
        ..Default::default()
    };
    // at the instant of creation: not yet
    assert!(!post.matches(&at(100, 0)));
    // just after creation
    assert!(post.matches(&at(100, 1)));
    // just before deletion
    assert!(post.matches(&at(199, 999_999_999)));
    // at the instant of deletion: no more
    assert!(!post.matches(&at(200, 0)));
    // after deletion
    assert!(!post.matches(&at(200, 1)));
    assert!(!post.matches(&at(5000, 0)));
    // before creation
    assert!(!post.matches(&at(99, 999_999_999)));
}

#[test]
fn existed_at_of_an_active_post_is_any_instant_after_creation() {
    let post = active_post();
    let at = |secs: i64, nanos: u32| PostFilters {
        existed_at: Some(Timestamp::new(secs, nanos)),
        ..Default::default()
    };
    assert!(!post.matches(&at(100, 0)));
    assert!(!post.matches(&at(-3, 0)));
    assert!(post.matches(&at(100, 1)));
    assert!(post.matches(&at(i64::MAX, u32::MAX)));
}

#[test]
fn set_fields_are_joined_by_and() {
    let post = deleted_post();
    let all = PostFilters {
        user_id: Some(Uuid::from_u128(1)),
        id: Some(Uuid::from_u128(7)),
        is_deleted: Some(true),
        text_contains: Some("ample".to_owned()),
        existed_at: Some(Timestamp::new(150, 0)),
        limit: 100,
    };
    assert!(post.matches(&all));
    // Each field alone can make the whole filter fail.
    assert!(!post.matches(&PostFilters {
        user_id: Some(Uuid::from_u128(2)),
        ..all_set()
    }));
    assert!(!post.matches(&PostFilters {
        id: Some(Uuid::from_u128(8)),
        ..all_set()
    }));
    assert!(!post.matches(&PostFilters {
        is_deleted: Some(false),
        ..all_set()
    }));
    assert!(!post.matches(&PostFilters {
        text_contains: Some("simple".to_owned()),
        ..all_set()
    }));
    assert!(!post.matches(&PostFilters {
        existed_at: Some(Timestamp::new(250, 0)),
        ..all_set()
    }));
}

fn all_set() -> PostFilters {
    PostFilters {
        user_id: Some(Uuid::from_u128(1)),
        id: Some(Uuid::from_u128(7)),
        is_deleted: Some(true),
        text_contains: Some("ample".to_owned()),
        existed_at: Some(Timestamp::new(150, 0)),
        limit: 100,
    }
}

#[test]
fn matching_equals_the_and_of_the_single_fields() {
    let posts = [deleted_post(), active_post()];
    let owners = [None, Some(Uuid::from_u128(1)), Some(Uuid::from_u128(2))];
    let ids = [None, Some(Uuid::from_u128(7)), Some(Uuid::from_u128(8))];
    let flags = [None, Some(true), Some(false)];
    let texts = [None, Some("ample".to_owned()), Some("nope".to_owned())];
    let instants = [
        None,
        Some(Timestamp::new(150, 0)),
        Some(Timestamp::new(100, 0)),
        Some(Timestamp::new(200, 0)),
    ];
    for post in posts.iter() {
        for user_id in owners.iter() {
            for id in ids.iter() {
                for is_deleted in flags.iter() {
                    for text_contains in texts.iter() {
                        for existed_at in instants.iter() {
                            let whole = PostFilters {
                                user_id: *user_id,
                                id: *id,
                                is_deleted: *is_deleted,
                                text_contains: text_contains.clone(),
                                existed_at: *existed_at,
                                limit: 100,
                            };
                            let alone = post.matches(&PostFilters {
                                user_id: *user_id,
                                ..Default::default()
                            }) && post.matches(&PostFilters {
                                id: *id,
                                ..Default::default()
                            }) && post.matches(&PostFilters {
                                is_deleted: *is_deleted,
                                ..Default::default()
                            }) && post.matches(&PostFilters {
                                text_contains: text_contains.clone(),
                                ..Default::default()
                            }) && post.matches(&PostFilters {
                                existed_at: *existed_at,
                                ..Default::default()
                            });
                            assert_eq!(post.matches(&whole), alone);
                            // Asking twice gives the same answer.
                            assert_eq!(post.matches(&whole), post.matches(&whole));
                        }
                    }
                }
            }
        }
    }
}

#[test]
fn limit_plays_no_part_in_matching() {
    let post = active_post();
    assert!(post.matches(&PostFilters {
        limit: 0,
        ..Default::default()
    }));
}

#[test]
fn clone_of_a_post_is_the_same_post() {
    let post = deleted_post();
    assert_eq!(post.clone(), post);
}

#[test]
fn user_is_deleted_follows_deleted_at() {
    let mut user = User {
        id: Uuid::from_u128(1),
        created_at: Timestamp::new(1, 0),
        deleted_at: None,
        name: "ada".to_owned(),
    };
    assert!(!user.is_deleted());
    user.deleted_at = Some(Timestamp::new(2, 0));
    assert!(user.is_deleted());
}

#[test]
fn instants_are_ordered_by_seconds_then_nanoseconds() {
    let t = |secs: i64, nanos: u32| Timestamp::new(secs, nanos);
    assert!(t(1, 0).is_before(&t(2, 0)));
    assert!(t(1, 999_999_999).is_before(&t(2, 0)));
    assert!(t(1, 5).is_before(&t(1, 6)));
    assert!(!t(1, 5).is_before(&t(1, 5)));
    assert!(!t(2, 0).is_before(&t(1, 999_999_999)));
    assert!(t(-1, 0).is_before(&t(0, 0)));
    // A leap second counts on within its second.
    assert!(t(1, 1_500_000_000).is_before(&t(2, 0)));
    assert!(t(1, 999_999_999).is_before(&t(1, 1_000_000_000)));
    assert!(t(1, 0) < t(1, 1));
    assert!(t(1, 7) < t(2, 0));
}

#[test]
fn instants_keep_the_order_of_the_clock() {
    let first = Utc::now();
    let second = later_than(first);
    assert!(instant(first).is_before(&instant(second)));
    assert!(!instant(second).is_before(&instant(first)));
}

#[test]
fn identity_round_trips_through_its_integer() {
    let v: u128 = 0x936DA01F9ABD4D9D80C702AF85C822A8;
    assert_eq!(Uuid::from_u128(v).as_u128(), v);
    assert_eq!(Uuid::from_u128(v), Uuid::from_u128(v));
    assert_ne!(Uuid::from_u128(v), Uuid::from_u128(v + 1));
    let outside = uuid::Uuid::from_u128(v);
    assert_eq!(Uuid::from_u128(outside.as_u128()).as_u128(), v);
}
