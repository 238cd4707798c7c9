use iso_server::data::{Data, FEED_PAGE_SIZE};
use iso_server::error::StoreError;
use iso_server::post::{Post, PostState, PostType, TimeType};
use iso_server::user::User;

fn store_with_posts(n: usize) -> Data {
    let mut d = Data::new();
    for i in 0..n {
        let p = d.add_post_at(
            format!("post{}", i),
            1000 + i as u64,
            format!("title {}", i),
            PostType::ISO,
            "owner".to_string(),
            TimeType::ItemLoan,
            vec![],
            "here".to_string(),
        );
        assert_eq!(p.uuid, format!("post{}", i));
    }
    d
}

#[test]
fn end_to_end_claim_scenario() {
    let mut d = Data::new();
    let u1 = User::with_token("u1".to_string(), "T1".to_string(), "+15551234567".to_string());
    assert_eq!(d.add_user(u1), Ok(()));
    let post = d
        .add_post(
            "Couch".to_string(),
            PostType::ISO,
            "u1".to_string(),
            TimeType::ItemPermanant,
            vec!["furniture".to_string()],
            "Springfield".to_string(),
        )
        .unwrap();
    assert_eq!(post.get_owner(), "u1");
    assert_eq!(post.state, PostState::Draft);
    assert_eq!(d.feed[0].uuid, post.uuid);

    let stranger = User::with_token("u2".to_string(), "wrong".to_string(), "+15550000000".to_string());
    assert_eq!(d.claim_post(post.uuid.clone(), stranger.clone()), Err(StoreError::NotFound));
    let u2 = User::with_token("u2".to_string(), "T2".to_string(), "+15550000000".to_string());
    assert_eq!(d.add_user(u2), Ok(()));
    assert_eq!(d.claim_post(post.uuid.clone(), stranger), Err(StoreError::Unauthorized));

    let owner = User::with_token("u1".to_string(), "T1".to_string(), String::new());
    assert_eq!(d.claim_post(post.uuid.clone(), owner), Ok(()));
    let claimed = d.get_post_by_uuid(&post.uuid).unwrap();
    assert_eq!(claimed.state, PostState::Accepted);
    assert_eq!(claimed.user_acceptor, Some("u1".to_string()));
    assert!(claimed.time_accepted.is_some());
}

#[test]
fn feed_page_out_of_range() {
    let d = store_with_posts(3);
    assert!(matches!(d.get_feed_page(3), Err(StoreError::OutOfRange)));
    assert!(matches!(d.get_feed_page(100), Err(StoreError::OutOfRange)));
    assert!(matches!(Data::new().get_feed_page(0), Err(StoreError::OutOfRange)));
}

#[test]
fn feed_page_sizes_and_order() {
    let d = store_with_posts(30);
    let first = d.get_feed_page(0).unwrap();
    assert_eq!(first.len(), FEED_PAGE_SIZE);
    assert_eq!(first[0].uuid, "post29");
    assert_eq!(first[24].uuid, "post5");
    let rest = d.get_feed_page(25).unwrap();
    assert_eq!(rest.len(), 5);
    let ids: Vec<String> = rest.iter().map(|p| p.uuid.clone()).collect();
    assert_eq!(ids, vec!["post4", "post3", "post2", "post1", "post0"]);
    assert_eq!(d.get_feed_page(29).unwrap().len(), 1);
}

#[test]
fn newest_post_heads_feed() {
    let mut d = Data::new();
    for i in 0..4 {
        let p = d
            .add_post(format!("t{}", i), PostType::OSI, "nobody".to_string(), TimeType::ServiceNow, vec![], String::new())
            .unwrap();
        assert_eq!(d.feed[0].uuid, p.uuid);
        assert_eq!(d.feed.len(), i + 1);
    }
}

#[test]
fn new_post_fields() {
    let p = Post::new(
        "id".to_string(),
        "Lamp".to_string(),
        PostType::OSI,
        "o".to_string(),
        TimeType::ServiceFuture,
        vec!["a".to_string(), "b".to_string()],
        "loc".to_string(),
        500,
    );
    assert_eq!(p.time_posted, 500);
    assert_eq!(p.time_expires, 500 + 86400);
    assert_eq!(p.karma_diff, -1);
    assert_eq!(p.views, 0);
    assert_eq!(p.state, PostState::Draft);
    assert_eq!(p.user_acceptor, None);
    assert_eq!(p.time_accepted, None);
    assert_eq!(p.tags, vec!["a".to_string(), "b".to_string()]);
}

#[test]
fn post_claim_sets_acceptor() {
    let mut p = Post::new("id".to_string(), "x".to_string(), PostType::ISO, "o".to_string(), TimeType::ItemLoan, vec![], String::new(), 7);
    p.claim("c".to_string(), 99);
    assert_eq!(p.state, PostState::Accepted);
    assert_eq!(p.user_acceptor, Some("c".to_string()));
    assert_eq!(p.time_accepted, Some(99));
    assert_eq!(p.get_owner(), "o");
}

#[test]
fn add_post_records_owner_post() {
    let mut d = Data::new();
    d.add_user(User::with_token("u".to_string(), "t".to_string(), "+1".to_string())).unwrap();
    let p = d.add_post_at("pid".to_string(), 10, "x".to_string(), PostType::ISO, "u".to_string(), TimeType::ItemLoan, vec![], String::new());
    assert_eq!(p.get_owner(), "u");
    let u = d.get_user_by_token("u", "t").unwrap();
    assert_eq!(u.posts, vec!["pid".to_string()]);
    let orphan = d.add_post_at("q".to_string(), 11, "y".to_string(), PostType::ISO, "ghost".to_string(), TimeType::ItemLoan, vec![], String::new());
    assert_eq!(orphan.get_owner(), "ghost");
    assert_eq!(d.feed.len(), 2);
    assert_eq!(d.users.len(), 1);
}

#[test]
fn claim_keeps_feed_position() {
    let mut d = store_with_posts(5);
    d.add_user(User::with_token("c".to_string(), "tok".to_string(), "+1".to_string())).unwrap();
    let before: Vec<String> = d.feed.iter().map(|p| p.uuid.clone()).collect();
    let claimer = User::with_token("c".to_string(), "tok".to_string(), String::new());
    assert_eq!(d.claim_post_at("post2".to_string(), claimer.clone(), 1234), Ok(()));
    let after: Vec<String> = d.feed.iter().map(|p| p.uuid.clone()).collect();
    assert_eq!(before, after);
    assert_eq!(d.feed[2].state, PostState::Accepted);
    assert_eq!(d.feed[2].time_accepted, Some(1234));
    assert_eq!(d.feed[2].user_acceptor, Some("c".to_string()));
    let u = d.get_user_by_token("c", "tok").unwrap();
    assert_eq!(u.posts, vec!["post2".to_string()]);
    // a second claim overwrites the acceptor and appends again
    d.add_user(User::with_token("e".to_string(), "k".to_string(), "+2".to_string())).unwrap();
    let other = User::with_token("e".to_string(), "k".to_string(), String::new());
    assert_eq!(d.claim_post_at("post2".to_string(), other, 2000), Ok(()));
    assert_eq!(d.feed[2].user_acceptor, Some("e".to_string()));
    assert_eq!(d.claim_post_at("missing".to_string(), claimer, 1), Err(StoreError::NotFound));
}

#[test]
fn add_user_twice_conflicts() {
    let mut d = Data::new();
    assert_eq!(d.add_user(User::with_token("a".to_string(), "t1".to_string(), "+1".to_string())), Ok(()));
    assert_eq!(
        d.add_user(User::with_token("a".to_string(), "t2".to_string(), "+2".to_string())),
        Err(StoreError::Conflict)
    );
    let u = d.get_user_by_token("a", "t1").unwrap();
    assert_eq!(u.phone_number, "+1");
    assert_eq!(d.users.len(), 1);
}

#[test]
fn token_errors_are_distinct() {
    let mut d = Data::new();
    d.add_user(User::with_token("a".to_string(), "t".to_string(), "+1".to_string())).unwrap();
    assert!(matches!(d.get_user_by_token("a", "bad"), Err(StoreError::Unauthorized)));
    assert!(matches!(d.get_user_by_token("zz", "t"), Err(StoreError::NotFound)));
    assert_eq!(d.get_user_by_token("a", "t").unwrap().uuid, "a");
}

#[test]
fn upsert_replaces_or_inserts() {
    let mut d = Data::new();
    d.add_update_user(User::with_token("a".to_string(), "t".to_string(), "+1".to_string()));
    d.add_update_user(User::with_token("a".to_string(), "t".to_string(), "+9".to_string()));
    assert_eq!(d.users.len(), 1);
    assert_eq!(d.users[0].phone_number, "+9");
    d.add_update_user(User::with_token("b".to_string(), "t".to_string(), "+2".to_string()));
    assert_eq!(d.users.len(), 2);
}

#[test]
fn user_by_number_first_match() {
    let mut d = Data::new();
    d.add_user(User::with_token("a".to_string(), "t".to_string(), "+1".to_string())).unwrap();
    d.add_user(User::with_token("b".to_string(), "t".to_string(), "+2".to_string())).unwrap();
    assert_eq!(d.get_user_by_number("+2").unwrap().uuid, "b");
    assert!(matches!(d.get_user_by_number("+3"), Err(StoreError::NotFound)));
}

#[test]
fn post_lookup_not_found() {
    let d = store_with_posts(2);
    assert!(matches!(d.get_post_by_uuid("nope"), Err(StoreError::NotFound)));
    assert_eq!(d.get_post_by_uuid("post0").unwrap().title, "title 0");
}

#[test]
fn from_parts_keeps_last_duplicate() {
    let users = vec![
        User::with_token("a".to_string(), "t".to_string(), "+1".to_string()),
        User::with_token("a".to_string(), "t".to_string(), "+2".to_string()),
        User::with_token("b".to_string(), "t".to_string(), "+3".to_string()),
    ];
    let d = Data::from_parts(vec![], users, vec!["x".to_string()]);
    assert_eq!(d.users.len(), 2);
    assert_eq!(d.get_user_by_number("+2").unwrap().uuid, "a");
    assert_eq!(d.pinned_posts, vec!["x".to_string()]);
}

#[test]
fn error_messages() {
    assert_eq!(StoreError::OutOfRange.message(), "Index out of bounds");
    assert_eq!(StoreError::Unauthorized.message(), "Invalid token");
}

#[test]
fn open_feed_page_skips_claimed() {
    let mut d = store_with_posts(30);
    d.add_user(User::with_token("c".to_string(), "t".to_string(), "+1".to_string())).unwrap();
    let c = User::with_token("c".to_string(), "t".to_string(), String::new());
    d.claim_post_at("post29".to_string(), c.clone(), 5).unwrap();
    d.claim_post_at("post27".to_string(), c, 5).unwrap();
    let (page, next) = d.open_feed_page(0).unwrap();
    assert_eq!(page.len(), FEED_PAGE_SIZE);
    assert_eq!(page[0].uuid, "post28");
    assert_eq!(page[1].uuid, "post26");
    assert_eq!(next, 27);
    let (rest, end) = d.open_feed_page(next).unwrap();
    assert_eq!(rest.len(), 3);
    assert_eq!(end, 30);
    assert!(matches!(d.open_feed_page(30), Err(StoreError::OutOfRange)));
}

#[test]
fn rebuild_from_own_parts_is_identical() {
    let mut d = store_with_posts(4);
    d.add_user(User::with_token("a".to_string(), "t".to_string(), "+1".to_string())).unwrap();
    d.add_user(User::with_token("b".to_string(), "s".to_string(), "+2".to_string())).unwrap();
    d.claim_post_at("post1".to_string(), User::with_token("a".to_string(), "t".to_string(), String::new()), 77).unwrap();
    d.pinned_posts.push("post3".to_string());
    let r = Data::from_parts(d.feed.clone(), d.users.clone(), d.pinned_posts.clone());
    assert_eq!(r.users.len(), 2);
    assert_eq!(r.feed.len(), 4);
    for (x, y) in r.users.iter().zip(d.users.iter()) {
        assert_eq!(x.uuid, y.uuid);
        assert_eq!(x.token, y.token);
        assert_eq!(x.posts, y.posts);
    }
    for (x, y) in r.feed.iter().zip(d.feed.iter()) {
        assert_eq!(x.uuid, y.uuid);
        assert_eq!(x.user_acceptor, y.user_acceptor);
        assert_eq!(x.time_accepted, y.time_accepted);
    }
    assert_eq!(r.pinned_posts, vec!["post3".to_string()]);
}

#[test]
fn generated_post_ids_are_uuids() {
    let mut d = Data::new();
    let a = d.add_post("a".to_string(), PostType::ISO, "o".to_string(), TimeType::ItemLoan, vec![], String::new()).unwrap();
    let b = d.add_post("b".to_string(), PostType::ISO, "o".to_string(), TimeType::ItemLoan, vec![], String::new()).unwrap();
    assert_eq!(a.uuid.len(), 36);
    assert_ne!(a.uuid, b.uuid);
    assert_eq!(a.time_expires, a.time_posted + 86400);
    assert_eq!(d.feed[0].uuid, b.uuid);
    assert_eq!(d.feed[1].uuid, a.uuid);
}
