use wepo::auth::UserInfo;
use wepo::bigint::BigInt;
use wepo::cmd::{Cmd, RedisCmd, Reply, RespValueRedisHelper};
use wepo::errors::MyError;
use wepo::keys::{CacheKey, Relation};
use wepo::ledger::{cancel_hate, cancel_like, cached_post_sender, delete_post_cache, hate,
    hate_check_cmd, like, like_check_cmd, like_mutation, post_cache_del_cmds,
    post_sender_probe_cmd, resolve_post_sender, save_post_sender_cache, save_post_sender_cmd,
    unlike_mutation};
use wepo::post::{PostExtends, PostExtendsWithComment};
use wepo::store::CacheStore;
use wepo::user::UserData;

fn fresh_post(id: i64, like_count: i64, comment_count: i64, hate_count: i64) -> PostExtends {
    PostExtends {
        id: BigInt::new(id),
        sender: UserData::new(&1, &"author".to_string(), None),
        content: "hello".to_string(),
        create_time: 1_700_000_000,
        like_count,
        comment_count,
        hate_count,
        liked: false,
        hated: false,
        origin_id: None,
        origin_content: None,
        origin_sender: None,
        origin_create_time: None,
    }
}

fn requester(id: i32) -> UserInfo {
    UserInfo { id, nick: "reader".to_string() }
}

fn like_count_of(store: &mut CacheStore, post: i64) -> Result<i64, MyError> {
    store.get_i64(&CacheKey { relation: Relation::PostLikeCount, id: post })
}

#[test]
fn reconcile_falls_back_on_pure_miss() {
    let mut store = CacheStore::new();
    let mut post = fresh_post(42, 5, 3, 2);
    let user = requester(7);
    post.sync_cache_data(Some(&user), &mut store).unwrap();
    assert_eq!(post.like_count, 5);
    assert_eq!(post.comment_count, 3);
    assert_eq!(post.hate_count, 2);
    assert!(!post.liked);
    assert!(!post.hated);
}

#[test]
fn reconcile_without_user_reads_no_flags() {
    let mut store = CacheStore::new();
    like(&42, &7, &mut store).unwrap();
    let mut post = fresh_post(42, 5, 3, 2);
    post.sync_cache_data(None, &mut store).unwrap();
    assert_eq!(post.like_count, 1);
    assert!(!post.liked);
}

#[test]
fn like_twice_is_duplicate_and_counts_once() {
    let mut store = CacheStore::new();
    assert_eq!(like(&42, &7, &mut store), Ok(()));
    assert_eq!(like_count_of(&mut store, 42), Ok(1));
    assert_eq!(like(&42, &7, &mut store), Err(MyError::DuplicateAction));
    assert_eq!(like_count_of(&mut store, 42), Ok(1));
}

#[test]
fn like_then_unlike_restores_membership_and_count() {
    let mut store = CacheStore::new();
    like(&42, &7, &mut store).unwrap();
    assert_eq!(cancel_like(&42, &7, &mut store), Ok(()));
    let member = store
        .exec(RedisCmd::sismember(&CacheKey { relation: Relation::PostLikes, id: 42 }, 7))
        .unwrap();
    assert!(!member.integer_to_bool());
    assert_eq!(like_count_of(&mut store, 42), Ok(0));
}

#[test]
fn unlike_without_like_fails_and_changes_nothing() {
    let mut store = CacheStore::new();
    assert_eq!(cancel_like(&42, &7, &mut store), Err(MyError::NotMember));
    assert_eq!(like_count_of(&mut store, 42), Err(MyError::ParseError));
    let mut post = fresh_post(42, 5, 0, 0);
    post.sync_cache_data(Some(&requester(7)), &mut store).unwrap();
    assert_eq!(post.like_count, 5);
}

#[test]
fn hate_mirror_of_like() {
    let mut store = CacheStore::new();
    assert_eq!(hate(&9, &7, &mut store), Ok(()));
    assert_eq!(hate(&9, &7, &mut store), Err(MyError::DuplicateAction));
    assert_eq!(cancel_hate(&9, &7, &mut store), Ok(()));
    assert_eq!(cancel_hate(&9, &7, &mut store), Err(MyError::NotMember));
}

#[test]
fn delete_post_clears_both_like_keys() {
    let mut store = CacheStore::new();
    like(&42, &7, &mut store).unwrap();
    hate(&42, &8, &mut store).unwrap();
    delete_post_cache(&42, &mut store);
    assert_eq!(like_count_of(&mut store, 42), Err(MyError::ParseError));
    let member = store
        .exec(RedisCmd::sismember(&CacheKey { relation: Relation::PostLikes, id: 42 }, 7))
        .unwrap();
    assert_eq!(member, Reply::Integer(0));
    let mut resurrected = fresh_post(42, 5, 3, 2);
    resurrected.sync_cache_data(Some(&requester(7)), &mut store).unwrap();
    assert_eq!(resurrected.like_count, 5);
    assert_eq!(resurrected.hate_count, 2);
    assert!(!resurrected.liked);
    assert!(!resurrected.hated);
}

#[test]
fn cache_becomes_authoritative_after_first_like() {
    // Post 42 has relational like_count 5 and no cache key: reconciling
    // reports 5. A first like seeds the counter at 1, so the next
    // reconciliation reports 1 — the divergence is expected until the
    // relational aggregate is refreshed independently.
    let mut store = CacheStore::new();
    let user = requester(7);

    let mut post = fresh_post(42, 5, 0, 0);
    post.sync_cache_data(Some(&user), &mut store).unwrap();
    assert_eq!(post.like_count, 5);

    like(&42, &7, &mut store).unwrap();
    let member = store
        .exec(RedisCmd::sismember(&CacheKey { relation: Relation::PostLikes, id: 42 }, 7))
        .unwrap();
    assert!(member.integer_to_bool());
    assert_eq!(like_count_of(&mut store, 42), Ok(1));

    let mut post2 = fresh_post(42, 5, 0, 0);
    post2.sync_cache_data(Some(&user), &mut store).unwrap();
    assert_eq!(post2.like_count, 1);
    assert!(post2.liked);
}

#[test]
fn reconcile_applies_replies_by_position() {
    let mut post = fresh_post(1, 10, 20, 30);
    let replies = vec![
        Reply::Bulk("11".to_string()),
        Reply::Nil,
        Reply::Bulk("junk".to_string()),
        Reply::Integer(1),
        Reply::Integer(0),
    ];
    post.apply_cache_replies(true, &replies);
    assert_eq!(post.like_count, 11);
    assert_eq!(post.comment_count, 20);
    assert_eq!(post.hate_count, 30);
    assert!(post.liked);
    assert!(!post.hated);
}

#[test]
fn build_sync_commands_shape() {
    let post = fresh_post(42, 0, 0, 0);
    let with_user = post.build_sync_commands(Some(&requester(7)));
    assert_eq!(with_user, vec![
        Cmd::Get(CacheKey { relation: Relation::PostLikeCount, id: 42 }),
        Cmd::Get(CacheKey { relation: Relation::PostCommentsCount, id: 42 }),
        Cmd::Get(CacheKey { relation: Relation::PostHateCount, id: 42 }),
        Cmd::Sismember(CacheKey { relation: Relation::PostLikes, id: 42 }, 7),
        Cmd::Sismember(CacheKey { relation: Relation::PostHates, id: 42 }, 7),
    ]);
    let without = post.build_sync_commands(None);
    assert_eq!(without.len(), 3);
}

#[test]
fn post_sender_cache_round_trip() {
    let mut store = CacheStore::new();
    let post = BigInt::new(55);
    assert_eq!(cached_post_sender(&mut store, &post), None);
    save_post_sender_cache(&mut store, &post, &12);
    assert_eq!(cached_post_sender(&mut store, &post), Some(12));
}

#[test]
fn post_sender_resolution_order() {
    assert_eq!(resolve_post_sender(Some(1), Some(2)), Ok(1));
    assert_eq!(resolve_post_sender(None, Some(2)), Ok(2));
    assert_eq!(resolve_post_sender(Some(1), None), Ok(1));
    assert_eq!(resolve_post_sender(None, None), Err(MyError::NotFound));
}

#[test]
fn post_with_comments_starts_empty() {
    let post = fresh_post(1, 0, 0, 0);
    let wrapped = PostExtendsWithComment::from_post_ext(post);
    assert!(wrapped.comments.is_empty());
    assert_eq!(PostExtendsWithComment::max_comments(), 10);
}

#[test]
fn mutation_decisions_from_membership_replies() {
    let likes = CacheKey { relation: Relation::PostLikes, id: 42 };
    let like_count = CacheKey { relation: Relation::PostLikeCount, id: 42 };
    assert_eq!(like_check_cmd(&42, &7), Cmd::Sismember(likes, 7));
    assert_eq!(
        hate_check_cmd(&42, &7),
        Cmd::Sismember(CacheKey { relation: Relation::PostHates, id: 42 }, 7)
    );
    // A member's like is a duplicate; a non-member gets the paired batch.
    assert_eq!(
        like_mutation(&42, &7, &Reply::Integer(1)),
        Err(MyError::DuplicateAction)
    );
    assert_eq!(
        like_mutation(&42, &7, &Reply::Integer(0)).unwrap(),
        vec![Cmd::Sadd(likes, 7), Cmd::Incr(like_count)]
    );
    // The mirror: only a member may take a like back.
    assert_eq!(unlike_mutation(&42, &7, &Reply::Integer(0)), Err(MyError::NotMember));
    assert_eq!(
        unlike_mutation(&42, &7, &Reply::Integer(1)).unwrap(),
        vec![Cmd::Srem(likes, 7), Cmd::Decr(like_count)]
    );
    assert_eq!(post_cache_del_cmds(&42).len(), 4);
    let post = BigInt::new(42);
    assert_eq!(
        save_post_sender_cmd(&post, &7),
        Cmd::Put(CacheKey { relation: Relation::PostSender, id: 42 }, 7)
    );
    assert_eq!(
        post_sender_probe_cmd(&post),
        Cmd::Get(CacheKey { relation: Relation::PostSender, id: 42 })
    );
}
