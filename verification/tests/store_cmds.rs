use wepo::cmd::{Cmd, RedisCmd, Reply, RespValueRedisHelper};
use wepo::errors::MyError;
use wepo::keys::{CacheKey, Relation};
use wepo::store::CacheStore;

fn counter(id: i64) -> CacheKey {
    CacheKey { relation: Relation::PostLikeCount, id }
}

fn members(id: i64) -> CacheKey {
    CacheKey { relation: Relation::PostLikes, id }
}

#[test]
fn reply_decoding_helpers() {
    assert!(Reply::Integer(1).integer_to_bool());
    assert!(!Reply::Integer(0).integer_to_bool());
    assert!(!Reply::Integer(2).integer_to_bool());
    assert!(!Reply::Nil.integer_to_bool());
    assert_eq!(Reply::Integer(9).integer_to_i64(), 9);
    assert_eq!(Reply::Nil.integer_to_i64(), 0);
    assert_eq!(Reply::Bulk("12".to_string()).bulk_to_num(), Some(12));
    assert_eq!(Reply::Bulk("-3".to_string()).bulk_to_num(), Some(-3));
    assert_eq!(Reply::Bulk("junk".to_string()).bulk_to_num(), None);
    assert_eq!(Reply::Integer(5).bulk_to_num(), None);
    assert_eq!(Reply::Nil.bulk_to_num(), None);
}

#[test]
fn counters_seed_from_zero() {
    let mut store = CacheStore::new();
    assert_eq!(store.exec(RedisCmd::incr(&counter(1))).unwrap(), Reply::Integer(1));
    assert_eq!(store.exec(RedisCmd::incr(&counter(1))).unwrap(), Reply::Integer(2));
    assert_eq!(store.exec(RedisCmd::decr(&counter(2))).unwrap(), Reply::Integer(-1));
    assert_eq!(store.get_i64(&counter(1)), Ok(2));
    assert_eq!(store.get_i64(&counter(2)), Ok(-1));
}

#[test]
fn get_reads_back_what_set_stored() {
    let mut store = CacheStore::new();
    store.exec(RedisCmd::set(&counter(1), 77)).unwrap();
    assert_eq!(store.exec(RedisCmd::get(&counter(1))).unwrap(), Reply::Bulk("77".to_string()));
    assert_eq!(store.exec(RedisCmd::get(&counter(9))).unwrap(), Reply::Nil);
    assert_eq!(store.get_i64(&counter(9)), Err(MyError::ParseError));
}

#[test]
fn membership_commands() {
    let mut store = CacheStore::new();
    assert_eq!(store.exec(RedisCmd::sismember(&members(1), 7)).unwrap(), Reply::Integer(0));
    assert_eq!(store.exec(RedisCmd::sadd(&members(1), 7)).unwrap(), Reply::Integer(1));
    assert_eq!(store.exec(RedisCmd::sadd(&members(1), 7)).unwrap(), Reply::Integer(0));
    assert_eq!(store.exec(RedisCmd::sadd(&members(1), 8)).unwrap(), Reply::Integer(1));
    assert_eq!(store.exec(RedisCmd::sismember(&members(1), 7)).unwrap(), Reply::Integer(1));
    assert_eq!(store.exec(RedisCmd::srem(&members(1), 7)).unwrap(), Reply::Integer(1));
    assert_eq!(store.exec(RedisCmd::srem(&members(1), 7)).unwrap(), Reply::Integer(0));
    assert_eq!(store.exec(RedisCmd::sismember(&members(1), 8)).unwrap(), Reply::Integer(1));
}

#[test]
fn wrong_type_commands_error_without_change() {
    let mut store = CacheStore::new();
    store.exec(RedisCmd::set(&counter(1), 5)).unwrap();
    store.exec(RedisCmd::sadd(&members(1), 7)).unwrap();
    assert_eq!(store.exec(RedisCmd::sadd(&counter(1), 7)).unwrap(), Reply::Error);
    assert_eq!(store.exec(RedisCmd::sismember(&counter(1), 7)).unwrap(), Reply::Error);
    assert_eq!(store.exec(RedisCmd::incr(&members(1))).unwrap(), Reply::Error);
    assert_eq!(store.exec(RedisCmd::get(&members(1))).unwrap(), Reply::Error);
    assert_eq!(store.get_i64(&counter(1)), Ok(5));
}

#[test]
fn increment_refuses_the_overflowing_step() {
    let mut store = CacheStore::new();
    store.exec(RedisCmd::set(&counter(1), i64::MAX)).unwrap();
    assert_eq!(store.exec(RedisCmd::incr(&counter(1))).unwrap(), Reply::Error);
    assert_eq!(store.get_i64(&counter(1)), Ok(i64::MAX));
    store.exec(RedisCmd::set(&counter(2), i64::MIN)).unwrap();
    assert_eq!(store.exec(RedisCmd::decr(&counter(2))).unwrap(), Reply::Error);
    assert_eq!(store.get_i64(&counter(2)), Ok(i64::MIN));
}

#[test]
fn deletion_reports_presence() {
    let mut store = CacheStore::new();
    store.exec(RedisCmd::set(&counter(1), 5)).unwrap();
    assert_eq!(store.exec(RedisCmd::del(&counter(1))).unwrap(), Reply::Integer(1));
    assert_eq!(store.exec(RedisCmd::del(&counter(1))).unwrap(), Reply::Integer(0));
    assert_eq!(store.exec(RedisCmd::get(&counter(1))).unwrap(), Reply::Nil);
}

#[test]
fn batches_reply_in_submission_order() {
    let mut store = CacheStore::new();
    let replies = store
        .exec_all(vec![
            RedisCmd::incr(&counter(1)),
            RedisCmd::incr(&counter(1)),
            RedisCmd::sadd(&members(1), 7),
            RedisCmd::get(&counter(1)),
        ])
        .unwrap();
    assert_eq!(replies, vec![
        Reply::Integer(1),
        Reply::Integer(2),
        Reply::Integer(1),
        Reply::Bulk("2".to_string()),
    ]);
}

#[test]
fn fire_and_forget_applies_without_replies() {
    let mut store = CacheStore::new();
    store.do_send_all(vec![RedisCmd::incr(&counter(1)), RedisCmd::incr(&counter(1))]);
    assert_eq!(store.get_i64(&counter(1)), Ok(2));
    store.del(&counter(1));
    assert_eq!(store.get_i64(&counter(1)), Err(MyError::ParseError));
}

#[test]
fn removing_the_last_member_drops_the_key() {
    let mut store = CacheStore::new();
    store.exec(RedisCmd::sadd(&members(1), 7)).unwrap();
    store.exec(RedisCmd::srem(&members(1), 7)).unwrap();
    // The key is gone, so an integer write may take its place.
    assert_eq!(store.exec(RedisCmd::incr(&members(1))).unwrap(), Reply::Integer(1));
}

#[test]
fn command_constructors_build_their_commands() {
    let k = counter(3);
    assert_eq!(RedisCmd::get(&k), Cmd::Get(k));
    assert_eq!(RedisCmd::set(&k, 5), Cmd::Put(k, 5));
    assert_eq!(RedisCmd::del(&k), Cmd::Del(k));
    assert_eq!(RedisCmd::incr(&k), Cmd::Incr(k));
    assert_eq!(RedisCmd::decr(&k), Cmd::Decr(k));
    assert_eq!(RedisCmd::sadd(&k, 7), Cmd::Sadd(k, 7));
    assert_eq!(RedisCmd::srem(&k, 7), Cmd::Srem(k, 7));
    assert_eq!(RedisCmd::sismember(&k, 7), Cmd::Sismember(k, 7));
}
