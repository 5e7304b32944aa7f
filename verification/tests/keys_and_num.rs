use wepo::bigint::BigInt;
use wepo::errors::MyError;
use wepo::keys::{key_string, CacheKey, Relation};
use wepo::num::{i64_to_string, parse_i64, u64_to_string};
use wepo::string_to_i64;
use wepo::RedisKey;

#[test]
fn key_strings_are_namespaced() {
    assert_eq!(RedisKey::post_likes(42), "post_likes:42");
    assert_eq!(RedisKey::post_like_count(42), "post_like_count:42");
    assert_eq!(RedisKey::post_hates(7), "post_hates:7");
    assert_eq!(RedisKey::post_hate_count(7), "post_hate_count:7");
    assert_eq!(RedisKey::post_comments_count(1), "post_comments_count:1");
    assert_eq!(RedisKey::post_sender(99), "post_sender:99");
    assert_eq!(RedisKey::unread_comments(3), "unread_comments:3");
    assert_eq!(RedisKey::unread_likes(3), "unread_likes:3");
    assert_eq!(RedisKey::unread_hates(3), "unread_hates:3");
    assert_eq!(RedisKey::unread_friend_add(3), "unread_friend_add:3");
    assert_eq!(RedisKey::unread_friend_remove(3), "unread_friend_remove:3");
}

#[test]
fn key_strings_same_inputs_same_key() {
    let a = key_string(&CacheKey { relation: Relation::PostLikes, id: -5 });
    let b = key_string(&CacheKey { relation: Relation::PostLikes, id: -5 });
    assert_eq!(a, b);
    assert_eq!(a, "post_likes:-5");
}

#[test]
fn key_strings_distinct_relations_never_collide() {
    let relations = [
        Relation::PostLikes,
        Relation::PostLikeCount,
        Relation::PostHates,
        Relation::PostHateCount,
        Relation::PostCommentsCount,
        Relation::PostSender,
        Relation::UnreadComments,
        Relation::UnreadLikes,
        Relation::UnreadHates,
        Relation::UnreadFriendAdd,
        Relation::UnreadFriendRemove,
    ];
    for (i, r1) in relations.iter().enumerate() {
        for (j, r2) in relations.iter().enumerate() {
            let k1 = key_string(&CacheKey { relation: *r1, id: 11 });
            let k2 = key_string(&CacheKey { relation: *r2, id: 11 });
            assert_eq!(i == j, k1 == k2);
        }
    }
}

#[test]
fn decimal_printing() {
    assert_eq!(i64_to_string(0), "0");
    assert_eq!(i64_to_string(7), "7");
    assert_eq!(i64_to_string(-5), "-5");
    assert_eq!(i64_to_string(1234567890), "1234567890");
    assert_eq!(i64_to_string(i64::MAX), "9223372036854775807");
    assert_eq!(i64_to_string(i64::MIN), "-9223372036854775808");
    assert_eq!(u64_to_string(10), "10");
}

#[test]
fn decimal_parsing() {
    assert_eq!(parse_i64("123"), Some(123));
    assert_eq!(parse_i64("+5"), Some(5));
    assert_eq!(parse_i64("007"), Some(7));
    assert_eq!(parse_i64("-42"), Some(-42));
    assert_eq!(parse_i64("9223372036854775807"), Some(i64::MAX));
    assert_eq!(parse_i64("-9223372036854775808"), Some(i64::MIN));
    assert_eq!(parse_i64("9223372036854775808"), None);
    assert_eq!(parse_i64("-9223372036854775809"), None);
    assert_eq!(parse_i64("99999999999999999999999999"), None);
    assert_eq!(parse_i64(""), None);
    assert_eq!(parse_i64("-"), None);
    assert_eq!(parse_i64("+"), None);
    assert_eq!(parse_i64("12a"), None);
    assert_eq!(parse_i64(" 12"), None);
}

#[test]
fn parse_matches_std() {
    for s in ["0", "123", "-123", "+7", "007", "9223372036854775807",
        "-9223372036854775808", "9223372036854775808", "abc", "", "1 2", "--3"] {
        assert_eq!(parse_i64(s), s.parse::<i64>().ok(), "on {:?}", s);
    }
}

#[test]
fn string_to_i64_tolerates_garbage() {
    assert_eq!(string_to_i64(&"123".to_string()), 123);
    assert_eq!(string_to_i64(&"abc".to_string()), 0);
    assert_eq!(string_to_i64(&"".to_string()), 0);
    assert_eq!(string_to_i64(&"-8".to_string()), -8);
}

#[test]
fn bigint_text_round_trip() {
    let b = BigInt::new(1234567890123456789);
    assert_eq!(*b.inner(), 1234567890123456789);
    assert_eq!(b.to_text(), "1234567890123456789");
    let back = BigInt::from_text("1234567890123456789").unwrap();
    assert_eq!(*back.inner(), 1234567890123456789);
    assert_eq!(BigInt::from_text("oops"), Err(MyError::ParseError));
}
