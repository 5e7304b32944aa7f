//! The cache key namespace: a stable, collision-free string key for each
//! (relation, entity id) pair. A key reads `relation:id`; the relation
//! prefix never contains the separator, so distinct relations can never
//! collide, and distinct ids under one relation differ in the id part.

use vstd::prelude::*;
use vstd::string::StringExecFns;
use crate::num::{dec_chars, i64_to_string, is_digit_char, lemma_dec_roundtrip, lemma_udec_val,
    parse_i64_spec, udec};

verus! {

/// The relations the cache tracks, each its own key prefix.
#[derive(Clone, Copy, PartialEq, Eq, Structural, Debug, Hash)]
pub enum Relation {
    /// Users who liked a post: a membership set.
    PostLikes,
    /// Running like total of a post: a counter.
    PostLikeCount,
    /// Users who hated a post: a membership set.
    PostHates,
    /// Running hate total of a post: a counter.
    PostHateCount,
    /// Running comment total of a post: a counter.
    PostCommentsCount,
    /// Author of a post: a plain value.
    PostSender,
    /// Unread comment notices of a user: a counter.
    UnreadComments,
    /// Unread like notices of a user: a counter.
    UnreadLikes,
    /// Unread hate notices of a user: a counter.
    UnreadHates,
    /// Unread friend-added notices of a user: a counter.
    UnreadFriendAdd,
    /// Unread friend-removed notices of a user: a counter.
    UnreadFriendRemove,
}

/// A structured cache key: the relation and the entity or user id under it.
#[derive(Clone, Copy, PartialEq, Eq, Structural, Debug, Hash)]
pub struct CacheKey {
    pub relation: Relation,
    pub id: i64,
}

/// The key prefix of a relation.
pub open spec fn relation_prefix(r: Relation) -> Seq<char> {
    match r {
        Relation::PostLikes => "post_likes"@,
        Relation::PostLikeCount => "post_like_count"@,
        Relation::PostHates => "post_hates"@,
        Relation::PostHateCount => "post_hate_count"@,
        Relation::PostCommentsCount => "post_comments_count"@,
        Relation::PostSender => "post_sender"@,
        Relation::UnreadComments => "unread_comments"@,
        Relation::UnreadLikes => "unread_likes"@,
        Relation::UnreadHates => "unread_hates"@,
        Relation::UnreadFriendAdd => "unread_friend_add"@,
        Relation::UnreadFriendRemove => "unread_friend_remove"@,
    }
}

/// The string key of a (relation, id) pair: `prefix`, `:`, decimal id.
pub open spec fn key_chars(r: Relation, id: int) -> Seq<char> {
    relation_prefix(r) + seq![':'] + dec_chars(id)
}

/// The string key of a structured key.
pub open spec fn cache_key_chars(k: CacheKey) -> Seq<char> {
    key_chars(k.relation, k.id as int)
}

proof fn reveal_prefixes()
    ensures
        forall|r: Relation, j: int|
            0 <= j < relation_prefix(r).len() ==> #[trigger] relation_prefix(r)[j] != ':',
        forall|r1: Relation, r2: Relation|
            relation_prefix(r1) == relation_prefix(r2) ==> r1 == r2,
{
    reveal_strlit("post_likes");
    reveal_strlit("post_like_count");
    reveal_strlit("post_hates");
    reveal_strlit("post_hate_count");
    reveal_strlit("post_comments_count");
    reveal_strlit("post_sender");
    reveal_strlit("unread_comments");
    reveal_strlit("unread_likes");
    reveal_strlit("unread_hates");
    reveal_strlit("unread_friend_add");
    reveal_strlit("unread_friend_remove");
    assert forall|r1: Relation, r2: Relation|
        relation_prefix(r1) == relation_prefix(r2) implies r1 == r2 by {
        if r1 != r2 {
            let p1 = relation_prefix(r1);
            let p2 = relation_prefix(r2);
            if p1.len() == p2.len() {
                // Equal-length prefixes differ at one of these positions.
                assert(exists|j: int| 0 <= j < p1.len() && p1[j] != p2[j]) by {
                    assert(p1[7] != p2[7] || p1[8] != p2[8] || p1[10] != p2[10] || p1.len()
                        != p2.len() || p1[p1.len() - 1] != p2[p2.len() - 1] || p1[0] != p2[0]);
                }
            }
        }
    }
}

/// The decimal form of an id never contains the key separator.
proof fn lemma_dec_chars_no_colon(id: int)
    ensures
        forall|j: int| 0 <= j < dec_chars(id).len() ==> #[trigger] dec_chars(id)[j] != ':',
{
    if id >= 0 {
        lemma_udec_val(id as nat);
        assert forall|j: int| 0 <= j < dec_chars(id).len() implies #[trigger] dec_chars(id)[j]
            != ':' by {
            assert(is_digit_char(dec_chars(id)[j]));
        }
    } else {
        lemma_udec_val((-id) as nat);
        assert forall|j: int| 0 <= j < dec_chars(id).len() implies #[trigger] dec_chars(id)[j]
            != ':' by {
            if j > 0 {
                assert(dec_chars(id)[j] == udec((-id) as nat)[j - 1]);
                assert(is_digit_char(dec_chars(id)[j]));
            }
        }
    }
}

/// THE KEY NAMESPACE LAW: the same inputs always give the same key, and
/// two keys are equal only when both the relation and the id agree —
/// different relations never collide, nor do different ids.
pub proof fn lemma_key_injective(r1: Relation, id1: i64, r2: Relation, id2: i64)
    requires
        key_chars(r1, id1 as int) == key_chars(r2, id2 as int),
    ensures
        r1 == r2,
        id1 == id2,
{
    reveal_prefixes();
    let p1 = relation_prefix(r1);
    let p2 = relation_prefix(r2);
    let s1 = key_chars(r1, id1 as int);
    let s2 = key_chars(r2, id2 as int);
    lemma_dec_chars_no_colon(id1 as int);
    lemma_dec_chars_no_colon(id2 as int);
    assert(s1[p1.len() as int] == ':');
    assert(s2[p2.len() as int] == ':');
    assert(p1.len() == p2.len()) by {
        if p1.len() < p2.len() {
            assert(s2[p1.len() as int] == p2[p1.len() as int]);
            assert(s2[p1.len() as int] != ':');
        } else if p2.len() < p1.len() {
            assert(s1[p2.len() as int] == p1[p2.len() as int]);
            assert(s1[p2.len() as int] != ':');
        }
    }
    assert(p1 =~= p2) by {
        assert forall|j: int| 0 <= j < p1.len() implies p1[j] == p2[j] by {
            assert(s1[j] == p1[j]);
            assert(s2[j] == p2[j]);
        }
    }
    assert(r1 == r2);
    let d1 = dec_chars(id1 as int);
    let d2 = dec_chars(id2 as int);
    assert(d1.len() == d2.len()) by {
        assert(s1.len() == p1.len() + 1 + d1.len());
        assert(s2.len() == p2.len() + 1 + d2.len());
    }
    assert(d1 =~= d2) by {
        assert forall|j: int| 0 <= j < d1.len() implies d1[j] == d2[j] by {
            assert(s1[p1.len() + 1 + j] == d1[j]);
            assert(s2[p2.len() + 1 + j] == d2[j]);
        }
    }
    lemma_dec_roundtrip(id1);
    lemma_dec_roundtrip(id2);
    assert(parse_i64_spec(d1) == Some(id1));
    assert(parse_i64_spec(d2) == Some(id2));
}

/// The wire form of a structured key.
pub fn key_string(k: &CacheKey) -> (r: String)
    ensures
        r@ == cache_key_chars(*k),
{
    proof {
        reveal_strlit("post_likes");
        reveal_strlit("post_like_count");
        reveal_strlit("post_hates");
        reveal_strlit("post_hate_count");
        reveal_strlit("post_comments_count");
        reveal_strlit("post_sender");
        reveal_strlit("unread_comments");
        reveal_strlit("unread_likes");
        reveal_strlit("unread_hates");
        reveal_strlit("unread_friend_add");
        reveal_strlit("unread_friend_remove");
        reveal_strlit(":");
    }
    let prefix: &str = match k.relation {
        Relation::PostLikes => "post_likes",
        Relation::PostLikeCount => "post_like_count",
        Relation::PostHates => "post_hates",
        Relation::PostHateCount => "post_hate_count",
        Relation::PostCommentsCount => "post_comments_count",
        Relation::PostSender => "post_sender",
        Relation::UnreadComments => "unread_comments",
        Relation::UnreadLikes => "unread_likes",
        Relation::UnreadHates => "unread_hates",
        Relation::UnreadFriendAdd => "unread_friend_add",
        Relation::UnreadFriendRemove => "unread_friend_remove",
    };
    let mut s = prefix.to_owned();
    s.append(":");
    let id_part = i64_to_string(k.id);
    s.append(id_part.as_str());
    proof {
        assert(s@ =~= cache_key_chars(*k));
    }
    s
}

/// Namespaced string keys for everything the cache stores, as the wire
/// protocol wants them.
#[derive(Debug)]
pub struct RedisKey;

impl RedisKey {
    /// Key of the membership set of users who liked a post.
    pub fn post_likes(post_id: i64) -> (r: String)
        ensures
            r@ == key_chars(Relation::PostLikes, post_id as int),
    {
        key_string(&CacheKey { relation: Relation::PostLikes, id: post_id })
    }

    /// Key of the like counter of a post.
    pub fn post_like_count(post_id: i64) -> (r: String)
        ensures
            r@ == key_chars(Relation::PostLikeCount, post_id as int),
    {
        key_string(&CacheKey { relation: Relation::PostLikeCount, id: post_id })
    }

    /// Key of the membership set of users who hated a post.
    pub fn post_hates(post_id: i64) -> (r: String)
        ensures
            r@ == key_chars(Relation::PostHates, post_id as int),
    {
        key_string(&CacheKey { relation: Relation::PostHates, id: post_id })
    }

    /// Key of the hate counter of a post.
    pub fn post_hate_count(post_id: i64) -> (r: String)
        ensures
            r@ == key_chars(Relation::PostHateCount, post_id as int),
    {
        key_string(&CacheKey { relation: Relation::PostHateCount, id: post_id })
    }

    /// Key of the comment counter of a post.
    pub fn post_comments_count(post_id: i64) -> (r: String)
        ensures
            r@ == key_chars(Relation::PostCommentsCount, post_id as int),
    {
        key_string(&CacheKey { relation: Relation::PostCommentsCount, id: post_id })
    }

    /// Key of the cached author of a post.
    pub fn post_sender(post_id: i64) -> (r: String)
        ensures
            r@ == key_chars(Relation::PostSender, post_id as int),
    {
        key_string(&CacheKey { relation: Relation::PostSender, id: post_id })
    }

    /// Key of the unread comment-notice counter of a user.
    pub fn unread_comments(user_id: i32) -> (r: String)
        ensures
            r@ == key_chars(Relation::UnreadComments, user_id as int),
    {
        key_string(&CacheKey { relation: Relation::UnreadComments, id: user_id as i64 })
    }

    /// Key of the unread like-notice counter of a user.
    pub fn unread_likes(user_id: i32) -> (r: String)
        ensures
            r@ == key_chars(Relation::UnreadLikes, user_id as int),
    {
        key_string(&CacheKey { relation: Relation::UnreadLikes, id: user_id as i64 })
    }

    /// Key of the unread hate-notice counter of a user.
    pub fn unread_hates(user_id: i32) -> (r: String)
        ensures
            r@ == key_chars(Relation::UnreadHates, user_id as int),
    {
        key_string(&CacheKey { relation: Relation::UnreadHates, id: user_id as i64 })
    }

    /// Key of the unread friend-added counter of a user.
    pub fn unread_friend_add(user_id: i32) -> (r: String)
        ensures
            r@ == key_chars(Relation::UnreadFriendAdd, user_id as int),
    {
        key_string(&CacheKey { relation: Relation::UnreadFriendAdd, id: user_id as i64 })
    }

    /// Key of the unread friend-removed counter of a user.
    pub fn unread_friend_remove(user_id: i32) -> (r: String)
        ensures
            r@ == key_chars(Relation::UnreadFriendRemove, user_id as int),
    {
        key_string(&CacheKey { relation: Relation::UnreadFriendRemove, id: user_id as i64 })
    }
}

} // verus!
