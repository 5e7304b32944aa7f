//! Post records and counter reconciliation: a freshly fetched record's
//! counters and membership flags are overwritten with live cache data
//! before it goes back to the caller, falling back field by field to the
//! relational values already on the record wherever the cache has nothing.

use vstd::prelude::*;
use crate::auth::UserInfo;
use crate::bigint::BigInt;
use crate::cmd::{Cmd, RedisCmd, Reply, RespValueRedisHelper, reply_num};
use crate::errors::MyError;
use crate::keys::CacheKey;
use crate::ledger::{comments_count_key, hate_count_key, hates_key, like_count_key, likes_key};
use crate::num::lemma_dec_roundtrip;
use crate::store::{CacheStore, has_num, is_member, num_at, StoreModel};
use crate::user::UserData;

verus! {

/// A post or comment, as handed back to callers: the relational row
/// enriched with live counters and the requester's own membership flags.
#[derive(Debug)]
pub struct PostExtends {
    pub id: BigInt,
    pub sender: UserData,
    pub content: String,
    /// Creation instant, as a timestamp the boundary renders.
    pub create_time: i64,
    pub like_count: i64,
    pub comment_count: i64,
    pub hate_count: i64,
    /// Whether the requesting user liked this post; from the cache only.
    pub liked: bool,
    /// Whether the requesting user hated this post; from the cache only.
    pub hated: bool,
    /// For reposts and comments: the origin post.
    pub origin_id: Option<BigInt>,
    pub origin_content: Option<String>,
    pub origin_sender: Option<UserData>,
    pub origin_create_time: Option<i64>,
}

/// The read batch reconciliation issues: the three counters always, and
/// the requester's two membership flags when an identity is present.
/// Replies are consumed by position, in exactly this order.
pub open spec fn sync_cmds(post_id: i64, user: Option<i32>) -> Seq<Cmd> {
    let base = seq![
        Cmd::Get(like_count_key(post_id)),
        Cmd::Get(comments_count_key(post_id)),
        Cmd::Get(hate_count_key(post_id)),
    ];
    match user {
        Some(u) => base + seq![
            Cmd::Sismember(likes_key(post_id), u as i64),
            Cmd::Sismember(hates_key(post_id), u as i64),
        ],
        None => base,
    }
}

/// A counter after one positional read: the cached number if that reply
/// carries one, the previous value otherwise.
pub open spec fn patched_count(prev: i64, replies: Seq<Reply>, i: int) -> i64 {
    if 0 <= i < replies.len() {
        match reply_num(replies[i]) {
            Some(n) => n,
            None => prev,
        }
    } else {
        prev
    }
}

/// A membership flag after one positional read: set on an affirmative
/// reply, left alone otherwise.
pub open spec fn patched_flag(prev: bool, replies: Seq<Reply>, i: int) -> bool {
    prev || (0 <= i < replies.len() && replies[i] == Reply::Integer(1))
}

/// A counter as reconciliation leaves it: the cache's number when the key
/// holds one, the record's previous (relational) value otherwise.
pub open spec fn reconciled_count(m: StoreModel, k: CacheKey, prev: i64) -> i64 {
    if has_num(m, k) {
        num_at(m, k)
    } else {
        prev
    }
}

impl PostExtends {
    /// Builds the reconciliation read batch for this record.
    pub fn build_sync_commands(&self, user: Option<&UserInfo>) -> (r: Vec<Cmd>)
        ensures
            r@ == sync_cmds(self.id@, match user {
                Some(u) => Some(u.id),
                None => None::<i32>,
            }),
    {
        let post_id: i64 = *self.id.inner();
        let like_count = CacheKey {
            relation: crate::keys::Relation::PostLikeCount,
            id: post_id,
        };
        let comments_count = CacheKey {
            relation: crate::keys::Relation::PostCommentsCount,
            id: post_id,
        };
        let hate_count = CacheKey {
            relation: crate::keys::Relation::PostHateCount,
            id: post_id,
        };
        let mut commands: Vec<Cmd> = Vec::new();
        commands.push(RedisCmd::get(&like_count));
        commands.push(RedisCmd::get(&comments_count));
        commands.push(RedisCmd::get(&hate_count));
        if let Some(u) = user {
            let likes = CacheKey { relation: crate::keys::Relation::PostLikes, id: post_id };
            let hates = CacheKey { relation: crate::keys::Relation::PostHates, id: post_id };
            commands.push(RedisCmd::sismember(&likes, u.id as i64));
            commands.push(RedisCmd::sismember(&hates, u.id as i64));
            proof {
                assert(commands@ =~= sync_cmds(self.id@, Some(u.id)));
            }
        } else {
            proof {
                assert(commands@ =~= sync_cmds(self.id@, None::<i32>));
            }
        }
        commands
    }

    /// Consumes a reconciliation reply batch positionally: counters first,
    /// then the two membership flags when the batch was built with a user.
    /// Any reply that is absent or unreadable leaves its field alone.
    pub fn apply_cache_replies(&mut self, have_user: bool, replies: &Vec<Reply>)
        ensures
            *final(self) == (PostExtends {
                like_count: patched_count(old(self).like_count, replies@, 0),
                comment_count: patched_count(old(self).comment_count, replies@, 1),
                hate_count: patched_count(old(self).hate_count, replies@, 2),
                liked: if have_user {
                    patched_flag(old(self).liked, replies@, 3)
                } else {
                    old(self).liked
                },
                hated: if have_user {
                    patched_flag(old(self).hated, replies@, 4)
                } else {
                    old(self).hated
                },
                ..*old(self)
            }),
    {
        if replies.len() > 0 {
            if let Some(n) = replies[0].bulk_to_num() {
                self.like_count = n;
            }
        }
        if replies.len() > 1 {
            if let Some(n) = replies[1].bulk_to_num() {
                self.comment_count = n;
            }
        }
        if replies.len() > 2 {
            if let Some(n) = replies[2].bulk_to_num() {
                self.hate_count = n;
            }
        }
        if have_user {
            if replies.len() > 3 {
                if replies[3].integer_to_bool() {
                    self.liked = true;
                }
            }
            if replies.len() > 4 {
                if replies[4].integer_to_bool() {
                    self.hated = true;
                }
            }
        }
    }

    /// Overwrites this record's counters and membership flags with live
    /// cache data: one read batch, consumed positionally. The store is only
    /// read. Each counter falls back to the record's relational value on a
    /// cache miss; the flags are set only on an affirmative membership hit.
    pub fn sync_cache_data(&mut self, user: Option<&UserInfo>, store: &mut CacheStore) -> (r:
        Result<(), MyError>)
        requires
            old(store).wf(),
        ensures
            final(store).wf(),
            final(store)@ == old(store)@,
            r is Ok,
            *final(self) == (PostExtends {
                like_count: reconciled_count(
                    old(store)@,
                    like_count_key(old(self).id@),
                    old(self).like_count,
                ),
                comment_count: reconciled_count(
                    old(store)@,
                    comments_count_key(old(self).id@),
                    old(self).comment_count,
                ),
                hate_count: reconciled_count(
                    old(store)@,
                    hate_count_key(old(self).id@),
                    old(self).hate_count,
                ),
                liked: old(self).liked || (user matches Some(u) && is_member(
                    old(store)@,
                    likes_key(old(self).id@),
                    u.id as i64,
                )),
                hated: old(self).hated || (user matches Some(u) && is_member(
                    old(store)@,
                    hates_key(old(self).id@),
                    u.id as i64,
                )),
                ..*old(self)
            }),
    {
        let ghost m0 = store@;
        let ghost p = self.id@;
        let ghost uid = match user {
            Some(u) => Some(u.id),
            None => None::<i32>,
        };
        let have_user = user.is_some();
        let commands = self.build_sync_commands(user);
        let ghost cs = commands@;
        let replies = match store.exec_all(commands) {
            Ok(replies) => replies,
            Err(_) => { return Err(MyError::TransportError); }
        };
        proof {
            assert forall|i: int| 0 <= i < cs.len() implies (cs[i] is Get
                || cs[i] is Sismember) by {
                if uid is Some && i >= 3 {
                    assert(cs[i] is Sismember);
                }
            }
            crate::store::lemma_reads_preserve(m0, cs, cs.len() as int);
            assert(cs.take(cs.len() as int) =~= cs);
            assert forall|i: int| 0 <= i < cs.len() implies crate::store::reply_matches(
                m0,
                cs[i],
                #[trigger] replies@[i],
            ) by {
                crate::store::lemma_reads_preserve(m0, cs, i);
            }
            lemma_sync_replies(m0, p, uid, replies@);
        }
        self.apply_cache_replies(have_user, &replies);
        Ok(())
    }
}

/// What the positional replies of the reconciliation batch mean: each
/// counter read patches to the cached number exactly when the key holds
/// one, and each membership read answers one exactly for a member.
proof fn lemma_sync_replies(m: StoreModel, p: i64, user: Option<i32>, replies: Seq<Reply>)
    requires
        replies.len() == sync_cmds(p, user).len(),
        forall|i: int| 0 <= i < replies.len() ==> crate::store::reply_matches(
            m,
            sync_cmds(p, user)[i],
            #[trigger] replies[i],
        ),
    ensures
        forall|prev: i64| patched_count(prev, replies, 0) == reconciled_count(
            m,
            like_count_key(p),
            prev,
        ),
        forall|prev: i64| patched_count(prev, replies, 1) == reconciled_count(
            m,
            comments_count_key(p),
            prev,
        ),
        forall|prev: i64| patched_count(prev, replies, 2) == reconciled_count(
            m,
            hate_count_key(p),
            prev,
        ),
        forall|prev: bool| user matches Some(u) ==> #[trigger] patched_flag(prev, replies, 3)
            == (prev || is_member(m, likes_key(p), u as i64)),
        forall|prev: bool| user matches Some(u) ==> #[trigger] patched_flag(prev, replies, 4)
            == (prev || is_member(m, hates_key(p), u as i64)),
{
    let cs = sync_cmds(p, user);
    crate::store::lemma_get_reply(m, like_count_key(p), replies[0]);
    crate::store::lemma_get_reply(m, comments_count_key(p), replies[1]);
    crate::store::lemma_get_reply(m, hate_count_key(p), replies[2]);
    if let Some(u) = user {
        assert(cs[3] == Cmd::Sismember(likes_key(p), u as i64));
        assert(cs[4] == Cmd::Sismember(hates_key(p), u as i64));
        assert(replies.len() == 5);
        assert forall|prev: bool| patched_flag(prev, replies, 3) == (prev || is_member(
            m,
            likes_key(p),
            u as i64,
        )) by {
            lemma_member_reply(m, likes_key(p), u as i64, replies[3]);
        }
        assert forall|prev: bool| patched_flag(prev, replies, 4) == (prev || is_member(
            m,
            hates_key(p),
            u as i64,
        )) by {
            lemma_member_reply(m, hates_key(p), u as i64, replies[4]);
        }
    }
}

/// A SISMEMBER reply is one exactly for a member.
proof fn lemma_member_reply(m: StoreModel, k: CacheKey, u: i64, r: Reply)
    requires
        crate::store::reply_matches(m, Cmd::Sismember(k, u), r),
    ensures
        (r == Reply::Integer(1)) == is_member(m, k, u),
{
}

/// A fetched post together with its first page of comments.
#[derive(Debug)]
pub struct PostExtendsWithComment {
    pub post: PostExtends,
    pub comments: Vec<PostExtends>,
}

impl PostExtendsWithComment {
    /// Wraps a post, with room for its first page of comments.
    pub fn from_post_ext(post: PostExtends) -> (r: Self)
        ensures
            r.post == post,
            r.comments@.len() == 0,
    {
        Self { post, comments: Vec::new() }
    }

    /// How many comments the first page carries; the rest are paged.
    pub fn max_comments() -> (r: usize)
        ensures
            r == 10,
    {
        10
    }
}

/// What a comment insert answers: the new comment's id, the post it
/// extends, and who is to be notified.
#[derive(Debug)]
pub struct CommentResult {
    pub id: BigInt,
    pub extends: BigInt,
    pub receiver: i32,
}

/// New-post payload.
#[derive(Debug)]
pub struct AddPostDTO {
    pub content: String,
}

/// What a new post answers: its id, as a decimal string.
#[derive(Debug)]
pub struct AddPostResultDTO {
    pub id: String,
}

/// Post-deletion payload.
#[derive(Debug)]
pub struct DelPostDTO {
    pub id: BigInt,
}

/// Like/unlike/hate/unhate payload: the post acted on.
#[derive(Debug, Clone, Copy)]
pub struct LikePostDTO {
    pub id: i64,
}

/// Single-post read payload.
#[derive(Debug, Clone, Copy)]
pub struct GetPostDTO {
    pub id: i64,
}

/// Own-posts listing payload.
#[derive(Debug, Clone, Copy)]
pub struct GetMyPostsDTO {
    pub page: i64,
}

/// Comment payload: the content and the id of the post commented on, as a
/// decimal string.
#[derive(Debug)]
pub struct CommentPostDTO {
    pub content: String,
    pub origin_id: String,
}

} // verus!
