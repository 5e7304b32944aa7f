//! Notification records and the per-user unread counters: one counter per
//! notice category, incremented when a notice is delivered and cleared
//! when the category's list is read.

use vstd::prelude::*;
use crate::bigint::BigInt;
use crate::cmd::{Cmd, RedisCmd, Reply, RespValueRedisHelper, reply_num};
use crate::errors::MyError;
use crate::keys::{cache_key_chars, CacheKey, key_string, Relation};
use crate::store::{CacheStore, has_num, num_at, step, StoreModel};
use crate::user::UserData;

verus! {

/// The categories a notice can fall in, each with its own unread counter.
#[derive(Clone, Copy, Debug, PartialEq, Eq, Structural)]
pub enum NoticeType {
    /// Someone commented on the user's post.
    Comment,
    /// Someone liked the user's post.
    Like,
    /// Someone hated the user's post.
    Hate,
    /// Someone added the user as a friend.
    FriendAdd,
    /// Someone removed the user as a friend.
    FriendRemove,
}

impl NoticeType {
    /// The category's numeric form in the relational store.
    pub open spec fn spec_num(self) -> i16 {
        match self {
            NoticeType::Comment => 1i16,
            NoticeType::Like => 2i16,
            NoticeType::Hate => 3i16,
            NoticeType::FriendAdd => 4i16,
            NoticeType::FriendRemove => 5i16,
        }
    }

    /// The category's numeric form in the relational store.
    pub fn to_i16(&self) -> (r: i16)
        ensures
            r == self.spec_num(),
    {
        match self {
            NoticeType::Comment => 1,
            NoticeType::Like => 2,
            NoticeType::Hate => 3,
            NoticeType::FriendAdd => 4,
            NoticeType::FriendRemove => 5,
        }
    }

    /// The unread-counter key of this category for a user.
    pub open spec fn unread_key(self, user_id: i32) -> CacheKey {
        CacheKey {
            relation: match self {
                NoticeType::Comment => Relation::UnreadComments,
                NoticeType::Like => Relation::UnreadLikes,
                NoticeType::Hate => Relation::UnreadHates,
                NoticeType::FriendAdd => Relation::UnreadFriendAdd,
                NoticeType::FriendRemove => Relation::UnreadFriendRemove,
            },
            id: user_id as i64,
        }
    }

    /// The structured unread-counter key of this category for a user.
    pub fn unread_cache_key(&self, user_id: &i32) -> (r: CacheKey)
        ensures
            r == self.unread_key(*user_id),
    {
        let relation = match self {
            NoticeType::Comment => Relation::UnreadComments,
            NoticeType::Like => Relation::UnreadLikes,
            NoticeType::Hate => Relation::UnreadHates,
            NoticeType::FriendAdd => Relation::UnreadFriendAdd,
            NoticeType::FriendRemove => Relation::UnreadFriendRemove,
        };
        CacheKey { relation, id: *user_id as i64 }
    }

    /// The wire form of this category's unread-counter key for a user.
    pub fn get_notice_key(&self, user_id: &i32) -> (r: String)
        ensures
            r@ == cache_key_chars(self.unread_key(*user_id)),
    {
        let key = self.unread_cache_key(user_id);
        key_string(&key)
    }

    /// One more unread notice of this category for the user: called only
    /// after the notice row is durably inserted, never for one that was not.
    pub fn incr(&self, store: &mut CacheStore, user_id: &i32)
        requires
            old(store).wf(),
        ensures
            final(store).wf(),
            final(store)@ == send_notice_upd(old(store)@, *self, *user_id),
    {
        let key = self.unread_cache_key(user_id);
        let _ = store.exec(RedisCmd::incr(&key));
    }

    /// Clears the user's unread counter for this category: reading any page
    /// of the category's list counts as having read it all.
    pub fn del(&self, store: &mut CacheStore, user_id: &i32)
        requires
            old(store).wf(),
        ensures
            final(store).wf(),
            final(store)@ == old(store)@.remove(self.unread_key(*user_id)),
    {
        let key = self.unread_cache_key(user_id);
        store.del(&key);
    }
}

/// A notice row as the relational store holds it.
#[derive(Debug)]
pub struct Notice {
    pub id: BigInt,
    pub sender: i32,
    pub notice_type: i16,
    /// The id of the object the notice is about, as a decimal string.
    pub sender_object: String,
    pub addressee_id: i32,
    /// Creation instant, as a timestamp the boundary renders.
    pub create_time: i64,
}

/// A comment notice, as its list hands it back.
#[derive(Debug)]
pub struct NoticeComment {
    pub id: BigInt,
    pub sender: UserData,
    pub post_id: BigInt,
    pub content: Option<String>,
    pub create_time: i64,
    pub origin_id: Option<BigInt>,
    pub origin: Option<String>,
    pub origin_create_time: Option<i64>,
}

/// A like or hate notice, as its list hands it back.
#[derive(Debug)]
pub struct NoticePost {
    pub id: BigInt,
    pub sender: UserData,
    pub post_id: BigInt,
    pub content: Option<String>,
    pub create_time: Option<i64>,
}

/// A friendship notice, as its list hands it back.
#[derive(Debug)]
pub struct NoticeFriend {
    pub id: BigInt,
    pub sender: UserData,
    pub msg: String,
    pub create_time: i64,
}

/// The state after one notice of a category is delivered to a user: that
/// unread counter moved by one.
pub open spec fn send_notice_upd(m: StoreModel, t: NoticeType, user_id: i32) -> StoreModel {
    step(m, Cmd::Incr(t.unread_key(user_id)))
}

/// The state after a number of notices of one category have been
/// delivered to a user, one increment each.
pub open spec fn sent_n_times(m: StoreModel, t: NoticeType, user_id: i32, n: nat) -> StoreModel
    decreases n,
{
    if n == 0 {
        m
    } else {
        send_notice_upd(sent_n_times(m, t, user_id, (n - 1) as nat), t, user_id)
    }
}

/// The read batch that fetches all five unread counters of a user, in the
/// fixed order the reply positions are decoded in.
pub open spec fn unread_cmds(user_id: i32) -> Seq<Cmd> {
    seq![
        Cmd::Get(NoticeType::Comment.unread_key(user_id)),
        Cmd::Get(NoticeType::Like.unread_key(user_id)),
        Cmd::Get(NoticeType::Hate.unread_key(user_id)),
        Cmd::Get(NoticeType::FriendAdd.unread_key(user_id)),
        Cmd::Get(NoticeType::FriendRemove.unread_key(user_id)),
    ]
}

/// What one positional unread reply decodes to: the counter when it is
/// there and fits, zero otherwise.
pub open spec fn unread_field(replies: Seq<Reply>, i: int) -> i32 {
    if 0 <= i < replies.len() {
        match reply_num(replies[i]) {
            Some(n) => if i32::MIN <= n <= i32::MAX {
                n as i32
            } else {
                0i32
            },
            None => 0i32,
        }
    } else {
        0i32
    }
}

/// The unread counter a reconciled read reports for one category: the
/// cached number when the key holds one that fits, zero otherwise.
pub open spec fn unread_count(m: StoreModel, t: NoticeType, user_id: i32) -> i32 {
    let k = t.unread_key(user_id);
    if has_num(m, k) && i32::MIN <= num_at(m, k) <= i32::MAX {
        num_at(m, k) as i32
    } else {
        0i32
    }
}

/// A user's unread counters, one per notice category.
#[derive(Debug, Clone, Copy, PartialEq, Eq, Structural)]
pub struct UnreadMsg {
    pub comments: i32,
    pub likes: i32,
    pub hates: i32,
    pub friend_add: i32,
    pub friend_remove: i32,
}

impl Default for UnreadMsg {
    /// All counters at zero.
    fn default() -> (r: Self)
        ensures
            r == (UnreadMsg {
                comments: 0i32,
                likes: 0i32,
                hates: 0i32,
                friend_add: 0i32,
                friend_remove: 0i32,
            }),
    {
        Self { comments: 0, likes: 0, hates: 0, friend_add: 0, friend_remove: 0 }
    }
}

impl UnreadMsg {
    /// The read batch for a user's five unread counters.
    pub fn cmd_list(user_id: &i32) -> (r: Vec<Cmd>)
        ensures
            r@ == unread_cmds(*user_id),
    {
        let mut commands: Vec<Cmd> = Vec::new();
        let k0 = NoticeType::Comment.unread_cache_key(user_id);
        let k1 = NoticeType::Like.unread_cache_key(user_id);
        let k2 = NoticeType::Hate.unread_cache_key(user_id);
        let k3 = NoticeType::FriendAdd.unread_cache_key(user_id);
        let k4 = NoticeType::FriendRemove.unread_cache_key(user_id);
        commands.push(RedisCmd::get(&k0));
        commands.push(RedisCmd::get(&k1));
        commands.push(RedisCmd::get(&k2));
        commands.push(RedisCmd::get(&k3));
        commands.push(RedisCmd::get(&k4));
        proof {
            assert(commands@ =~= unread_cmds(*user_id));
        }
        commands
    }

    /// Decodes the five positional replies; a missing or unreadable one
    /// leaves its counter at zero.
    pub fn from_replies(replies: &Vec<Reply>) -> (r: Self)
        ensures
            r.comments == unread_field(replies@, 0),
            r.likes == unread_field(replies@, 1),
            r.hates == unread_field(replies@, 2),
            r.friend_add == unread_field(replies@, 3),
            r.friend_remove == unread_field(replies@, 4),
    {
        let mut msg = UnreadMsg { comments: 0, likes: 0, hates: 0, friend_add: 0, friend_remove: 0 };
        msg.comments = Self::decode_one(replies, 0);
        msg.likes = Self::decode_one(replies, 1);
        msg.hates = Self::decode_one(replies, 2);
        msg.friend_add = Self::decode_one(replies, 3);
        msg.friend_remove = Self::decode_one(replies, 4);
        msg
    }

    /// One positional reply as an unread counter.
    fn decode_one(replies: &Vec<Reply>, i: usize) -> (r: i32)
        ensures
            r == unread_field(replies@, i as int),
    {
        if i < replies.len() {
            match replies[i].bulk_to_num() {
                Some(n) => if i32::MIN as i64 <= n && n <= i32::MAX as i64 {
                    n as i32
                } else {
                    0
                },
                None => 0,
            }
        } else {
            0
        }
    }
}

/// Reads all five unread counters of a user in one batch. The store is
/// only read; each counter reports zero when its key is absent.
pub fn get_unread_msg(user_id: &i32, store: &mut CacheStore) -> (r: UnreadMsg)
    requires
        old(store).wf(),
    ensures
        final(store).wf(),
        final(store)@ == old(store)@,
        r.comments == unread_count(old(store)@, NoticeType::Comment, *user_id),
        r.likes == unread_count(old(store)@, NoticeType::Like, *user_id),
        r.hates == unread_count(old(store)@, NoticeType::Hate, *user_id),
        r.friend_add == unread_count(old(store)@, NoticeType::FriendAdd, *user_id),
        r.friend_remove == unread_count(old(store)@, NoticeType::FriendRemove, *user_id),
{
    let ghost m0 = store@;
    let commands = UnreadMsg::cmd_list(user_id);
    let ghost cs = commands@;
    let replies = match store.exec_all(commands) {
        Ok(replies) => replies,
        Err(_) => { return UnreadMsg::default(); }
    };
    proof {
        crate::store::lemma_reads_preserve(m0, cs, cs.len() as int);
        assert(cs.take(cs.len() as int) =~= cs);
        assert forall|i: int| 0 <= i < cs.len() implies crate::store::reply_matches(
            m0,
            cs[i],
            #[trigger] replies@[i],
        ) by {
            crate::store::lemma_reads_preserve(m0, cs, i);
        }
        crate::store::lemma_get_reply(m0, NoticeType::Comment.unread_key(*user_id), replies@[0]);
        crate::store::lemma_get_reply(m0, NoticeType::Like.unread_key(*user_id), replies@[1]);
        crate::store::lemma_get_reply(m0, NoticeType::Hate.unread_key(*user_id), replies@[2]);
        crate::store::lemma_get_reply(m0, NoticeType::FriendAdd.unread_key(*user_id), replies@[3]);
        crate::store::lemma_get_reply(
            m0,
            NoticeType::FriendRemove.unread_key(*user_id),
            replies@[4],
        );
    }
    UnreadMsg::from_replies(&replies)
}

} // verus!
