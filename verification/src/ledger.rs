//! The mutation ledger: like/unlike and hate/unhate per (post, user) pair,
//! post-cache invalidation, and the post-sender lookup cache.
//!
//! Each mutation is a check-then-act pair of round trips: a membership
//! check first, then — only on a valid transition — one batch carrying the
//! membership mutation and the paired counter update together, so the
//! count key and the set key cannot drift apart by a forgotten half.
//! The two round trips are not atomic against concurrent callers; that
//! race is inherited from the design, not hidden here.

use vstd::prelude::*;
use crate::bigint::BigInt;
use crate::cmd::{Cmd, RedisCmd, Reply, RespValueRedisHelper};
use crate::errors::MyError;
use crate::keys::{CacheKey, Relation};
use crate::store::{CacheStore, has_num, is_member, num_at, step, steps, StoreModel};

verus! {

/// Key of the like membership set of a post.
pub open spec fn likes_key(post_id: i64) -> CacheKey {
    CacheKey { relation: Relation::PostLikes, id: post_id }
}

/// Key of the like counter of a post.
pub open spec fn like_count_key(post_id: i64) -> CacheKey {
    CacheKey { relation: Relation::PostLikeCount, id: post_id }
}

/// Key of the hate membership set of a post.
pub open spec fn hates_key(post_id: i64) -> CacheKey {
    CacheKey { relation: Relation::PostHates, id: post_id }
}

/// Key of the hate counter of a post.
pub open spec fn hate_count_key(post_id: i64) -> CacheKey {
    CacheKey { relation: Relation::PostHateCount, id: post_id }
}

/// Key of the comment counter of a post.
pub open spec fn comments_count_key(post_id: i64) -> CacheKey {
    CacheKey { relation: Relation::PostCommentsCount, id: post_id }
}

/// Key of the cached author of a post.
pub open spec fn sender_key(post_id: i64) -> CacheKey {
    CacheKey { relation: Relation::PostSender, id: post_id }
}

/// The state after a successful like: membership added and counter
/// incremented, as one batch.
pub open spec fn like_upd(m: StoreModel, p: i64, u: i64) -> StoreModel {
    step(step(m, Cmd::Sadd(likes_key(p), u)), Cmd::Incr(like_count_key(p)))
}

/// The state after a successful unlike: membership removed and counter
/// decremented, as one batch.
pub open spec fn unlike_upd(m: StoreModel, p: i64, u: i64) -> StoreModel {
    step(step(m, Cmd::Srem(likes_key(p), u)), Cmd::Decr(like_count_key(p)))
}

/// The state after a successful hate.
pub open spec fn hate_upd(m: StoreModel, p: i64, u: i64) -> StoreModel {
    step(step(m, Cmd::Sadd(hates_key(p), u)), Cmd::Incr(hate_count_key(p)))
}

/// The state after a successful unhate.
pub open spec fn unhate_upd(m: StoreModel, p: i64, u: i64) -> StoreModel {
    step(step(m, Cmd::Srem(hates_key(p), u)), Cmd::Decr(hate_count_key(p)))
}

/// The state after a post's cache keys are dropped: both membership sets
/// and both counters gone.
pub open spec fn delete_post_upd(m: StoreModel, p: i64) -> StoreModel {
    m.remove(likes_key(p)).remove(like_count_key(p)).remove(hates_key(p)).remove(
        hate_count_key(p),
    )
}

/// The four-delete invalidation batch takes the four keys out in order.
proof fn lemma_steps_four_del(m: StoreModel, p: i64)
    ensures
        steps(m, seq![
            Cmd::Del(likes_key(p)),
            Cmd::Del(like_count_key(p)),
            Cmd::Del(hates_key(p)),
            Cmd::Del(hate_count_key(p)),
        ]) == delete_post_upd(m, p),
{
    let s = seq![
        Cmd::Del(likes_key(p)),
        Cmd::Del(like_count_key(p)),
        Cmd::Del(hates_key(p)),
        Cmd::Del(hate_count_key(p)),
    ];
    assert(steps(m, Seq::<Cmd>::empty()) == m);
    assert(s.take(1).drop_last() =~= Seq::<Cmd>::empty());
    assert(s.take(1).last() == s[0]);
    assert(s.take(2).drop_last() =~= s.take(1));
    assert(s.take(2).last() == s[1]);
    assert(s.take(3).drop_last() =~= s.take(2));
    assert(s.take(3).last() == s[2]);
    assert(s.drop_last() =~= s.take(3));
    assert(steps(m, s.take(1)) == step(m, s[0]));
    assert(steps(m, s.take(2)) == step(steps(m, s.take(1)), s[1]));
    assert(steps(m, s.take(3)) == step(steps(m, s.take(2)), s[2]));
    assert(steps(m, s) == step(steps(m, s.take(3)), s[3]));
}

/// A batch of two commands runs as the two steps in order.
proof fn lemma_steps_two(m: StoreModel, c1: Cmd, c2: Cmd)
    ensures
        steps(m, seq![c1, c2]) == step(step(m, c1), c2),
{
    let s = seq![c1, c2];
    assert(steps(m, Seq::<Cmd>::empty()) == m);
    assert(seq![c1].drop_last() =~= Seq::<Cmd>::empty());
    assert(seq![c1].last() == c1);
    assert(steps(m, seq![c1]) == step(m, c1));
    assert(s.drop_last() =~= seq![c1]);
    assert(s.last() == c2);
    assert(steps(m, s) == step(steps(m, seq![c1]), c2));
}

/// The membership probe that starts a like or an unlike.
pub fn like_check_cmd(post_id: &i64, user_id: &i32) -> (r: Cmd)
    ensures
        r == Cmd::Sismember(likes_key(*post_id), *user_id as i64),
{
    let set_key = CacheKey { relation: Relation::PostLikes, id: *post_id };
    RedisCmd::sismember(&set_key, *user_id as i64)
}

/// The membership probe that starts a hate or an unhate.
pub fn hate_check_cmd(post_id: &i64, user_id: &i32) -> (r: Cmd)
    ensures
        r == Cmd::Sismember(hates_key(*post_id), *user_id as i64),
{
    let set_key = CacheKey { relation: Relation::PostHates, id: *post_id };
    RedisCmd::sismember(&set_key, *user_id as i64)
}

/// The paired batch of one mutation: the set change first, its counter
/// update second, dispatched together so the two keys cannot drift apart.
fn pair_cmds(set_key: CacheKey, count_key: CacheKey, member: i64, adding: bool) -> (r: Vec<Cmd>)
    ensures
        r@ == (if adding {
            seq![Cmd::Sadd(set_key, member), Cmd::Incr(count_key)]
        } else {
            seq![Cmd::Srem(set_key, member), Cmd::Decr(count_key)]
        }),
{
    let mut commands: Vec<Cmd> = Vec::new();
    if adding {
        commands.push(RedisCmd::sadd(&set_key, member));
        commands.push(RedisCmd::incr(&count_key));
        proof {
            assert(commands@ =~= seq![Cmd::Sadd(set_key, member), Cmd::Incr(count_key)]);
        }
    } else {
        commands.push(RedisCmd::srem(&set_key, member));
        commands.push(RedisCmd::decr(&count_key));
        proof {
            assert(commands@ =~= seq![Cmd::Srem(set_key, member), Cmd::Decr(count_key)]);
        }
    }
    commands
}

/// Decides a like from the membership reply: an existing member is a
/// duplicate; anyone else gets the set addition and the counter increment
/// as one batch.
pub fn like_mutation(post_id: &i64, user_id: &i32, membership: &Reply) -> (r: Result<
    Vec<Cmd>,
    MyError,
>)
    ensures
        membership.spec_is_one() ==> r == Err::<Vec<Cmd>, MyError>(MyError::DuplicateAction),
        !membership.spec_is_one() ==> (r matches Ok(cmds) && cmds@ == seq![
            Cmd::Sadd(likes_key(*post_id), *user_id as i64),
            Cmd::Incr(like_count_key(*post_id)),
        ]),
{
    if membership.integer_to_bool() {
        Err(MyError::DuplicateAction)
    } else {
        Ok(pair_cmds(
            CacheKey { relation: Relation::PostLikes, id: *post_id },
            CacheKey { relation: Relation::PostLikeCount, id: *post_id },
            *user_id as i64,
            true,
        ))
    }
}

/// Decides an unlike from the membership reply: only a member may take a
/// like back; then the set removal and the counter decrement go together.
pub fn unlike_mutation(post_id: &i64, user_id: &i32, membership: &Reply) -> (r: Result<
    Vec<Cmd>,
    MyError,
>)
    ensures
        !membership.spec_is_one() ==> r == Err::<Vec<Cmd>, MyError>(MyError::NotMember),
        membership.spec_is_one() ==> (r matches Ok(cmds) && cmds@ == seq![
            Cmd::Srem(likes_key(*post_id), *user_id as i64),
            Cmd::Decr(like_count_key(*post_id)),
        ]),
{
    if !membership.integer_to_bool() {
        Err(MyError::NotMember)
    } else {
        Ok(pair_cmds(
            CacheKey { relation: Relation::PostLikes, id: *post_id },
            CacheKey { relation: Relation::PostLikeCount, id: *post_id },
            *user_id as i64,
            false,
        ))
    }
}

/// Decides a hate from the membership reply; the mirror of
/// [`like_mutation`] on the hate relation.
pub fn hate_mutation(post_id: &i64, user_id: &i32, membership: &Reply) -> (r: Result<
    Vec<Cmd>,
    MyError,
>)
    ensures
        membership.spec_is_one() ==> r == Err::<Vec<Cmd>, MyError>(MyError::DuplicateAction),
        !membership.spec_is_one() ==> (r matches Ok(cmds) && cmds@ == seq![
            Cmd::Sadd(hates_key(*post_id), *user_id as i64),
            Cmd::Incr(hate_count_key(*post_id)),
        ]),
{
    if membership.integer_to_bool() {
        Err(MyError::DuplicateAction)
    } else {
        Ok(pair_cmds(
            CacheKey { relation: Relation::PostHates, id: *post_id },
            CacheKey { relation: Relation::PostHateCount, id: *post_id },
            *user_id as i64,
            true,
        ))
    }
}

/// Decides an unhate from the membership reply; the mirror of
/// [`unlike_mutation`].
pub fn unhate_mutation(post_id: &i64, user_id: &i32, membership: &Reply) -> (r: Result<
    Vec<Cmd>,
    MyError,
>)
    ensures
        !membership.spec_is_one() ==> r == Err::<Vec<Cmd>, MyError>(MyError::NotMember),
        membership.spec_is_one() ==> (r matches Ok(cmds) && cmds@ == seq![
            Cmd::Srem(hates_key(*post_id), *user_id as i64),
            Cmd::Decr(hate_count_key(*post_id)),
        ]),
{
    if !membership.integer_to_bool() {
        Err(MyError::NotMember)
    } else {
        Ok(pair_cmds(
            CacheKey { relation: Relation::PostHates, id: *post_id },
            CacheKey { relation: Relation::PostHateCount, id: *post_id },
            *user_id as i64,
            false,
        ))
    }
}

/// The invalidation batch of a deleted post: both membership sets and
/// both counters.
pub fn post_cache_del_cmds(post_id: &i64) -> (r: Vec<Cmd>)
    ensures
        r@ == seq![
            Cmd::Del(likes_key(*post_id)),
            Cmd::Del(like_count_key(*post_id)),
            Cmd::Del(hates_key(*post_id)),
            Cmd::Del(hate_count_key(*post_id)),
        ],
{
    let mut commands: Vec<Cmd> = Vec::new();
    commands.push(RedisCmd::del(&CacheKey { relation: Relation::PostLikes, id: *post_id }));
    commands.push(RedisCmd::del(&CacheKey { relation: Relation::PostLikeCount, id: *post_id }));
    commands.push(RedisCmd::del(&CacheKey { relation: Relation::PostHates, id: *post_id }));
    commands.push(RedisCmd::del(&CacheKey { relation: Relation::PostHateCount, id: *post_id }));
    proof {
        assert(commands@ =~= seq![
            Cmd::Del(likes_key(*post_id)),
            Cmd::Del(like_count_key(*post_id)),
            Cmd::Del(hates_key(*post_id)),
            Cmd::Del(hate_count_key(*post_id)),
        ]);
    }
    commands
}

/// The fire-and-forget write that remembers a post's author.
pub fn save_post_sender_cmd(post_id: &BigInt, user_id: &i32) -> (r: Cmd)
    ensures
        r == Cmd::Put(sender_key(post_id@), *user_id as i64),
{
    let key = CacheKey { relation: Relation::PostSender, id: *post_id.inner() };
    RedisCmd::set(&key, *user_id as i64)
}

/// The read that asks the cache who authored a post.
pub fn post_sender_probe_cmd(post_id: &BigInt) -> (r: Cmd)
    ensures
        r == Cmd::Get(sender_key(post_id@)),
{
    let key = CacheKey { relation: Relation::PostSender, id: *post_id.inner() };
    RedisCmd::get(&key)
}

/// Likes a post on behalf of a user.
///
/// Succeeds exactly when the user is not yet a member of the post's like
/// set; then the membership and the counter move together in one batch.
/// A duplicate like fails as `DuplicateAction` and changes nothing.
pub fn like(post_id: &i64, user_id: &i32, store: &mut CacheStore) -> (r: Result<(), MyError>)
    requires
        old(store).wf(),
    ensures
        final(store).wf(),
        r is Ok <==> !is_member(old(store)@, likes_key(*post_id), *user_id as i64),
        r is Ok ==> final(store)@ == like_upd(old(store)@, *post_id, *user_id as i64),
        r is Err ==> final(store)@ == old(store)@ && r == Err::<(), MyError>(
            MyError::DuplicateAction,
        ),
{
    let liked = match store.exec(like_check_cmd(post_id, user_id)) {
        Ok(rep) => rep,
        Err(_) => { return Err(MyError::TransportError); }
    };
    match like_mutation(post_id, user_id, &liked) {
        Ok(commands) => {
            let _ = store.exec_all(commands);
            proof {
                lemma_steps_two(
                    old(store)@,
                    Cmd::Sadd(likes_key(*post_id), *user_id as i64),
                    Cmd::Incr(like_count_key(*post_id)),
                );
            }
            Ok(())
        }
        Err(e) => Err(e),
    }
}

/// Takes a user's like off a post.
///
/// Succeeds exactly when the user is a member of the post's like set; then
/// the membership removal and the counter decrement move together in one
/// batch. Unliking without a like fails as `NotMember` and changes nothing.
pub fn cancel_like(post_id: &i64, user_id: &i32, store: &mut CacheStore) -> (r: Result<
    (),
    MyError,
>)
    requires
        old(store).wf(),
    ensures
        final(store).wf(),
        r is Ok <==> is_member(old(store)@, likes_key(*post_id), *user_id as i64),
        r is Ok ==> final(store)@ == unlike_upd(old(store)@, *post_id, *user_id as i64),
        r is Err ==> final(store)@ == old(store)@ && r == Err::<(), MyError>(MyError::NotMember),
{
    let liked = match store.exec(like_check_cmd(post_id, user_id)) {
        Ok(rep) => rep,
        Err(_) => { return Err(MyError::TransportError); }
    };
    match unlike_mutation(post_id, user_id, &liked) {
        Ok(commands) => {
            let _ = store.exec_all(commands);
            proof {
                lemma_steps_two(
                    old(store)@,
                    Cmd::Srem(likes_key(*post_id), *user_id as i64),
                    Cmd::Decr(like_count_key(*post_id)),
                );
            }
            Ok(())
        }
        Err(e) => Err(e),
    }
}

/// Hates a post on behalf of a user; the mirror of [`like`] on the hate
/// relation.
pub fn hate(post_id: &i64, user_id: &i32, store: &mut CacheStore) -> (r: Result<(), MyError>)
    requires
        old(store).wf(),
    ensures
        final(store).wf(),
        r is Ok <==> !is_member(old(store)@, hates_key(*post_id), *user_id as i64),
        r is Ok ==> final(store)@ == hate_upd(old(store)@, *post_id, *user_id as i64),
        r is Err ==> final(store)@ == old(store)@ && r == Err::<(), MyError>(
            MyError::DuplicateAction,
        ),
{
    let hated = match store.exec(hate_check_cmd(post_id, user_id)) {
        Ok(rep) => rep,
        Err(_) => { return Err(MyError::TransportError); }
    };
    match hate_mutation(post_id, user_id, &hated) {
        Ok(commands) => {
            let _ = store.exec_all(commands);
            proof {
                lemma_steps_two(
                    old(store)@,
                    Cmd::Sadd(hates_key(*post_id), *user_id as i64),
                    Cmd::Incr(hate_count_key(*post_id)),
                );
            }
            Ok(())
        }
        Err(e) => Err(e),
    }
}

/// Takes a user's hate off a post; the mirror of [`cancel_like`].
pub fn cancel_hate(post_id: &i64, user_id: &i32, store: &mut CacheStore) -> (r: Result<
    (),
    MyError,
>)
    requires
        old(store).wf(),
    ensures
        final(store).wf(),
        r is Ok <==> is_member(old(store)@, hates_key(*post_id), *user_id as i64),
        r is Ok ==> final(store)@ == unhate_upd(old(store)@, *post_id, *user_id as i64),
        r is Err ==> final(store)@ == old(store)@ && r == Err::<(), MyError>(MyError::NotMember),
{
    let hated = match store.exec(hate_check_cmd(post_id, user_id)) {
        Ok(rep) => rep,
        Err(_) => { return Err(MyError::TransportError); }
    };
    match unhate_mutation(post_id, user_id, &hated) {
        Ok(commands) => {
            let _ = store.exec_all(commands);
            proof {
                lemma_steps_two(
                    old(store)@,
                    Cmd::Srem(hates_key(*post_id), *user_id as i64),
                    Cmd::Decr(hate_count_key(*post_id)),
                );
            }
            Ok(())
        }
        Err(e) => Err(e),
    }
}

/// Drops every cache key a deleted post owned: both membership sets and
/// both counters. A later reconciliation of anything with this id then
/// behaves as a fresh cache miss.
pub fn delete_post_cache(post_id: &i64, store: &mut CacheStore)
    requires
        old(store).wf(),
    ensures
        final(store).wf(),
        final(store)@ == delete_post_upd(old(store)@, *post_id),
{
    let commands = post_cache_del_cmds(post_id);
    let _ = store.exec_all(commands);
    proof {
        lemma_steps_four_del(old(store)@, *post_id);
    }
}

/// Remembers who authored a post, so notification fan-out can find the
/// addressee without the relational store. Fire-and-forget.
pub fn save_post_sender_cache(store: &mut CacheStore, post_id: &BigInt, user_id: &i32)
    requires
        old(store).wf(),
    ensures
        final(store).wf(),
        final(store)@ == old(store)@.insert(
            sender_key(post_id@),
            crate::store::CacheVal::Num(*user_id as i64),
        ),
{
    let _ = store.exec(save_post_sender_cmd(post_id, user_id));
}

/// The author of a post as the cache knows it, if the cached value is a
/// well-formed user id.
pub fn cached_post_sender(store: &mut CacheStore, post_id: &BigInt) -> (r: Option<i32>)
    requires
        old(store).wf(),
    ensures
        final(store).wf(),
        final(store)@ == old(store)@,
        r == (if has_num(old(store)@, sender_key(post_id@)) && i32::MIN <= num_at(
            old(store)@,
            sender_key(post_id@),
        ) <= i32::MAX {
            Some(num_at(old(store)@, sender_key(post_id@)) as i32)
        } else {
            Option::<i32>::None
        }),
{
    let key = CacheKey { relation: Relation::PostSender, id: *post_id.inner() };
    match store.get_i64(&key) {
        Ok(n) => if i32::MIN as i64 <= n && n <= i32::MAX as i64 {
            Some(n as i32)
        } else {
            None
        },
        Err(_) => None,
    }
}

/// Decides a post-sender lookup from its two sources: the cached value
/// wins; the relational row is the fallback; nothing found is `NotFound`,
/// which skips the notification rather than retrying.
pub fn resolve_post_sender(cached: Option<i32>, relational: Option<i32>) -> (r: Result<
    i32,
    MyError,
>)
    ensures
        match r {
            Ok(u) => cached == Some(u) || (cached is None && relational == Some(u)),
            Err(e) => cached is None && relational is None && e == MyError::NotFound,
        },
{
    match cached {
        Some(u) => Ok(u),
        None => match relational {
            Some(u) => Ok(u),
            None => Err(MyError::NotFound),
        },
    }
}

} // verus!
