//! The laws of the cache/ledger layer, each stated over the spec-level
//! transitions that the executable operations are proven to realize.

use vstd::prelude::*;
use crate::keys::CacheKey;
use crate::cmd::Cmd;
use crate::ledger::{comments_count_key, delete_post_upd, hate_count_key, hate_upd, hates_key,
    like_count_key, like_upd, likes_key, unhate_upd, unlike_upd};
use crate::notice::{sent_n_times, unread_count, NoticeType};
use crate::post::reconciled_count;
use crate::store::{counter_ok, counter_val, has_num, is_member, set_ok, StoreModel};

verus! {

/// LAW: reconciling a record whose post has no cache entries keeps every
/// relational value — no counter is zeroed and no flag is raised by a
/// pure cache miss.
pub proof fn lemma_reconcile_on_cache_miss(
    m: StoreModel,
    p: i64,
    u: i64,
    like_prev: i64,
    comment_prev: i64,
    hate_prev: i64,
)
    requires
        !m.contains_key(like_count_key(p)),
        !m.contains_key(comments_count_key(p)),
        !m.contains_key(hate_count_key(p)),
        !m.contains_key(likes_key(p)),
        !m.contains_key(hates_key(p)),
    ensures
        reconciled_count(m, like_count_key(p), like_prev) == like_prev,
        reconciled_count(m, comments_count_key(p), comment_prev) == comment_prev,
        reconciled_count(m, hate_count_key(p), hate_prev) == hate_prev,
        !is_member(m, likes_key(p), u),
        !is_member(m, hates_key(p), u),
{
}

/// The paired mutation once: membership added to the set key, one added
/// to the counter key, both in one batch. Like and hate are its two
/// instances.
pub open spec fn pair_add(m: StoreModel, sk: CacheKey, ck: CacheKey, u: i64) -> StoreModel {
    crate::store::step(crate::store::step(m, Cmd::Sadd(sk, u)), Cmd::Incr(ck))
}

/// The paired mutation undone: membership removed, one subtracted.
pub open spec fn pair_remove(m: StoreModel, sk: CacheKey, ck: CacheKey, u: i64) -> StoreModel {
    crate::store::step(crate::store::step(m, Cmd::Srem(sk, u)), Cmd::Decr(ck))
}

/// LAW, over any (set, counter) pair of distinct keys: adding a membership
/// that was not there makes the user a member and moves the counter up by
/// exactly one — so a repeat of the same action finds a member and is
/// refused by the operation's own contract, the store untouched.
pub proof fn lemma_pair_add_once(m: StoreModel, sk: CacheKey, ck: CacheKey, u: i64)
    requires
        sk != ck,
        !is_member(m, sk, u),
        set_ok(m, sk),
        counter_ok(m, ck),
    ensures
        is_member(pair_add(m, sk, ck, u), sk, u),
        counter_val(pair_add(m, sk, ck, u), ck) == counter_val(m, ck) + 1,
{
}

/// LAW, over any (set, counter) pair of distinct keys: adding and then
/// removing a membership brings the pair back where it was — no member,
/// and the counter at its earlier value.
pub proof fn lemma_pair_add_remove(m: StoreModel, sk: CacheKey, ck: CacheKey, u: i64)
    requires
        sk != ck,
        !is_member(m, sk, u),
        set_ok(m, sk),
        counter_ok(m, ck),
    ensures
        !is_member(pair_remove(pair_add(m, sk, ck, u), sk, ck, u), sk, u),
        counter_val(pair_remove(pair_add(m, sk, ck, u), sk, ck, u), ck) == counter_val(m, ck),
{
    let m1 = pair_add(m, sk, ck, u);
    assert(is_member(m1, sk, u));
    assert(counter_val(m1, ck) == counter_val(m, ck) + 1);
}

/// LAW: a successful like makes the user a member, so liking the same post
/// again fails with `DuplicateAction` and leaves the store untouched, and
/// the like counter has moved by exactly one in total.
pub proof fn lemma_like_then_like(m: StoreModel, p: i64, u: i64)
    requires
        !is_member(m, likes_key(p), u),
        set_ok(m, likes_key(p)),
        counter_ok(m, like_count_key(p)),
    ensures
        is_member(like_upd(m, p, u), likes_key(p), u),
        counter_val(like_upd(m, p, u), like_count_key(p)) == counter_val(m, like_count_key(p))
            + 1,
{
    lemma_pair_add_once(m, likes_key(p), like_count_key(p), u);
    assert(like_upd(m, p, u) == pair_add(m, likes_key(p), like_count_key(p), u));
}

/// LAW: a like followed by an unlike brings the pair back where it was:
/// the user is no member again, and the like counter reads its pre-like
/// value.
pub proof fn lemma_like_then_unlike(m: StoreModel, p: i64, u: i64)
    requires
        !is_member(m, likes_key(p), u),
        set_ok(m, likes_key(p)),
        counter_ok(m, like_count_key(p)),
    ensures
        !is_member(unlike_upd(like_upd(m, p, u), p, u), likes_key(p), u),
        counter_val(unlike_upd(like_upd(m, p, u), p, u), like_count_key(p)) == counter_val(
            m,
            like_count_key(p),
        ),
{
    lemma_pair_add_remove(m, likes_key(p), like_count_key(p), u);
    assert(like_upd(m, p, u) == pair_add(m, likes_key(p), like_count_key(p), u));
    assert(unlike_upd(like_upd(m, p, u), p, u) == pair_remove(
        pair_add(m, likes_key(p), like_count_key(p), u),
        likes_key(p),
        like_count_key(p),
        u,
    ));
}

/// LAW: the hate relation mirrors the like relation exactly.
pub proof fn lemma_hate_then_hate(m: StoreModel, p: i64, u: i64)
    requires
        !is_member(m, hates_key(p), u),
        set_ok(m, hates_key(p)),
        counter_ok(m, hate_count_key(p)),
    ensures
        is_member(hate_upd(m, p, u), hates_key(p), u),
        counter_val(hate_upd(m, p, u), hate_count_key(p)) == counter_val(m, hate_count_key(p))
            + 1,
{
    lemma_pair_add_once(m, hates_key(p), hate_count_key(p), u);
    assert(hate_upd(m, p, u) == pair_add(m, hates_key(p), hate_count_key(p), u));
}

/// LAW: a hate followed by an unhate brings the pair back where it was.
pub proof fn lemma_hate_then_unhate(m: StoreModel, p: i64, u: i64)
    requires
        !is_member(m, hates_key(p), u),
        set_ok(m, hates_key(p)),
        counter_ok(m, hate_count_key(p)),
    ensures
        !is_member(unhate_upd(hate_upd(m, p, u), p, u), hates_key(p), u),
        counter_val(unhate_upd(hate_upd(m, p, u), p, u), hate_count_key(p)) == counter_val(
            m,
            hate_count_key(p),
        ),
{
    lemma_pair_add_remove(m, hates_key(p), hate_count_key(p), u);
    assert(hate_upd(m, p, u) == pair_add(m, hates_key(p), hate_count_key(p), u));
    assert(unhate_upd(hate_upd(m, p, u), p, u) == pair_remove(
        pair_add(m, hates_key(p), hate_count_key(p), u),
        hates_key(p),
        hate_count_key(p),
        u,
    ));
}

/// LAW: dropping a post's cache keys removes its like counter and its like
/// membership set (and the hate pair), so reconciling anything with that
/// id afterwards behaves as a fresh cache miss: relational values stand.
pub proof fn lemma_delete_then_fresh_miss(
    m: StoreModel,
    p: i64,
    u: i64,
    like_prev: i64,
    hate_prev: i64,
)
    ensures
        !delete_post_upd(m, p).contains_key(likes_key(p)),
        !delete_post_upd(m, p).contains_key(like_count_key(p)),
        !delete_post_upd(m, p).contains_key(hates_key(p)),
        !delete_post_upd(m, p).contains_key(hate_count_key(p)),
        reconciled_count(delete_post_upd(m, p), like_count_key(p), like_prev) == like_prev,
        reconciled_count(delete_post_upd(m, p), hate_count_key(p), hate_prev) == hate_prev,
        !is_member(delete_post_upd(m, p), likes_key(p), u),
        !is_member(delete_post_upd(m, p), hates_key(p), u),
{
}

/// LAW: delivering N notices of one category to a user moves that unread
/// counter up by exactly N.
pub proof fn lemma_unread_after_n_sends(m: StoreModel, t: NoticeType, u: i32, n: nat)
    requires
        !m.contains_key(t.unread_key(u)) || m[t.unread_key(u)] is Num,
        counter_val(m, t.unread_key(u)) + n <= i64::MAX,
    ensures
        counter_val(sent_n_times(m, t, u, n), t.unread_key(u)) == counter_val(
            m,
            t.unread_key(u),
        ) + n,
        n > 0 ==> has_num(sent_n_times(m, t, u, n), t.unread_key(u)),
        !sent_n_times(m, t, u, n).contains_key(t.unread_key(u)) ==> n == 0,
        sent_n_times(m, t, u, n).contains_key(t.unread_key(u)) ==> sent_n_times(m, t, u, n)[
            t.unread_key(u)] is Num,
    decreases n,
{
    if n > 0 {
        lemma_unread_after_n_sends(m, t, u, (n - 1) as nat);
    }
}

/// LAW: one read of a category's notice list clears the counter to
/// absent — reported as zero unread — no matter how many rows that page
/// returned or how large the counter was.
pub proof fn lemma_clear_unread(m: StoreModel, t: NoticeType, u: i32)
    ensures
        !m.remove(t.unread_key(u)).contains_key(t.unread_key(u)),
        unread_count(m.remove(t.unread_key(u)), t, u) == 0,
        counter_val(m.remove(t.unread_key(u)), t.unread_key(u)) == 0,
{
}

} // verus!
