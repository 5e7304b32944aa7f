//! A reference key-value store that interprets the command language of
//! [`crate::cmd`]: string-keyed counters and membership sets, with the
//! exact reply shapes the wire protocol gives.
//!
//! The store is the semantic model the rest of the library is verified
//! against: a batch of commands run here behaves as the spec-level
//! transition [`step`] says, and a deployment that talks to a real store
//! sends the same commands through the boundary instead.

use vstd::prelude::*;
use crate::cmd::{Cmd, Reply};
use crate::errors::MyError;
use crate::keys::CacheKey;
use crate::num::{dec_chars, lemma_dec_roundtrip, parse_i64};

verus! {

/// A stored value: a number (counters and plain values are decimal strings
/// on the wire) or a membership set of user ids.
#[derive(Debug)]
pub enum Value {
    Num(i64),
    Members(Vec<i64>),
}

/// The abstract form of a stored value: the membership vector becomes the
/// set of its members.
pub enum CacheVal {
    Num(i64),
    Members(Set<i64>),
}

/// What a stored value denotes.
pub open spec fn val_model(v: Value) -> CacheVal {
    match v {
        Value::Num(n) => CacheVal::Num(n),
        Value::Members(m) => CacheVal::Members(m@.to_set()),
    }
}

/// The abstract state of the store: a finite map from keys to values.
pub type StoreModel = Map<CacheKey, CacheVal>;

/// Does the store hold a number under this key?
pub open spec fn has_num(m: StoreModel, k: CacheKey) -> bool {
    m.contains_key(k) && m[k] is Num
}

/// The number under a key; zero when none is there.
pub open spec fn num_at(m: StoreModel, k: CacheKey) -> i64 {
    if m.contains_key(k) {
        match m[k] {
            CacheVal::Num(n) => n,
            CacheVal::Members(_) => 0,
        }
    } else {
        0
    }
}

/// The counter under a key, an absent key counting from zero.
pub open spec fn counter_val(m: StoreModel, k: CacheKey) -> i64 {
    if has_num(m, k) {
        num_at(m, k)
    } else {
        0
    }
}

/// Is this user in the membership set under the key?
pub open spec fn is_member(m: StoreModel, k: CacheKey, u: i64) -> bool {
    m.contains_key(k) && match m[k] {
        CacheVal::Members(s) => s.contains(u),
        CacheVal::Num(_) => false,
    }
}

/// A key that is either absent or holds a counter that one increment
/// cannot overflow. Every counter key stays in this state in practice:
/// the store errors on the increment at the numeric bound instead.
pub open spec fn counter_ok(m: StoreModel, k: CacheKey) -> bool {
    !m.contains_key(k) || (m[k] is Num && num_at(m, k) < i64::MAX)
}

/// A key that is either absent or holds a membership set, never a plain
/// number: the shape every membership key keeps.
pub open spec fn set_ok(m: StoreModel, k: CacheKey) -> bool {
    !m.contains_key(k) || m[k] is Members
}

/// How one command changes the store's state.
pub open spec fn step(m: StoreModel, cmd: Cmd) -> StoreModel {
    match cmd {
        Cmd::Get(_) => m,
        Cmd::Put(k, n) => m.insert(k, CacheVal::Num(n)),
        Cmd::Del(k) => m.remove(k),
        Cmd::Incr(k) => if !m.contains_key(k) {
            m.insert(k, CacheVal::Num(1))
        } else {
            match m[k] {
                CacheVal::Num(n) => if n < i64::MAX {
                    m.insert(k, CacheVal::Num((n + 1) as i64))
                } else {
                    m
                },
                CacheVal::Members(_) => m,
            }
        },
        Cmd::Decr(k) => if !m.contains_key(k) {
            m.insert(k, CacheVal::Num(-1i64))
        } else {
            match m[k] {
                CacheVal::Num(n) => if n > i64::MIN {
                    m.insert(k, CacheVal::Num((n - 1) as i64))
                } else {
                    m
                },
                CacheVal::Members(_) => m,
            }
        },
        Cmd::Sadd(k, u) => if !m.contains_key(k) {
            m.insert(k, CacheVal::Members(Set::empty().insert(u)))
        } else {
            match m[k] {
                CacheVal::Members(s) => m.insert(k, CacheVal::Members(s.insert(u))),
                CacheVal::Num(_) => m,
            }
        },
        Cmd::Srem(k, u) => if !m.contains_key(k) {
            m
        } else {
            match m[k] {
                CacheVal::Members(s) => if s == Set::empty().insert(u) {
                    m.remove(k)
                } else {
                    m.insert(k, CacheVal::Members(s.remove(u)))
                },
                CacheVal::Num(_) => m,
            }
        },
        Cmd::Sismember(_, _) => m,
    }
}

/// What reply a command run against a given state gives back.
pub open spec fn reply_matches(m: StoreModel, cmd: Cmd, r: Reply) -> bool {
    match cmd {
        Cmd::Get(k) => if !m.contains_key(k) {
            r == Reply::Nil
        } else {
            match m[k] {
                CacheVal::Num(n) => r matches Reply::Bulk(s) && s@ == dec_chars(n as int),
                CacheVal::Members(_) => r == Reply::Error,
            }
        },
        Cmd::Put(_, _) => r == Reply::Status,
        Cmd::Del(k) => r == Reply::Integer(if m.contains_key(k) { 1i64 } else { 0i64 }),
        Cmd::Incr(k) => if !m.contains_key(k) {
            r == Reply::Integer(1)
        } else {
            match m[k] {
                CacheVal::Num(n) => if n < i64::MAX {
                    r == Reply::Integer((n + 1) as i64)
                } else {
                    r == Reply::Error
                },
                CacheVal::Members(_) => r == Reply::Error,
            }
        },
        Cmd::Decr(k) => if !m.contains_key(k) {
            r == Reply::Integer(-1i64)
        } else {
            match m[k] {
                CacheVal::Num(n) => if n > i64::MIN {
                    r == Reply::Integer((n - 1) as i64)
                } else {
                    r == Reply::Error
                },
                CacheVal::Members(_) => r == Reply::Error,
            }
        },
        Cmd::Sadd(k, u) => if has_num(m, k) {
            r == Reply::Error
        } else {
            r == Reply::Integer(if is_member(m, k, u) { 0i64 } else { 1i64 })
        },
        Cmd::Srem(k, u) => if has_num(m, k) {
            r == Reply::Error
        } else {
            r == Reply::Integer(if is_member(m, k, u) { 1i64 } else { 0i64 })
        },
        Cmd::Sismember(k, u) => if has_num(m, k) {
            r == Reply::Error
        } else {
            r == Reply::Integer(if is_member(m, k, u) { 1i64 } else { 0i64 })
        },
    }
}

/// How a whole batch, run in submission order, changes the store's state.
pub open spec fn steps(m: StoreModel, cmds: Seq<Cmd>) -> StoreModel
    decreases cmds.len(),
{
    if cmds.len() == 0 {
        m
    } else {
        step(steps(m, cmds.drop_last()), cmds.last())
    }
}

/// Running one more command extends the batch's effect by one step.
pub proof fn lemma_steps_extend(m: StoreModel, cmds: Seq<Cmd>, i: int)
    requires
        0 <= i < cmds.len(),
    ensures
        steps(m, cmds.take(i + 1)) == step(steps(m, cmds.take(i)), cmds[i]),
{
    assert(cmds.take(i + 1).drop_last() =~= cmds.take(i));
    assert(cmds.take(i + 1).last() == cmds[i]);
}

/// The denotation of an association list, later entries winning.
spec fn entries_model(s: Seq<(CacheKey, Value)>) -> StoreModel
    decreases s.len(),
{
    if s.len() == 0 {
        Map::empty()
    } else {
        entries_model(s.drop_last()).insert(s.last().0, val_model(s.last().1))
    }
}

/// No entry carries the key, so the model lacks it.
proof fn lemma_model_absent(s: Seq<(CacheKey, Value)>, k: CacheKey)
    requires
        forall|j: int| 0 <= j < s.len() ==> (#[trigger] s[j]).0 != k,
    ensures
        !entries_model(s).contains_key(k),
    decreases s.len(),
{
    if s.len() > 0 {
        lemma_model_absent(s.drop_last(), k);
    }
}

spec fn unique_keys(s: Seq<(CacheKey, Value)>) -> bool {
    forall|i: int, j: int| 0 <= i < j < s.len() ==> (#[trigger] s[i]).0 != (#[trigger] s[j]).0
}

/// With unique keys, the entry holding a key gives the model's value there.
proof fn lemma_model_found(s: Seq<(CacheKey, Value)>, i: int, k: CacheKey)
    requires
        unique_keys(s),
        0 <= i < s.len(),
        s[i].0 == k,
    ensures
        entries_model(s).contains_key(k),
        entries_model(s)[k] == val_model(s[i].1),
    decreases s.len(),
{
    if i + 1 == s.len() {
    } else {
        assert(s[i] == s.drop_last()[i]);
        lemma_model_found(s.drop_last(), i, k);
        assert(s.last().0 != k);
    }
}

/// Appending an entry inserts its binding into the model.
proof fn lemma_model_push(s: Seq<(CacheKey, Value)>, k: CacheKey, v: Value)
    ensures
        entries_model(s.push((k, v))) == entries_model(s).insert(k, val_model(v)),
{
    assert(s.push((k, v)).drop_last() =~= s);
    assert(s.push((k, v)).last() == (k, v));
}

/// Replacing the entry that holds a key updates its binding in the model.
proof fn lemma_model_update(s: Seq<(CacheKey, Value)>, i: int, k: CacheKey, v: Value)
    requires
        unique_keys(s),
        0 <= i < s.len(),
        s[i].0 == k,
    ensures
        entries_model(s.update(i, (k, v))) == entries_model(s).insert(k, val_model(v)),
    decreases s.len(),
{
    let s2 = s.update(i, (k, v));
    if i + 1 == s.len() {
        assert(s2.drop_last() =~= s.drop_last());
        assert(s2.last() == (k, v));
        assert(entries_model(s.drop_last()).insert(k, val_model(s.last().1)).insert(
            k,
            val_model(v),
        ) =~= entries_model(s.drop_last()).insert(k, val_model(v)));
    } else {
        assert(s[i] == s.drop_last()[i]);
        lemma_model_update(s.drop_last(), i, k, v);
        assert(s2.drop_last() =~= s.drop_last().update(i, (k, v)));
        assert(s2.last() == s.last());
        let klast = s.last().0;
        let vlast = val_model(s.last().1);
        assert(klast != k);
        assert(entries_model(s.drop_last()).insert(k, val_model(v)).insert(klast, vlast)
            =~= entries_model(s.drop_last()).insert(klast, vlast).insert(k, val_model(v)));
    }
}

/// Removing the entry that holds a key removes its binding from the model.
proof fn lemma_model_remove(s: Seq<(CacheKey, Value)>, i: int, k: CacheKey)
    requires
        unique_keys(s),
        0 <= i < s.len(),
        s[i].0 == k,
    ensures
        entries_model(s.remove(i)) == entries_model(s).remove(k),
    decreases s.len(),
{
    if i + 1 == s.len() {
        assert(s.remove(i) =~= s.drop_last());
        assert forall|j: int| 0 <= j < s.drop_last().len() implies (#[trigger] s.drop_last()[
            j]).0 != k by {
            assert(s.drop_last()[j] == s[j]);
        }
        lemma_model_absent(s.drop_last(), k);
        assert(entries_model(s.drop_last()).insert(k, val_model(s.last().1)).remove(k)
            =~= entries_model(s.drop_last()));
    } else {
        assert(s[i] == s.drop_last()[i]);
        lemma_model_remove(s.drop_last(), i, k);
        assert(s.remove(i).drop_last() =~= s.drop_last().remove(i));
        assert(s.remove(i).last() == s.last());
        let klast = s.last().0;
        let vlast = val_model(s.last().1);
        assert(klast != k);
        assert(entries_model(s.drop_last()).remove(k).insert(klast, vlast) =~= entries_model(
            s.drop_last(),
        ).insert(klast, vlast).remove(k));
    }
}

/// The reference store: an association list of unique keys, each holding
/// a number or a duplicate-free membership vector.
pub struct CacheStore {
    entries: Vec<(CacheKey, Value)>,
}

impl View for CacheStore {
    type V = StoreModel;

    closed spec fn view(&self) -> StoreModel {
        entries_model(self.entries@)
    }
}

spec fn val_wf(v: Value) -> bool {
    match v {
        Value::Num(_) => true,
        Value::Members(m) => forall|i: int, j: int|
            0 <= i < j < m@.len() ==> m@[i] != m@[j],
    }
}

impl CacheStore {
    /// Well-formedness of the representation: unique keys, and each
    /// membership vector free of duplicates. Constructors establish it and
    /// every operation preserves it.
    pub closed spec fn wf(self) -> bool {
        unique_keys(self.entries@) && forall|i: int|
            0 <= i < self.entries@.len() ==> val_wf((#[trigger] self.entries@[i]).1)
    }

    /// An empty store.
    pub fn new() -> (r: Self)
        ensures
            r@ == Map::<CacheKey, CacheVal>::empty(),
            r.wf(),
    {
        CacheStore { entries: Vec::new() }
    }

    /// The index of the entry holding a key, if any.
    fn find_idx(&self, key: &CacheKey) -> (r: Option<usize>)
        ensures
            match r {
                Some(i) => i < self.entries@.len() && self.entries@[i as int].0 == *key,
                None => forall|j: int|
                    0 <= j < self.entries@.len() ==> (#[trigger] self.entries@[j]).0 != *key,
            },
    {
        let n = self.entries.len();
        let mut i: usize = 0;
        while i < n
            invariant
                i <= n,
                n == self.entries@.len(),
                forall|j: int| 0 <= j < i ==> (#[trigger] self.entries@[j]).0 != *key,
            decreases n - i,
        {
            if self.entries[i].0 == *key {
                return Some(i);
            }
            i += 1;
        }
        None
    }

    /// Stores a value under a key, replacing whatever was there.
    fn put_val(&mut self, key: CacheKey, v: Value)
        requires
            old(self).wf(),
            val_wf(v),
        ensures
            final(self)@ == old(self)@.insert(key, val_model(v)),
            final(self).wf(),
    {
        let ghost s0 = self.entries@;
        match self.find_idx(&key) {
            Some(i) => {
                let _ = self.entries.remove(i);
                self.entries.insert(i, (key, v));
                proof {
                    assert(self.entries@ =~= s0.update(i as int, (key, v)));
                    lemma_model_update(s0, i as int, key, v);
                }
            }
            None => {
                self.entries.push((key, v));
                proof {
                    lemma_model_push(s0, key, v);
                }
            }
        }
    }

    /// Removes a key; reports whether it was there.
    fn del_key(&mut self, key: CacheKey) -> (r: bool)
        requires
            old(self).wf(),
        ensures
            final(self)@ == old(self)@.remove(key),
            r == old(self)@.contains_key(key),
            final(self).wf(),
    {
        let ghost s0 = self.entries@;
        match self.find_idx(&key) {
            Some(i) => {
                proof {
                    lemma_model_found(s0, i as int, key);
                    lemma_model_remove(s0, i as int, key);
                }
                let _ = self.entries.remove(i);
                true
            }
            None => {
                proof {
                    lemma_model_absent(s0, key);
                    assert(old(self)@.remove(key) =~= old(self)@);
                }
                false
            }
        }
    }

    /// Runs one command against the store, returning the protocol reply.
    fn run(&mut self, command: Cmd) -> (r: Reply)
        requires
            old(self).wf(),
        ensures
            final(self)@ == step(old(self)@, command),
            reply_matches(old(self)@, command, r),
            final(self).wf(),
    {
        let ghost m0 = self@;
        let ghost s0 = self.entries@;
        match command {
            Cmd::Get(k) => {
                match self.find_idx(&k) {
                    Some(i) => {
                        proof {
                            lemma_model_found(s0, i as int, k);
                        }
                        match &self.entries[i].1 {
                            Value::Num(n) => Reply::Bulk(crate::num::i64_to_string(*n)),
                            Value::Members(_) => Reply::Error,
                        }
                    }
                    None => {
                        proof {
                            lemma_model_absent(s0, k);
                        }
                        Reply::Nil
                    }
                }
            }
            Cmd::Put(k, n) => {
                self.put_val(k, Value::Num(n));
                Reply::Status
            }
            Cmd::Del(k) => {
                let was_there = self.del_key(k);
                Reply::Integer(if was_there { 1 } else { 0 })
            }
            Cmd::Incr(k) => self.bump(k, true),
            Cmd::Decr(k) => self.bump(k, false),
            Cmd::Sadd(k, u) => {
                match self.find_idx(&k) {
                    Some(i) => {
                        proof {
                            lemma_model_found(s0, i as int, k);
                        }
                        let (k0, v0) = self.entries.remove(i);
                        match v0 {
                            Value::Num(n) => {
                                self.entries.insert(i, (k0, Value::Num(n)));
                                proof {
                                    assert(self.entries@ =~= s0);
                                }
                                Reply::Error
                            }
                            Value::Members(mut mvec) => {
                                let ghost mseq = mvec@;
                                if contains_member(&mvec, u) {
                                    self.entries.insert(i, (k0, Value::Members(mvec)));
                                    proof {
                                        assert(self.entries@ =~= s0);
                                        assert(mseq.to_set().insert(u) =~= mseq.to_set());
                                        assert(m0.insert(k, m0[k]) =~= m0);
                                    }
                                    Reply::Integer(0)
                                } else {
                                    mvec.push(u);
                                    let v1 = Value::Members(mvec);
                                    self.entries.insert(i, (k0, v1));
                                    proof {
                                        mseq.lemma_push_to_set_commute(u);
                                        assert(self.entries@ =~= s0.update(
                                            i as int,
                                            (k, Value::Members(mvec)),
                                        ));
                                        lemma_model_update(
                                            s0,
                                            i as int,
                                            k,
                                            Value::Members(mvec),
                                        );
                                    }
                                    Reply::Integer(1)
                                }
                            }
                        }
                    }
                    None => {
                        proof {
                            lemma_model_absent(s0, k);
                        }
                        let mut mvec: Vec<i64> = Vec::new();
                        mvec.push(u);
                        let ghost mseq = mvec@;
                        self.entries.push((k, Value::Members(mvec)));
                        proof {
                            assert(mseq =~= Seq::<i64>::empty().push(u));
                            Seq::<i64>::empty().lemma_push_to_set_commute(u);
                            assert(Seq::<i64>::empty().to_set() =~= Set::<i64>::empty());
                            assert(mseq.to_set() =~= Set::empty().insert(u));
                            lemma_model_push(s0, k, Value::Members(mvec));
                        }
                        Reply::Integer(1)
                    }
                }
            }
            Cmd::Srem(k, u) => {
                match self.find_idx(&k) {
                    Some(i) => {
                        proof {
                            lemma_model_found(s0, i as int, k);
                        }
                        let (k0, v0) = self.entries.remove(i);
                        match v0 {
                            Value::Num(n) => {
                                self.entries.insert(i, (k0, Value::Num(n)));
                                proof {
                                    assert(self.entries@ =~= s0);
                                }
                                Reply::Error
                            }
                            Value::Members(mut mvec) => {
                                let ghost mseq = mvec@;
                                match member_idx(&mvec, u) {
                                    Some(j) => {
                                        let _ = mvec.remove(j);
                                        proof {
                                            lemma_member_seq_remove(mseq, j as int, u);
                                        }
                                        if mvec.len() == 0 {
                                            proof {
                                                assert(mseq =~= Seq::<i64>::empty().push(u));
                                                Seq::<i64>::empty().lemma_push_to_set_commute(u);
                                                assert(Seq::<i64>::empty().to_set()
                                                    =~= Set::<i64>::empty());
                                                assert(mseq.to_set() =~= Set::empty().insert(u));
                                                lemma_model_remove(s0, i as int, k);
                                                assert(self.entries@ =~= s0.remove(i as int));
                                            }
                                            Reply::Integer(1)
                                        } else {
                                            let v1 = Value::Members(mvec);
                                            self.entries.insert(i, (k0, v1));
                                            proof {
                                                assert(mseq.to_set() != Set::<i64>::empty().insert(
                                                    u,
                                                )) by {
                                                    assert(mvec@[0] != u);
                                                    assert(mseq.to_set().contains(mvec@[0]));
                                                    assert(!Set::<i64>::empty().insert(u).contains(
                                                        mvec@[0],
                                                    ));
                                                }
                                                assert(self.entries@ =~= s0.update(
                                                    i as int,
                                                    (k, Value::Members(mvec)),
                                                ));
                                                lemma_model_update(
                                                    s0,
                                                    i as int,
                                                    k,
                                                    Value::Members(mvec),
                                                );
                                            }
                                            Reply::Integer(1)
                                        }
                                    }
                                    None => {
                                        let v1 = Value::Members(mvec);
                                        self.entries.insert(i, (k0, v1));
                                        proof {
                                            assert(self.entries@ =~= s0);
                                            assert(!mseq.to_set().contains(u));
                                            assert(mseq.to_set() != Set::<i64>::empty().insert(u))
                                                by {
                                                assert(Set::<i64>::empty().insert(u).contains(u));
                                            }
                                            assert(mseq.to_set().remove(u) =~= mseq.to_set());
                                            assert(m0.insert(k, m0[k]) =~= m0);
                                        }
                                        Reply::Integer(0)
                                    }
                                }
                            }
                        }
                    }
                    None => {
                        proof {
                            lemma_model_absent(s0, k);
                        }
                        Reply::Integer(0)
                    }
                }
            }
            Cmd::Sismember(k, u) => {
                match self.find_idx(&k) {
                    Some(i) => {
                        proof {
                            lemma_model_found(s0, i as int, k);
                        }
                        match &self.entries[i].1 {
                            Value::Num(_) => Reply::Error,
                            Value::Members(mvec) => {
                                if contains_member(mvec, u) {
                                    Reply::Integer(1)
                                } else {
                                    Reply::Integer(0)
                                }
                            }
                        }
                    }
                    None => {
                        proof {
                            lemma_model_absent(s0, k);
                        }
                        Reply::Integer(0)
                    }
                }
            }
        }
    }

    /// Adds one to (or subtracts one from) the counter under a key; the
    /// store refuses the step that would leave the numeric range.
    fn bump(&mut self, k: CacheKey, up: bool) -> (r: Reply)
        requires
            old(self).wf(),
        ensures
            final(self)@ == step(old(self)@, if up { Cmd::Incr(k) } else { Cmd::Decr(k) }),
            reply_matches(old(self)@, if up { Cmd::Incr(k) } else { Cmd::Decr(k) }, r),
            final(self).wf(),
    {
        let ghost m0 = self@;
        let ghost s0 = self.entries@;
        match self.find_idx(&k) {
            Some(i) => {
                proof {
                    lemma_model_found(s0, i as int, k);
                }
                let (k0, v0) = self.entries.remove(i);
                match v0 {
                    Value::Num(n) => {
                        if up && n < i64::MAX {
                            self.entries.insert(i, (k0, Value::Num(n + 1)));
                            proof {
                                assert(self.entries@ =~= s0.update(
                                    i as int,
                                    (k, Value::Num((n + 1) as i64)),
                                ));
                                lemma_model_update(s0, i as int, k, Value::Num((n + 1) as i64));
                            }
                            Reply::Integer(n + 1)
                        } else if !up && n > i64::MIN {
                            self.entries.insert(i, (k0, Value::Num(n - 1)));
                            proof {
                                assert(self.entries@ =~= s0.update(
                                    i as int,
                                    (k, Value::Num((n - 1) as i64)),
                                ));
                                lemma_model_update(s0, i as int, k, Value::Num((n - 1) as i64));
                            }
                            Reply::Integer(n - 1)
                        } else {
                            self.entries.insert(i, (k0, Value::Num(n)));
                            proof {
                                assert(self.entries@ =~= s0);
                            }
                            Reply::Error
                        }
                    }
                    Value::Members(mvec) => {
                        let v1 = Value::Members(mvec);
                        self.entries.insert(i, (k0, v1));
                        proof {
                            assert(self.entries@ =~= s0);
                        }
                        Reply::Error
                    }
                }
            }
            None => {
                proof {
                    lemma_model_absent(s0, k);
                }
                let seed: i64 = if up { 1 } else { -1 };
                self.entries.push((k, Value::Num(seed)));
                proof {
                    lemma_model_push(s0, k, Value::Num(seed));
                }
                Reply::Integer(seed)
            }
        }
    }

    /// Executes one command. The reference store's channel cannot fail, so
    /// the result is always the reply; a deployment behind a real transport
    /// surfaces its channel failures as `TransportError` instead.
    pub fn exec(&mut self, command: Cmd) -> (r: Result<Reply, MyError>)
        requires
            old(self).wf(),
        ensures
            final(self)@ == step(old(self)@, command),
            r matches Ok(rep) && reply_matches(old(self)@, command, rep),
            final(self).wf(),
    {
        Ok(self.run(command))
    }

    /// Executes a batch of commands; replies come back in submission
    /// order, each reflecting the state the preceding commands left.
    pub fn exec_all(&mut self, commands: Vec<Cmd>) -> (r: Result<Vec<Reply>, MyError>)
        requires
            old(self).wf(),
        ensures
            final(self).wf(),
            final(self)@ == steps(old(self)@, commands@),
            r matches Ok(replies) && replies@.len() == commands@.len() && forall|i: int|
                0 <= i < commands@.len() ==> reply_matches(
                    steps(old(self)@, commands@.take(i)),
                    commands@[i],
                    #[trigger] replies@[i],
                ),
    {
        let ghost m0 = self@;
        let mut replies: Vec<Reply> = Vec::new();
        let n = commands.len();
        let mut i: usize = 0;
        proof {
            assert(commands@.take(0) =~= Seq::<Cmd>::empty());
        }
        while i < n
            invariant
                self.wf(),
                i <= n,
                n == commands@.len(),
                replies@.len() == i,
                self@ == steps(m0, commands@.take(i as int)),
                forall|j: int|
                    0 <= j < i ==> reply_matches(
                        steps(m0, commands@.take(j)),
                        commands@[j],
                        #[trigger] replies@[j],
                    ),
            decreases n - i,
        {
            let cmd = commands[i];
            let rep = self.run(cmd);
            replies.push(rep);
            proof {
                lemma_steps_extend(m0, commands@, i as int);
            }
            i += 1;
        }
        proof {
            assert(commands@.take(n as int) =~= commands@);
        }
        Ok(replies)
    }

    /// Sends a batch without waiting on any reply: fire-and-forget.
    pub fn do_send_all(&mut self, commands: Vec<Cmd>)
        requires
            old(self).wf(),
        ensures
            final(self)@ == steps(old(self)@, commands@),
            final(self).wf(),
    {
        let _ = self.exec_all(commands);
    }

    /// Reads the number under a key. An absent key, a key of the wrong
    /// shape and an undecodable value all surface as `ParseError`.
    pub fn get_i64(&mut self, key: &CacheKey) -> (r: Result<i64, MyError>)
        requires
            old(self).wf(),
        ensures
            final(self).wf(),
            final(self)@ == old(self)@,
            match r {
                Ok(n) => has_num(old(self)@, *key) && n == num_at(old(self)@, *key),
                Err(e) => !has_num(old(self)@, *key) && e == MyError::ParseError,
            },
    {
        let ghost m0 = self@;
        let rep = self.run(Cmd::Get(*key));
        match rep {
            Reply::Bulk(s) => {
                proof {
                    lemma_dec_roundtrip(num_at(m0, *key));
                }
                match parse_i64(s.as_str()) {
                    Some(n) => Ok(n),
                    None => Err(MyError::ParseError),
                }
            }
            _ => Err(MyError::ParseError),
        }
    }

    /// Removes a key, fire-and-forget: best-effort invalidation.
    pub fn del(&mut self, key: &CacheKey)
        requires
            old(self).wf(),
        ensures
            final(self)@ == old(self)@.remove(*key),
            final(self).wf(),
    {
        let _ = self.del_key(*key);
    }
}

/// Whether a membership vector contains a member.
fn contains_member(m: &Vec<i64>, u: i64) -> (r: bool)
    ensures
        r == m@.to_set().contains(u),
{
    match member_idx(m, u) {
        Some(_) => true,
        None => false,
    }
}

/// The index of a member in a membership vector, if present.
fn member_idx(m: &Vec<i64>, u: i64) -> (r: Option<usize>)
    ensures
        match r {
            Some(i) => i < m@.len() && m@[i as int] == u,
            None => !m@.to_set().contains(u),
        },
{
    let n = m.len();
    let mut i: usize = 0;
    while i < n
        invariant
            i <= n,
            n == m@.len(),
            forall|j: int| 0 <= j < i ==> m@[j] != u,
        decreases n - i,
    {
        if m[i] == u {
            return Some(i);
        }
        i += 1;
    }
    None
}

/// A batch of reads (GETs and membership tests) leaves any prefix of the
/// store's state where it was.
pub proof fn lemma_reads_preserve(m: StoreModel, cs: Seq<Cmd>, j: int)
    requires
        0 <= j <= cs.len(),
        forall|i: int| 0 <= i < cs.len() ==> (cs[i] is Get || cs[i] is Sismember),
    ensures
        steps(m, cs.take(j)) == m,
    decreases j,
{
    if j > 0 {
        lemma_reads_preserve(m, cs, j - 1);
        lemma_steps_extend(m, cs, j - 1);
    } else {
        assert(cs.take(0) =~= Seq::<Cmd>::empty());
    }
}

/// A GET reply decodes to the key's number exactly when the key holds one.
pub proof fn lemma_get_reply(m: StoreModel, k: CacheKey, r: Reply)
    requires
        reply_matches(m, Cmd::Get(k), r),
    ensures
        crate::cmd::reply_num(r) == if has_num(m, k) {
            Some(num_at(m, k))
        } else {
            Option::<i64>::None
        },
{
    if has_num(m, k) {
        lemma_dec_roundtrip(num_at(m, k));
    }
}

/// Removing the only occurrence of a member takes it out of the set the
/// vector denotes and keeps everything else.
proof fn lemma_member_seq_remove(s: Seq<i64>, j: int, u: i64)
    requires
        0 <= j < s.len(),
        s[j] == u,
        forall|i1: int, i2: int| 0 <= i1 < i2 < s.len() ==> s[i1] != s[i2],
    ensures
        s.remove(j).to_set() == s.to_set().remove(u),
{
    let s2 = s.remove(j);
    assert forall|x: i64| s2.to_set().contains(x) <==> s.to_set().remove(u).contains(x) by {
        if s2.to_set().contains(x) {
            let idx = choose|idx: int| 0 <= idx < s2.len() && s2[idx] == x;
            if idx < j {
                assert(s[idx] == x);
                assert(idx != j);
            } else {
                assert(s[idx + 1] == x);
                assert(idx + 1 != j);
            }
            assert(x != u);
            assert(s.to_set().contains(x));
        }
        if s.to_set().remove(u).contains(x) {
            let idx = choose|idx: int| 0 <= idx < s.len() && s[idx] == x;
            assert(x != u);
            assert(idx != j);
            if idx < j {
                assert(s2[idx] == x);
            } else {
                assert(s2[idx - 1] == x);
            }
            assert(s2.to_set().contains(x));
        }
    }
    assert(s2.to_set() =~= s.to_set().remove(u));
}

} // verus!
