//! The command and reply language spoken with the key-value store, and the
//! typed decoding helpers for replies.
//!
//! Commands are structured values here; the boundary that talks to a real
//! store turns them into wire commands with the string keys of
//! [`crate::keys`]. Replies mirror the wire protocol's shapes: a bulk
//! string, an integer, an absent value, a status or an error.

use vstd::prelude::*;
use crate::keys::CacheKey;
use crate::num::parse_i64_spec;

verus! {

/// One command for the key-value store.
#[derive(Clone, Copy, Debug, PartialEq, Eq, Structural)]
pub enum Cmd {
    /// Read the value under a key.
    Get(CacheKey),
    /// Store a number under a key.
    Put(CacheKey, i64),
    /// Remove a key.
    Del(CacheKey),
    /// Add one to the counter under a key, seeding an absent key from zero.
    Incr(CacheKey),
    /// Subtract one from the counter under a key, seeding an absent key
    /// from zero.
    Decr(CacheKey),
    /// Add a member to the set under a key.
    Sadd(CacheKey, i64),
    /// Remove a member from the set under a key.
    Srem(CacheKey, i64),
    /// Ask whether a member is in the set under a key.
    Sismember(CacheKey, i64),
}

/// One reply from the key-value store.
#[derive(Debug, PartialEq, Eq)]
pub enum Reply {
    /// The key was absent.
    Nil,
    /// An integer reply.
    Integer(i64),
    /// A bulk string reply.
    Bulk(String),
    /// A plain acknowledgement.
    Status,
    /// The store rejected the command.
    Error,
}

/// What a bulk reply decodes to as a number, if anything.
pub open spec fn reply_num(r: Reply) -> Option<i64> {
    match r {
        Reply::Bulk(s) => parse_i64_spec(s@),
        _ => None,
    }
}

/// Typed decoding of replies, as the callers of the adapter use them.
pub trait RespValueRedisHelper {
    /// An integer reply equal to one, the store's "yes".
    spec fn spec_is_one(&self) -> bool;

    /// The integer carried by the reply, zero for any other shape.
    spec fn spec_integer(&self) -> i64;

    /// The number the reply's bulk string denotes, if any.
    spec fn spec_num(&self) -> Option<i64>;

    /// True exactly when the reply is the integer one.
    fn integer_to_bool(&self) -> (r: bool)
        ensures
            r == self.spec_is_one(),
    ;

    /// The integer carried by the reply; zero when it carries none.
    fn integer_to_i64(&self) -> (r: i64)
        ensures
            r == self.spec_integer(),
    ;

    /// Decodes a bulk string reply as a number; anything else, including an
    /// undecodable bulk string, is nothing rather than a fault.
    fn bulk_to_num(&self) -> (r: Option<i64>)
        ensures
            r == self.spec_num(),
    ;
}

impl RespValueRedisHelper for Reply {
    open spec fn spec_is_one(&self) -> bool {
        *self == Reply::Integer(1)
    }

    open spec fn spec_integer(&self) -> i64 {
        match *self {
            Reply::Integer(n) => n,
            _ => 0,
        }
    }

    open spec fn spec_num(&self) -> Option<i64> {
        reply_num(*self)
    }

    fn integer_to_bool(&self) -> (r: bool)
    {
        match self {
            Reply::Integer(num) => *num == 1,
            _ => false,
        }
    }

    fn integer_to_i64(&self) -> (r: i64)
    {
        match self {
            Reply::Integer(num) => *num,
            _ => 0,
        }
    }

    fn bulk_to_num(&self) -> (r: Option<i64>)
    {
        if let Reply::Bulk(s) = self {
            crate::num::parse_i64(s.as_str())
        } else {
            None
        }
    }
}

/// Constructors for each command, under the store's own verb names.
pub struct RedisCmd;

impl RedisCmd {
    /// Read the value under a key.
    pub fn get(key: &CacheKey) -> (r: Cmd)
        ensures
            r == Cmd::Get(*key),
    {
        Cmd::Get(*key)
    }

    /// Store a number under a key.
    pub fn set(key: &CacheKey, value: i64) -> (r: Cmd)
        ensures
            r == Cmd::Put(*key, value),
    {
        Cmd::Put(*key, value)
    }

    /// Remove a key.
    pub fn del(key: &CacheKey) -> (r: Cmd)
        ensures
            r == Cmd::Del(*key),
    {
        Cmd::Del(*key)
    }

    /// Add one to the counter under a key.
    pub fn incr(key: &CacheKey) -> (r: Cmd)
        ensures
            r == Cmd::Incr(*key),
    {
        Cmd::Incr(*key)
    }

    /// Subtract one from the counter under a key.
    pub fn decr(key: &CacheKey) -> (r: Cmd)
        ensures
            r == Cmd::Decr(*key),
    {
        Cmd::Decr(*key)
    }

    /// Add a member to the set under a key.
    pub fn sadd(key: &CacheKey, member: i64) -> (r: Cmd)
        ensures
            r == Cmd::Sadd(*key, member),
    {
        Cmd::Sadd(*key, member)
    }

    /// Ask whether a member is in the set under a key.
    pub fn sismember(key: &CacheKey, member: i64) -> (r: Cmd)
        ensures
            r == Cmd::Sismember(*key, member),
    {
        Cmd::Sismember(*key, member)
    }

    /// Remove a member from the set under a key.
    pub fn srem(key: &CacheKey, member: i64) -> (r: Cmd)
        ensures
            r == Cmd::Srem(*key, member),
    {
        Cmd::Srem(*key, member)
    }
}

} // verus!
