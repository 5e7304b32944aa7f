//! The distributed id source for new posts and comments: a snowflake-style
//! generator (timestamp, node and sequence bits), owned by the process and
//! handed to handlers as an injected service rather than a global.

use vstd::prelude::*;
use crate::errors::MyError;

verus! {

#[verifier::external_type_specification]
#[verifier::external_body]
pub struct ExSnowflakeIdBucket(snowflake::SnowflakeIdBucket);

/// Relies on snowflake::SnowflakeIdBucket::new; its documentation asks
/// that both ids stay below thirty-two.
#[verifier::external_body]
fn new_bucket(machine_id: i32, node_id: i32) -> snowflake::SnowflakeIdBucket
    requires
        0 <= machine_id < 32,
        0 <= node_id < 32,
{
    snowflake::SnowflakeIdBucket::new(machine_id, node_id)
}

/// Relies on snowflake::SnowflakeIdBucket::get_id. The value depends on
/// the clock, so nothing is promised of it.
#[verifier::external_body]
fn next_raw_id(bucket: &mut snowflake::SnowflakeIdBucket) -> i64 {
    bucket.get_id()
}

/// The id source a deployment constructs once and passes to its handlers.
pub struct IdGenerator {
    bucket: snowflake::SnowflakeIdBucket,
}

impl IdGenerator {
    /// A generator for this machine and node.
    pub fn new(machine_id: i32, node_id: i32) -> Self
        requires
            0 <= machine_id < 32,
            0 <= node_id < 32,
    {
        IdGenerator { bucket: new_bucket(machine_id, node_id) }
    }

    /// The next fresh id. The owned generator cannot lose its lock, so
    /// this never reports the poisoned-lock failure a shared one could.
    pub fn get_next_id(&mut self) -> (r: Result<i64, MyError>)
        ensures
            r is Ok,
    {
        Ok(next_raw_id(&mut self.bucket))
    }
}

} // verus!
