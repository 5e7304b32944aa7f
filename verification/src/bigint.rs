//! A 64-bit entity id that external payloads carry as a decimal string,
//! because clients lose numeric precision on large integers.

use vstd::prelude::*;
use crate::errors::MyError;
use crate::num::{dec_chars, i64_to_string, parse_i64, parse_i64_spec};

verus! {

/// A post or comment id: an opaque ordered 64-bit integer.
#[derive(Debug, Clone, Copy, PartialEq, Eq, Structural)]
pub struct BigInt(i64);

impl View for BigInt {
    type V = i64;

    closed spec fn view(&self) -> i64 {
        self.0
    }
}

impl BigInt {
    /// Wraps a raw id.
    pub fn new(num: i64) -> (r: Self)
        ensures
            r@ == num,
    {
        Self(num)
    }

    /// The raw id.
    pub fn inner(&self) -> (r: &i64)
        ensures
            *r == self@,
    {
        &self.0
    }

    /// Reads an id from its decimal string form; fails on anything that is
    /// not a 64-bit decimal integer.
    pub fn from_text(s: &str) -> (r: Result<Self, MyError>)
        ensures
            match r {
                Ok(b) => parse_i64_spec(s@) == Some(b@),
                Err(e) => parse_i64_spec(s@) is None && e == MyError::ParseError,
            },
    {
        match parse_i64(s) {
            Some(n) => Ok(Self(n)),
            None => Err(MyError::ParseError),
        }
    }

    /// The decimal string form external payloads carry.
    pub fn to_text(&self) -> (r: String)
        ensures
            r@ == dec_chars(self@ as int),
    {
        i64_to_string(self.0)
    }
}

} // verus!
