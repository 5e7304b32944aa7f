//! Pagination arithmetic: a page number and a per-page limit give the
//! query offset, and the returned row count decides whether a next page is
//! offered.

use vstd::prelude::*;
use crate::errors::MyError;

verus! {

/// A page request resolved to a limit and an offset.
#[derive(Debug, Clone, Copy)]
pub struct Paging {
    limit: i64,
    page: i64,
    offset: i64,
}

impl Paging {
    /// The per-page limit.
    pub closed spec fn spec_limit(&self) -> i64 {
        self.limit
    }

    /// The requested page, counted from one.
    pub closed spec fn spec_page(&self) -> i64 {
        self.page
    }

    /// The row offset of the page.
    pub closed spec fn spec_offset(&self) -> i64 {
        self.offset
    }

    /// A page with the default per-page count of twenty.
    pub fn default(page: &i64) -> (r: Result<Self, MyError>)
        ensures
            r matches Ok(p) ==> p.spec_limit() == 20 && p.spec_page() == *page && p.spec_offset()
                == 20 * (*page - 1),
            r is Ok <==> 1 <= *page <= (i64::MAX / 20) + 1,
            r is Err ==> r == Err::<Paging, MyError>(MyError::ParseError),
    {
        Self::new(20, page)
    }

    /// Resolves a page number against a per-page limit. Pages are counted
    /// from one; a page below one, or one whose offset would not fit the
    /// store's 64-bit offset argument, is refused.
    pub fn new(limit: i64, page: &i64) -> (r: Result<Self, MyError>)
        requires
            1 <= limit,
        ensures
            r matches Ok(p) ==> p.spec_limit() == limit && p.spec_page() == *page
                && p.spec_offset() == limit * (*page - 1),
            r is Ok <==> 1 <= *page <= (i64::MAX as int / limit as int) + 1,
            r is Err ==> r == Err::<Paging, MyError>(MyError::ParseError),
    {
        if *page < 1 {
            return Err(MyError::ParseError);
        }
        let span = *page - 1;
        if span > i64::MAX / limit {
            proof {
                assert(limit * (*page - 1) > i64::MAX) by (nonlinear_arith)
                    requires
                        span == *page - 1,
                        span > i64::MAX as int / limit as int,
                        limit >= 1,
                ;
            }
            return Err(MyError::ParseError);
        }
        proof {
            assert(limit * span <= i64::MAX) by (nonlinear_arith)
                requires
                    0 <= span <= i64::MAX as int / limit as int,
                    limit >= 1,
            ;
            assert(limit * span >= 0) by (nonlinear_arith)
                requires
                    span >= 0,
                    limit >= 1,
            ;
        }
        Ok(Self { limit, page: *page, offset: limit * span })
    }

    /// The per-page limit.
    pub fn limit(&self) -> (r: i64)
        ensures
            r == self.spec_limit(),
    {
        self.limit
    }

    /// The row offset to query from.
    pub fn offset(&self) -> (r: i64)
        ensures
            r == self.spec_offset(),
    {
        self.offset
    }

    /// The requested page.
    pub fn page(&self) -> (r: i64)
        ensures
            r == self.spec_page(),
    {
        self.page
    }

    /// Whether a full page came back, so a next page is offered.
    pub fn has_next(&self, count: usize) -> (r: bool)
        ensures
            r == (count >= self.spec_limit()),
    {
        if self.limit < 0 {
            true
        } else if count as u64 >= i64::MAX as u64 {
            true
        } else {
            count as i64 >= self.limit
        }
    }
}

/// A page request as callers send it.
#[derive(Debug, Clone, Copy)]
pub struct GetPageDTO {
    pub page: i64,
}

} // verus!
