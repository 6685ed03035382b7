//! Records, request shapes and the value types stored in them.
use vstd::prelude::*;
use crate::text::owned;

pub mod announcement;
pub mod blog;
pub mod booking;
pub mod course;
pub mod member;
pub mod membership_plan;
pub mod schedule;

verus! {

/// The page of a listing that a client asks for.
#[derive(Debug, Clone)]
pub struct PaginationQuery {
    pub page: Option<i64>,
    pub per_page: Option<i64>,
}

impl PaginationQuery {
    /// The page asked for, counted from one; absent or smaller values mean the first.
    pub open spec fn spec_page(self) -> i64 {
        match self.page {
            Some(p) => if p < 1 {
                1
            } else {
                p
            },
            None => 1,
        }
    }

    /// The number of entries per page: twenty unless asked otherwise, and always
    /// between one and a hundred.
    pub open spec fn spec_per_page(self) -> i64 {
        match self.per_page {
            Some(n) => if n < 1 {
                1
            } else if n > 100 {
                100
            } else {
                n
            },
            None => 20,
        }
    }

    /// The number of entries before the page asked for.
    pub open spec fn spec_offset(self) -> int {
        (self.spec_page() - 1) * self.spec_per_page()
    }

    /// The page asked for.
    pub fn get_page(&self) -> (p: i64)
        ensures
            p == self.spec_page(),
            p >= 1,
    {
        let p = match self.page {
            Some(p) => p,
            None => 1,
        };
        if p < 1 {
            1
        } else {
            p
        }
    }

    /// The number of entries per page.
    pub fn get_per_page(&self) -> (n: i64)
        ensures
            n == self.spec_per_page(),
            1 <= n <= 100,
    {
        let n = match self.per_page {
            Some(n) => n,
            None => 20,
        };
        if n < 1 {
            1
        } else if n > 100 {
            100
        } else {
            n
        }
    }

    /// The number of entries before the page asked for.
    pub fn get_offset(&self) -> (o: i64)
        requires
            self.spec_offset() <= i64::MAX,
        ensures
            o == self.spec_offset(),
            o >= 0,
    {
        let page = self.get_page();
        let per_page = self.get_per_page();
        proof {
            assert((page - 1) * per_page >= 0) by (nonlinear_arith)
                requires
                    page >= 1,
                    per_page >= 1,
            ;
        }
        (page - 1) * per_page
    }
}

/// Without a page the first is shown, twenty entries to a page; a size asked for
/// is kept between one and a hundred, and a page below one means the first.
pub proof fn law_pagination_defaults(q: PaginationQuery)
    ensures
        q.page is None ==> q.spec_page() == 1,
        q.page matches Some(p) && p < 1 ==> q.spec_page() == 1,
        q.page matches Some(p) && p >= 1 ==> q.spec_page() == q.page->0,
        q.per_page is None ==> q.spec_per_page() == 20,
        q.per_page matches Some(n) && 1 <= n <= 100 ==> q.spec_per_page() == q.per_page->0,
        q.per_page matches Some(n) && n > 100 ==> q.spec_per_page() == 100,
        q.per_page matches Some(n) && n < 1 ==> q.spec_per_page() == 1,
        q.page is None ==> q.spec_offset() == 0,
{
    assert(0 * q.spec_per_page() == 0);
}

/// Consecutive pages never overlap: each starts where the one before it ends.
pub proof fn law_pages_follow_each_other(q: PaginationQuery, next: PaginationQuery)
    requires
        q.page matches Some(p) && p >= 1,
        next.page == Some((q.page->0 + 1) as i64),
        q.page->0 + 1 <= i64::MAX,
        next.per_page == q.per_page,
    ensures
        next.spec_offset() == q.spec_offset() + q.spec_per_page(),
{
    assert(next.spec_page() == q.spec_page() + 1);
    assert((q.spec_page() + 1 - 1) * q.spec_per_page() == (q.spec_page() - 1) * q.spec_per_page()
        + q.spec_per_page()) by (nonlinear_arith);
}

/// The envelope of every successful answer.
#[derive(Debug, Clone)]
pub struct ApiResponse<T> {
    pub success: bool,
    pub data: Option<T>,
    pub message: Option<String>,
}

impl<T> ApiResponse<T> {
    /// A successful answer carrying `data`.
    pub fn success(data: T) -> (r: Self)
        ensures
            r.success,
            r.data == Some(data),
            r.message is None,
    {
        ApiResponse { success: true, data: Some(data), message: None }
    }

    /// A successful answer carrying `data` and a message for the user.
    pub fn success_with_message(data: T, message: &str) -> (r: Self)
        ensures
            r.success,
            r.data == Some(data),
            r.message matches Some(m) && m@ == message@,
    {
        ApiResponse { success: true, data: Some(data), message: Some(owned(message)) }
    }
}

/// A successful answer that only carries a message.
#[derive(Debug, Clone)]
pub struct MessageResponse {
    pub success: bool,
    pub message: String,
}

impl MessageResponse {
    /// A successful answer with the given message.
    pub fn new(message: &str) -> (r: Self)
        ensures
            r.success,
            r.message@ == message@,
    {
        MessageResponse { success: true, message: owned(message) }
    }
}

/// The answer to a health check.
#[derive(Debug, Clone)]
pub struct HealthResponse {
    pub status: String,
    pub version: String,
    pub timestamp: String,
}

} // verus!
