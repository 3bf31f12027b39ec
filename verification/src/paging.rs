//! Page and limit of a listing request.

use vstd::prelude::*;

verus! {

/// The largest page size a listing may ask for.
pub const MAX_LIMIT: i64 = 100;

/// Page number and page size as the client sent them.
#[derive(Clone, Copy, Debug)]
pub struct Pagination {
    pub page: i64,
    pub limit: i64,
}

/// A listing request that passed validation: how many rows to read and how many to skip.
#[derive(Clone, Copy, Debug)]
pub struct ListQuery {
    pub limit: i64,
    pub offset: i64,
}

/// Why a listing request was rejected.
#[derive(Clone, Copy, Debug, PartialEq, Eq, Structural)]
pub enum PagingError {
    /// The page number is below one.
    Page,
    /// The page size is below one or above [`MAX_LIMIT`].
    Limit,
}

impl PagingError {
    /// The HTTP status that goes with a rejected listing request.
    pub fn status_code(self) -> (code: u16)
        ensures
            code == 400,
    {
        400
    }
}

impl Pagination {
    /// Pages count from one, and a page holds between one and [`MAX_LIMIT`] rows.
    pub open spec fn valid(&self) -> bool {
        self.page >= 1 && 1 <= self.limit <= MAX_LIMIT
    }

    /// The page number less one, held at the smallest `i64`.
    pub open spec fn pages_before(&self) -> int {
        if self.page == i64::MIN {
            i64::MIN as int
        } else {
            self.page - 1
        }
    }

    /// Rows that precede the page: the pages before it times the page size.
    pub open spec fn spec_offset(&self) -> int {
        self.pages_before() * self.limit
    }

    /// The offset that a store is asked to skip: `spec_offset`, held at the largest `i64`.
    pub open spec fn clamped_offset(&self) -> int {
        if self.spec_offset() > i64::MAX {
            i64::MAX as int
        } else {
            self.spec_offset()
        }
    }

    /// Rows to skip before the page. The product must fit an `i64`;
    /// [`Pagination::checked_offset`] tests that.
    pub fn offset(&self) -> (r: i64)
        requires
            i64::MIN <= self.spec_offset() <= i64::MAX,
        ensures
            r == self.spec_offset(),
    {
        let before: i64 = if self.page == i64::MIN {
            i64::MIN
        } else {
            self.page - 1
        };
        before * self.limit
    }

    /// Rows to skip before the page, or `None` where the product does not fit an `i64`.
    pub fn checked_offset(&self) -> (r: Option<i64>)
        ensures
            r is Some <==> i64::MIN <= self.spec_offset() <= i64::MAX,
            r matches Some(v) ==> v == self.spec_offset(),
    {
        let before: i64 = if self.page == i64::MIN {
            i64::MIN
        } else {
            self.page - 1
        };
        match before.checked_mul(self.limit) {
            Some(_) => Some(self.offset()),
            None => None,
        }
    }

    /// Validates a listing request. The page is tested before the limit. A valid
    /// request always yields a query; where the offset would pass the largest `i64`
    /// it is held there, which selects no row of any table.
    pub fn query(&self) -> (r: Result<ListQuery, PagingError>)
        ensures
            r is Ok <==> self.valid(),
            r matches Ok(q) ==> q.limit == self.limit && q.offset == self.clamped_offset(),
            r matches Err(e) ==> e == (if self.page < 1 {
                PagingError::Page
            } else {
                PagingError::Limit
            }),
    {
        if self.page < 1 {
            return Err(PagingError::Page);
        }
        if self.limit < 1 || self.limit > MAX_LIMIT {
            return Err(PagingError::Limit);
        }
        assert(self.spec_offset() >= 0) by (nonlinear_arith)
            requires
                self.pages_before() >= 0,
                self.limit >= 1,
                self.spec_offset() == self.pages_before() * self.limit,
        ;
        let offset: i64 = match self.checked_offset() {
            Some(v) => v,
            None => i64::MAX,
        };
        Ok(ListQuery { limit: self.limit, offset })
    }
}

} // verus!
