//! Page and page-size rules shared by every listing endpoint.

use vstd::prelude::*;

verus! {

/// Default page size of a listing.
pub const DEFAULT_LIMIT: i64 = 20;

/// Largest page size a listing serves.
pub const MAX_LIMIT: i64 = 100;

/// Page number used: the requested one (default 1), at least 1.
pub open spec fn page_spec(page: Option<i64>) -> i64 {
    let p = match page {
        Some(p) => p,
        None => 1,
    };
    if p < 1 {
        1
    } else {
        p
    }
}

/// Page size used: the requested one (default 20), clamped to 1..=100.
pub open spec fn limit_spec(limit: Option<i64>) -> i64 {
    let l = match limit {
        Some(l) => l,
        None => DEFAULT_LIMIT,
    };
    if l < 1 {
        1
    } else if l > MAX_LIMIT {
        MAX_LIMIT
    } else {
        l
    }
}

/// The page and page size a listing serves for the requested values.
pub fn normalize_pagination(page: Option<i64>, limit: Option<i64>) -> (r: (i64, i64))
    ensures
        r.0 == page_spec(page),
        r.1 == limit_spec(limit),
        r.0 >= 1,
        1 <= r.1 <= MAX_LIMIT,
{
    let p = match page {
        Some(p) => p,
        None => 1,
    };
    let p = if p < 1 {
        1
    } else {
        p
    };
    let l = match limit {
        Some(l) => l,
        None => DEFAULT_LIMIT,
    };
    let l = if l < 1 {
        1
    } else if l > MAX_LIMIT {
        MAX_LIMIT
    } else {
        l
    };
    (p, l)
}

/// Rows skipped before a page: `(page - 1) * limit`. `requires`: the product
/// fits in `i64`.
pub fn page_offset(page: i64, limit: i64) -> (r: i64)
    requires
        page >= 1,
        1 <= limit <= MAX_LIMIT,
        (page - 1) * limit <= i64::MAX,
    ensures
        r == (page - 1) * limit,
        r >= 0,
{
    assert(0 <= (page - 1) * limit) by (nonlinear_arith)
        requires
            page >= 1,
            limit >= 1,
    ;
    (page - 1) * limit
}

/// The offset of a page, or `None` where `(page - 1) * limit` leaves `i64`.
pub fn try_page_offset(page: i64, limit: i64) -> (r: Option<i64>)
    requires
        page >= 1,
        1 <= limit <= MAX_LIMIT,
    ensures
        (page - 1) * limit <= i64::MAX ==> r is Some && r->0 == (page - 1) * limit,
        (page - 1) * limit > i64::MAX ==> r is None,
{
    let p1: i64 = page - 1;
    if p1 > i64::MAX / limit {
        assert((page - 1) * limit > i64::MAX) by (nonlinear_arith)
            requires
                p1 == page - 1,
                p1 > i64::MAX / limit,
                limit >= 1,
        ;
        None
    } else {
        assert((page - 1) * limit <= i64::MAX) by (nonlinear_arith)
            requires
                p1 == page - 1,
                p1 <= i64::MAX / limit,
                limit >= 1,
        ;
        Some(page_offset(page, limit))
    }
}

/// Query parameters of the admin product list.
pub struct ListParams {
    pub page: Option<i64>,
    pub limit: Option<i64>,
    pub category: Option<String>,
    pub search: Option<String>,
}

/// Query parameters of the storefront product list.
pub struct StoreListParams {
    pub page: Option<i64>,
    pub limit: Option<i64>,
    pub category: Option<String>,
    pub search: Option<String>,
}

/// Query parameters of the conversion list.
pub struct ConversionListParams {
    pub page: Option<i64>,
    pub limit: Option<i64>,
    pub status: Option<String>,
    pub platform: Option<String>,
}

/// Query parameters of the scrape source and job lists.
pub struct ScrapeListParams {
    pub page: Option<i64>,
    pub limit: Option<i64>,
    pub platform: Option<String>,
    pub status: Option<String>,
}

impl ListParams {
    /// Page and page size served for these parameters.
    pub fn pagination(&self) -> (r: (i64, i64))
        ensures
            r == (page_spec(self.page), limit_spec(self.limit)),
    {
        normalize_pagination(self.page, self.limit)
    }
}

impl StoreListParams {
    /// Page and page size served for these parameters.
    pub fn pagination(&self) -> (r: (i64, i64))
        ensures
            r == (page_spec(self.page), limit_spec(self.limit)),
    {
        normalize_pagination(self.page, self.limit)
    }
}

impl ConversionListParams {
    /// Page and page size served for these parameters.
    pub fn pagination(&self) -> (r: (i64, i64))
        ensures
            r == (page_spec(self.page), limit_spec(self.limit)),
    {
        normalize_pagination(self.page, self.limit)
    }
}

impl ScrapeListParams {
    /// Page and page size served for these parameters.
    pub fn pagination(&self) -> (r: (i64, i64))
        ensures
            r == (page_spec(self.page), limit_spec(self.limit)),
    {
        normalize_pagination(self.page, self.limit)
    }
}

/// Consecutive pages never overlap: page `p + 1` starts where page `p` ends.
pub proof fn lemma_pages_are_contiguous(page: int, limit: int)
    requires
        page >= 1,
        limit >= 1,
    ensures
        ((page + 1) - 1) * limit == (page - 1) * limit + limit,
{
    assert(((page + 1) - 1) * limit == (page - 1) * limit + limit) by (nonlinear_arith);
}

} // verus!
