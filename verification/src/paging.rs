use vstd::prelude::*;

verus! {

/// The page window of a listing: 1-based page number, rows per page and
/// the number of rows skipped.
#[derive(Debug)]
pub struct Pagination {
    pub page: i64,
    pub limit: i64,
    pub offset: i64,
}

/// The requested page, at least 1 (default 1).
pub open spec fn clamped_page(page: Option<i64>) -> int {
    match page {
        Some(p) => if p < 1 {
            1
        } else {
            p as int
        },
        None => 1,
    }
}

/// The requested page size, at least 1 (default 50).
pub open spec fn clamped_limit(limit: Option<i64>) -> int {
    match limit {
        Some(l) => if l < 1 {
            1
        } else {
            l as int
        },
        None => 50,
    }
}

/// The rows skipped before the requested page.
pub open spec fn clamped_offset(page: Option<i64>, limit: Option<i64>) -> int {
    (clamped_page(page) - 1) * clamped_limit(limit)
}

/// The offset of the page fits in an `i64`.
pub open spec fn window_fits(page: Option<i64>, limit: Option<i64>) -> bool {
    clamped_offset(page, limit) <= i64::MAX
}

/// The page window of a listing request: page and size default to 1 and 50
/// and are raised to at least 1.
pub fn paginate(page: Option<i64>, limit: Option<i64>) -> (r: Pagination)
    requires
        window_fits(page, limit),
    ensures
        r.page == clamped_page(page),
        r.limit == clamped_limit(limit),
        r.offset == clamped_offset(page, limit),
{
    let p = match page {
        Some(x) => if x < 1 {
            1
        } else {
            x
        },
        None => 1,
    };
    let l = match limit {
        Some(x) => if x < 1 {
            1
        } else {
            x
        },
        None => 50,
    };
    Pagination { page: p, limit: l, offset: (p - 1) * l }
}

/// `paginate` for any request: `None` exactly when the offset would
/// overflow (where `paginate` cannot be called).
pub fn paginate_checked(page: Option<i64>, limit: Option<i64>) -> (r: Option<Pagination>)
    ensures
        r is None <==> !window_fits(page, limit),
        r matches Some(w) ==> w.page == clamped_page(page) && w.limit == clamped_limit(limit)
            && w.offset == clamped_offset(page, limit),
{
    let p: i64 = match page {
        Some(x) => if x < 1 {
            1
        } else {
            x
        },
        None => 1,
    };
    let l: i64 = match limit {
        Some(x) => if x < 1 {
            1
        } else {
            x
        },
        None => 50,
    };
    assert(0 <= (p - 1) * l <= 0x7fff_ffff_ffff_ffff * 0x7fff_ffff_ffff_ffff) by (nonlinear_arith)
        requires
            1 <= p <= 0x7fff_ffff_ffff_ffff,
            1 <= l <= 0x7fff_ffff_ffff_ffff,
    ;
    let prod: i128 = (p as i128 - 1) * (l as i128);
    assert(prod == (p - 1) * l);
    assert(0 <= (p - 1) * l) by (nonlinear_arith)
        requires
            p >= 1,
            l >= 1,
    ;
    if prod > i64::MAX as i128 {
        None
    } else {
        Some(paginate(page, limit))
    }
}

/// The requested page without raising it (default 1), as the library
/// listings read it.
pub open spec fn raw_page(page: Option<i64>) -> int {
    match page {
        Some(p) => p as int,
        None => 1,
    }
}

/// The requested page size without raising it (default 50).
pub open spec fn raw_limit(limit: Option<i64>) -> int {
    match limit {
        Some(l) => l as int,
        None => 50,
    }
}

/// The unraised offset fits in an `i64`.
pub open spec fn raw_window_fits(page: Option<i64>, limit: Option<i64>) -> bool {
    i64::MIN <= (raw_page(page) - 1) * raw_limit(limit) <= i64::MAX
}

/// The page window as the library listings compute it: defaults 1 and 50,
/// values taken as given.
pub fn paginate_raw(page: Option<i64>, limit: Option<i64>) -> (r: Pagination)
    requires
        raw_window_fits(page, limit),
        raw_page(page) > i64::MIN,
    ensures
        r.page == raw_page(page),
        r.limit == raw_limit(limit),
        r.offset == (raw_page(page) - 1) * raw_limit(limit),
{
    let p = match page {
        Some(x) => x,
        None => 1,
    };
    let l = match limit {
        Some(x) => x,
        None => 50,
    };
    Pagination { page: p, limit: l, offset: (p - 1) * l }
}

/// The number of pages that `total` rows fill at `limit` rows per page
/// (`ceil(total / limit)`).
pub open spec fn page_count_spec(total: int, limit: int) -> int {
    if total == 0 {
        0
    } else {
        (total - 1) / limit + 1
    }
}

/// The page count reported with a listing. For a non-negative row count
/// and a page size of at least one this equals the ceiling of the
/// quotient, which the listings print as `pages`.
pub fn page_count(total: i32, limit: i64) -> (r: i32)
    requires
        total >= 0,
        limit >= 1,
    ensures
        r == page_count_spec(total as int, limit as int),
        r as int * limit >= total,
        (r as int - 1) * limit < total || total == 0,
{
    if total == 0 {
        return 0;
    }
    let t: i64 = total as i64;
    let q: i64 = (t - 1) / limit;
    proof {
        lemma_page_count_bounds(t as int, limit as int, q as int);
    }
    (q + 1) as i32
}

proof fn lemma_page_count_bounds(t: int, l: int, q: int)
    requires
        t >= 1,
        l >= 1,
        q == (t - 1) / l,
    ensures
        (q + 1) * l >= t,
        q * l < t,
        0 <= q < t,
{
    assert((q + 1) * l >= t && q * l < t && 0 <= q < t) by (nonlinear_arith)
        requires
            t >= 1,
            l >= 1,
            q == (t - 1) / l,
    ;
}

/// Every page window starts at a non-negative row and a later page starts
/// later: for page numbers `p < p2` the offsets are ordered and differ by
/// at least one page.
pub proof fn law_offsets_ordered(p: i64, p2: i64, limit: Option<i64>)
    requires
        1 <= p < p2,
    ensures
        clamped_offset(Some(p), limit) >= 0,
        clamped_offset(Some(p2), limit) >= clamped_offset(Some(p), limit) + clamped_limit(limit),
{
    let l = clamped_limit(limit);
    assert((p - 1) * l >= 0 && (p2 - 1) * l >= (p - 1) * l + l) by (nonlinear_arith)
        requires
            1 <= p < p2,
            l >= 1,
    ;
}

} // verus!
