//! Pagination clamping.  Out-of-range requests are never rejected: the
//! page number clamps to a minimum of 1 and the page size clamps into the
//! engine-specific range, silently, as a deliberate permissiveness.

use vstd::prelude::*;

verus! {

/// Default and largest page size of the public listing.
pub const PUBLIC_DEFAULT_PAGE_SIZE: i64 = 10;

pub const PUBLIC_MAX_PAGE_SIZE: i64 = 50;

/// Default and largest page size of the author's own listing.
pub const AUTHOR_DEFAULT_PAGE_SIZE: i64 = 20;

pub const AUTHOR_MAX_PAGE_SIZE: i64 = 100;

/// The requested page, defaulted and clamped to at least 1.
pub open spec fn spec_clamp_page(page: Option<i64>) -> i64 {
    match page {
        Option::None => 1,
        Option::Some(p) => if p < 1 {
            1
        } else {
            p
        },
    }
}

/// The requested page size, defaulted and clamped into `1..=max`.
pub open spec fn spec_clamp_page_size(size: Option<i64>, default: i64, max: i64) -> i64 {
    match size {
        Option::None => default,
        Option::Some(s) => if s < 1 {
            1
        } else if s > max {
            max
        } else {
            s
        },
    }
}

/// The row offset of a page: `(page - 1) * size`, saturating at the top of
/// the range instead of overflowing, so an absurd page yields an empty
/// result rather than a panic.
pub open spec fn spec_offset(page: i64, size: i64) -> i64 {
    if (page - 1) * size > i64::MAX {
        i64::MAX
    } else {
        ((page - 1) * size) as i64
    }
}

pub fn clamp_page(page: &Option<i64>) -> (r: i64)
    ensures
        r == spec_clamp_page(*page),
{
    match page {
        Option::None => 1,
        Option::Some(p) => if *p < 1 {
            1
        } else {
            *p
        },
    }
}

pub fn clamp_page_size(size: &Option<i64>, default: i64, max: i64) -> (r: i64)
    requires
        1 <= default <= max,
    ensures
        r == spec_clamp_page_size(*size, default, max),
{
    match size {
        Option::None => default,
        Option::Some(s) => if *s < 1 {
            1
        } else if *s > max {
            max
        } else {
            *s
        },
    }
}

pub fn page_offset(page: i64, size: i64) -> (r: i64)
    requires
        page >= 1,
        size >= 1,
    ensures
        r == spec_offset(page, size),
{
    proof {
        assert((page - 1) * size >= 0) by (nonlinear_arith)
            requires
                page >= 1,
                size >= 1,
        ;
    }
    match (page - 1).checked_mul(size) {
        Option::Some(v) => v,
        Option::None => i64::MAX,
    }
}

} // verus!
