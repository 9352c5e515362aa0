//! What the services read from the database layer: the SQLSTATE codes they
//! tell apart, the shape of a failed query, and the pagination summary that
//! every list query returns.
use vstd::prelude::*;
use vstd::string::*;

use crate::text::str_eq;

verus! {

/// The SQLSTATE classes the services react to.
#[derive(Debug, Clone, Copy, PartialEq, Eq, Structural)]
pub enum DatabaseError {
    ForeignKeyError,
    UniqueConstraintError,
}

impl DatabaseError {
    /// The SQLSTATE code of the class.
    pub open spec fn code_text(self) -> Seq<char> {
        match self {
            DatabaseError::ForeignKeyError => "23503"@,
            DatabaseError::UniqueConstraintError => "23505"@,
        }
    }

    /// The SQLSTATE code of the class, as the service prints it.
    pub fn to_string(&self) -> (r: String)
        ensures
            r@ == self.code_text(),
    {
        match self {
            DatabaseError::ForeignKeyError => String::from_str("23503"),
            DatabaseError::UniqueConstraintError => String::from_str("23505"),
        }
    }
}

/// A failed query, as the services see it: no row matched, the database
/// refused the statement (with its SQLSTATE code when it gave one), or
/// anything else went wrong.
#[derive(Debug)]
pub enum StoreError {
    RowNotFound,
    Database(Option<String>),
    Other,
}

/// How a service reacts to a failed query.
#[derive(Debug, Clone, Copy, PartialEq, Eq, Structural)]
pub enum StoreErrorKind {
    NotFound,
    ForeignKey,
    UniqueViolation,
    Internal,
}

impl StoreError {
    /// The reaction a failed query calls for: a missing row, a foreign key or
    /// uniqueness violation (by SQLSTATE code), or an internal error.
    pub open spec fn kind(self) -> StoreErrorKind {
        match self {
            StoreError::RowNotFound => StoreErrorKind::NotFound,
            StoreError::Database(Some(code)) => {
                if code@ == DatabaseError::ForeignKeyError.code_text() {
                    StoreErrorKind::ForeignKey
                } else if code@ == DatabaseError::UniqueConstraintError.code_text() {
                    StoreErrorKind::UniqueViolation
                } else {
                    StoreErrorKind::Internal
                }
            },
            _ => StoreErrorKind::Internal,
        }
    }

    /// Classifies a failed query.
    pub fn classify(&self) -> (r: StoreErrorKind)
        ensures
            r == self.kind(),
    {
        match self {
            StoreError::RowNotFound => StoreErrorKind::NotFound,
            StoreError::Database(Some(code)) => {
                let fk = DatabaseError::ForeignKeyError.to_string();
                let unique = DatabaseError::UniqueConstraintError.to_string();
                if str_eq(code.as_str(), fk.as_str()) {
                    StoreErrorKind::ForeignKey
                } else if str_eq(code.as_str(), unique.as_str()) {
                    StoreErrorKind::UniqueViolation
                } else {
                    StoreErrorKind::Internal
                }
            },
            _ => StoreErrorKind::Internal,
        }
    }
}

/// One page of a list query, with the total count of matching rows.
#[derive(Debug)]
pub struct PaginationResult<T> {
    pub total_pages: i32,
    pub count: i32,
    pub has_next: bool,
    pub contents: Vec<T>,
}

/// Number of rows to skip for a 1-based page.
pub open spec fn offset_spec(page: int, limit: int) -> int {
    (page - 1) * limit
}

/// The ceiling of `count / limit` for a nonzero limit.
pub open spec fn ceil_div(count: int, limit: int) -> int
    recommends
        limit != 0,
{
    if limit > 0 {
        (count + limit - 1) / limit
    } else {
        (-count + (-limit) - 1) / (-limit)
    }
}

/// Total number of pages: `ceil(count / limit)` as the service computes it
/// in floating point and converts to `i32` (saturating; a zero limit gives
/// the saturated infinity of the count's sign, or 0 for a zero count).
pub open spec fn total_pages_spec(count: int, limit: int) -> int {
    if limit == 0 {
        if count > 0 { i32::MAX as int } else if count < 0 { i32::MIN as int } else { 0 }
    } else {
        let q = ceil_div(count, limit);
        if q > i32::MAX { i32::MAX as int } else if q < i32::MIN { i32::MIN as int } else { q }
    }
}

/// Whether rows remain after the page: `(page * limit) / count < 1` as the
/// service computes it in floating point (a zero count divides to an
/// infinity of the numerator's sign, or to NaN).
pub open spec fn has_next_spec(page: int, limit: int, count: int) -> bool {
    let seen = page * limit;
    if count > 0 {
        seen < count
    } else if count == 0 {
        seen < 0
    } else {
        seen > count
    }
}

/// Rows to skip before the given 1-based page.
pub fn page_offset(page: i32, limit: i32) -> (r: i32)
    requires
        page > i32::MIN,
        i32::MIN <= offset_spec(page as int, limit as int) <= i32::MAX,
    ensures
        r == offset_spec(page as int, limit as int),
{
    (page - 1) * limit
}

/// `ceil(c / l)` for a positive divisor, exact for every sign of `c`.
fn ceil_div_positive(c: i64, l: i64) -> (r: i64)
    requires
        l > 0,
        -(i32::MAX as int) - 1 <= c <= i32::MAX as int + 1,
        l <= i32::MAX as int + 1,
    ensures
        r == (c as int + l as int - 1) / (l as int),
{
    if c >= 0 {
        (c + l - 1) / l
    } else {
        let a = -c;
        let q = a / l;
        proof {
            let m = a % l;
            assert(a == q * l + m && 0 <= m < l) by (nonlinear_arith)
                requires
                    q == a / l,
                    m == a % l,
                    l > 0,
                    a > 0,
            ;
            assert(-q == (c as int + l as int - 1) / (l as int)) by (nonlinear_arith)
                requires
                    a == q * l + m,
                    0 <= m < l,
                    c == -a,
                    l > 0,
            ;
        }
        -q
    }
}

/// Number of pages for `count` rows, `limit` per page.
pub fn total_pages(count: i32, limit: i32) -> (r: i32)
    ensures
        r == total_pages_spec(count as int, limit as int),
{
    if limit == 0 {
        if count > 0 {
            i32::MAX
        } else if count < 0 {
            i32::MIN
        } else {
            0
        }
    } else {
        let c = count as i64;
        let l = limit as i64;
        let q: i64 = if l > 0 {
            ceil_div_positive(c, l)
        } else {
            ceil_div_positive(-c, -l)
        };
        if q > i32::MAX as i64 {
            i32::MAX
        } else if q < i32::MIN as i64 {
            i32::MIN
        } else {
            q as i32
        }
    }
}

/// Whether rows remain after page `page` of `limit` rows, out of `count`.
pub fn has_next(page: i32, limit: i32, count: i32) -> (r: bool)
    ensures
        r == has_next_spec(page as int, limit as int, count as int),
{
    proof {
        let p = page as int;
        let l = limit as int;
        assert(-0x4000_0000_0000_0000 <= p * l <= 0x4000_0000_0000_0000) by (nonlinear_arith)
            requires
                -0x8000_0000 <= p <= 0x7fff_ffff,
                -0x8000_0000 <= l <= 0x7fff_ffff,
        ;
    }
    let seen = (page as i64) * (limit as i64);
    if count > 0 {
        seen < count as i64
    } else if count == 0 {
        seen < 0
    } else {
        seen > count as i64
    }
}

/// The page summary of a list query: the total count is read from the first
/// row (every row carries it), or is 0 when the page is empty.
pub fn paginate<T>(first_row_count: Option<i32>, page: i32, limit: i32, contents: Vec<T>) -> (r:
    PaginationResult<T>)
    ensures
        r.count == (match first_row_count {
            Some(c) => c,
            None => 0,
        }),
        r.total_pages == total_pages_spec(r.count as int, limit as int),
        r.has_next == has_next_spec(page as int, limit as int, r.count as int),
        r.contents@ == contents@,
{
    let count = match first_row_count {
        Some(c) => c,
        None => 0,
    };
    PaginationResult {
        total_pages: total_pages(count, limit),
        count,
        has_next: has_next(page, limit, count),
        contents,
    }
}

/// For a positive limit and count, a next page exists exactly when the page
/// comes before the last page.
pub proof fn law_has_next_iff_before_last_page(page: int, limit: int, count: int)
    requires
        limit > 0,
        count > 0,
        i32::MIN <= count <= i32::MAX,
        i32::MIN <= limit <= i32::MAX,
    ensures
        has_next_spec(page, limit, count) <==> page < total_pages_spec(count, limit),
{
    let q = (count + limit - 1) / limit;
    assert(q <= count) by (nonlinear_arith)
        requires
            q == (count + limit - 1) / limit,
            limit > 0,
            count > 0,
    ;
    assert(q * limit >= count && (q - 1) * limit < count) by (nonlinear_arith)
        requires
            q == (count + limit - 1) / limit,
            limit > 0,
    ;
    assert(page * limit < count <==> page < q) by (nonlinear_arith)
        requires
            q * limit >= count,
            (q - 1) * limit < count,
            limit > 0,
    ;
}

/// For a positive limit and a nonnegative count, the pages hold all rows and
/// the last page is not empty.
pub proof fn law_total_pages_cover_count(count: int, limit: int)
    requires
        limit > 0,
        count >= 0,
        count <= i32::MAX,
        limit <= i32::MAX,
    ensures
        total_pages_spec(count, limit) * limit >= count,
        (total_pages_spec(count, limit) - 1) * limit < count || count == 0,
        total_pages_spec(count, limit) >= 0,
{
    let q = (count + limit - 1) / limit;
    assert(0 <= q <= count + 1 && q * limit >= count && (q - 1) * limit < count + 1) by (
    nonlinear_arith)
        requires
            q == (count + limit - 1) / limit,
            limit > 0,
            count >= 0,
    ;
    if count > 0 {
        assert((q - 1) * limit < count) by (nonlinear_arith)
            requires
                q == (count + limit - 1) / limit,
                limit > 0,
        ;
    }
}

} // verus!
