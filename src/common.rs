//! Paging and the envelope of answers.
use vstd::prelude::*;

verus! {

/// Page-number paging. Pages count from one.
#[derive(Debug, Clone, Copy, PartialEq, Eq, Structural)]
pub struct Pagination {
    pub page: i32,
    pub page_size: i32,
}

/// Largest page size.
pub const MAX_PAGE_SIZE: i32 = 100;

/// Page size when none is given.
pub const DEFAULT_PAGE_SIZE: i32 = 20;

/// `x` held within `[lo, hi]`.
pub open spec fn clamp(x: int, lo: int, hi: int) -> int {
    if x < lo {
        lo
    } else if x > hi {
        hi
    } else {
        x
    }
}

/// The first page, of the default size.
pub fn default_page() -> (r: i32)
    ensures
        r == 1,
{
    1
}

/// The default page size.
pub fn default_page_size() -> (r: i32)
    ensures
        r == DEFAULT_PAGE_SIZE,
{
    DEFAULT_PAGE_SIZE
}

impl Default for Pagination {
    /// The first page, of the default size.
    fn default() -> (r: Self)
        ensures
            r.page == 1,
            r.page_size == DEFAULT_PAGE_SIZE,
    {
        Pagination { page: default_page(), page_size: default_page_size() }
    }
}

impl Pagination {
    /// Paging with the page raised to at least one and the size held
    /// between one and `MAX_PAGE_SIZE`.
    pub fn new(page: i32, page_size: i32) -> (r: Self)
        ensures
            r.page == if page < 1 { 1 } else { page },
            r.page_size == clamp(page_size as int, 1, MAX_PAGE_SIZE as int),
    {
        let page = if page < 1 {
            1
        } else {
            page
        };
        let page_size = if page_size < 1 {
            1
        } else if page_size > MAX_PAGE_SIZE {
            MAX_PAGE_SIZE
        } else {
            page_size
        };
        Pagination { page, page_size }
    }

    /// How many items come before this page.
    pub fn offset(&self) -> (r: i64)
        ensures
            r == (self.page - 1) * self.page_size,
    {
        let before = self.page as i64 - 1;
        proof {
            assert(-2147483649 <= before <= 2147483646);
            assert(-2147483648 <= self.page_size <= 2147483647);
            assert(-4611686022722355200 <= before * self.page_size <= 4611686022722355200) by (nonlinear_arith)
                requires
                    -2147483649 <= before <= 2147483646,
                    -2147483648 <= self.page_size <= 2147483647,
            ;
        }
        before * self.page_size as i64
    }

    /// How many items a page holds.
    pub fn limit(&self) -> (r: i64)
        ensures
            r == self.page_size,
    {
        self.page_size as i64
    }

    /// Whether items remain after this page, out of `total_count`.
    pub fn has_more(&self, total_count: i64) -> (r: bool)
        ensures
            r == (self.page * self.page_size < total_count),
    {
        let p = self.page as i64;
        let s = self.page_size as i64;
        proof {
            assert(-4611686018427387904 <= p * s <= 4611686018427387904) by (nonlinear_arith)
                requires
                    -2147483648 <= p <= 2147483647,
                    -2147483648 <= s <= 2147483647,
            ;
        }
        p * s < total_count
    }
}

/// Paging from a cursor: the items after the one that `cursor` names.
#[derive(Debug, Clone, PartialEq, Eq, Default)]
pub struct CursorPagination {
    pub cursor: Option<String>,
    pub limit: i32,
}

/// The number of items of a cursor page when none is given.
pub fn default_limit() -> (r: i32)
    ensures
        r == DEFAULT_PAGE_SIZE,
{
    DEFAULT_PAGE_SIZE
}

impl CursorPagination {
    /// Cursor paging with the limit held between one and `MAX_PAGE_SIZE`.
    pub fn new(cursor: Option<String>, limit: i32) -> (r: Self)
        ensures
            r.cursor == cursor,
            r.limit == clamp(limit as int, 1, MAX_PAGE_SIZE as int),
    {
        let limit = if limit < 1 {
            1
        } else if limit > MAX_PAGE_SIZE {
            MAX_PAGE_SIZE
        } else {
            limit
        };
        CursorPagination { cursor, limit }
    }

    /// How many items a page holds.
    pub fn limit(&self) -> (r: i64)
        ensures
            r == self.limit,
    {
        self.limit as i64
    }
}

/// The elements of `s` from position `lo` on that `keep` accepts, last first.
pub open spec fn newest_first<T>(s: Seq<T>, keep: spec_fn(T) -> bool, lo: int) -> Seq<T>
    decreases s.len() - lo,
{
    if lo < 0 || lo >= s.len() {
        Seq::empty()
    } else if keep(s[lo]) {
        newest_first(s, keep, lo + 1).push(s[lo])
    } else {
        newest_first(s, keep, lo + 1)
    }
}

/// Where the page of `p` starts in a list of `len` items.
pub open spec fn page_start(p: Pagination, len: int) -> int {
    clamp((p.page - 1) * p.page_size, 0, len)
}

/// Where the page of `p` ends in a list of `len` items.
pub open spec fn page_end(p: Pagination, len: int) -> int {
    clamp(page_start(p, len) + p.page_size, page_start(p, len), len)
}

/// The bounds of the page of `p` in a list of `len` items: it starts after
/// `p.offset()` items and holds at most `p.limit()`; a negative offset or
/// limit counts as zero.
pub fn page_range(p: &Pagination, len: usize) -> (r: (usize, usize))
    ensures
        r.0 == page_start(*p, len as int),
        r.1 == page_end(*p, len as int),
{
    let offset = p.offset();
    let limit = p.limit();
    let lo: usize = if offset <= 0 {
        0
    } else if offset as u64 >= len as u64 {
        len
    } else {
        offset as usize
    };
    let hi: usize = if limit <= 0 {
        lo
    } else if limit as u64 >= (len - lo) as u64 {
        len
    } else {
        lo + limit as usize
    };
    (lo, hi)
}

/// One cursor page of items.
#[derive(Debug, Clone)]
pub struct CursorPaginatedResponse<T> {
    pub data: Vec<T>,
    pub next_cursor: Option<String>,
    pub has_more: bool,
}

/// One numbered page of items.
#[derive(Debug, Clone)]
pub struct PaginatedResponse<T> {
    pub data: Vec<T>,
    pub pagination: PaginationMeta,
}

/// The ceiling of `a / b` over the rationals; for `b == 0`, the sign of `a`
/// stretched to infinity.
pub open spec fn ceil_div(a: int, b: int) -> int {
    if b == 0 {
        if a > 0 {
            i32::MAX as int
        } else if a == 0 {
            0
        } else {
            i32::MIN as int
        }
    } else {
        let (n, d) = if b > 0 { (a, b) } else { (-a, -b) };
        if n >= 0 {
            (n + d - 1) / d
        } else {
            -((-n) / d)
        }
    }
}

/// Where a page stands among all pages.
#[derive(Debug, Clone, Copy, PartialEq, Eq, Structural)]
pub struct PaginationMeta {
    pub page: i32,
    pub page_size: i32,
    pub total_count: i64,
    pub total_pages: i32,
}

impl PaginationMeta {
    /// The page count is the ceiling of `total_count / page_size`, held
    /// within the range of an `i32`.
    pub fn new(page: i32, page_size: i32, total_count: i64) -> (r: Self)
        ensures
            r.page == page,
            r.page_size == page_size,
            r.total_count == total_count,
            r.total_pages == clamp(ceil_div(total_count as int, page_size as int), i32::MIN as int, i32::MAX as int),
    {
        let pages: i128 = if page_size == 0 {
            if total_count > 0 {
                i32::MAX as i128
            } else if total_count == 0 {
                0
            } else {
                i32::MIN as i128
            }
        } else {
            let (n, d): (i128, i128) = if page_size > 0 {
                (total_count as i128, page_size as i128)
            } else {
                (-(total_count as i128), -(page_size as i128))
            };
            if n >= 0 {
                (n + d - 1) / d
            } else {
                -((-n) / d)
            }
        };
        proof {
            let (n, d): (int, int) = if page_size > 0 {
                (total_count as int, page_size as int)
            } else {
                (-(total_count as int), -(page_size as int))
            };
            if page_size != 0 && n >= 0 {
                assert((n + d - 1) / d <= n + d - 1) by (nonlinear_arith)
                    requires n >= 0, d >= 1;
                assert((n + d - 1) / d >= 0) by (nonlinear_arith)
                    requires n >= 0, d >= 1;
            }
            if page_size != 0 && n < 0 {
                assert((-n) / d <= -n) by (nonlinear_arith)
                    requires -n > 0, d >= 1;
                assert((-n) / d >= 0) by (nonlinear_arith)
                    requires -n > 0, d >= 1;
            }
        }
        let total_pages: i32 = if pages > i32::MAX as i128 {
            i32::MAX
        } else if pages < i32::MIN as i128 {
            i32::MIN
        } else {
            pages as i32
        };
        PaginationMeta { page, page_size, total_count, total_pages }
    }
}

/// The envelope of every answer.
#[derive(Debug, Clone)]
pub struct ApiResponse<T> {
    pub success: bool,
    pub data: Option<T>,
    pub message: Option<String>,
}

impl<T> ApiResponse<T> {
    /// A successful answer carrying `data`.
    pub fn success(data: T) -> (r: Self)
        ensures
            r.success,
            r.data == Some(data),
            r.message is None,
    {
        ApiResponse { success: true, data: Some(data), message: None }
    }

    /// A successful answer carrying `data` and a message.
    pub fn success_with_message(data: T, message: String) -> (r: Self)
        ensures
            r.success,
            r.data == Some(data),
            r.message == Some(message),
    {
        ApiResponse { success: true, data: Some(data), message: Some(message) }
    }
}

impl ApiResponse<()> {
    /// A successful answer with nothing to carry.
    pub fn ok() -> (r: Self)
        ensures
            r.success,
            r.data is None,
            r.message is None,
    {
        ApiResponse { success: true, data: None, message: None }
    }

    /// A successful answer with only a message.
    pub fn ok_with_message(message: String) -> (r: Self)
        ensures
            r.success,
            r.data is None,
            r.message == Some(message),
    {
        ApiResponse { success: true, data: None, message: Some(message) }
    }
}

} // verus!
