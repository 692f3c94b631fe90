//! Paging of query results.
use vstd::prelude::*;
use crate::entity::vo::user_context::UserContext;
use crate::error::Error;
use crate::util;

verus! {

/// The rows a page shows when the request names no page size.
pub const DEFAULT_PAGE_SIZE: u64 = 10;

/// One page of the rows a query counted.
#[derive(Clone, Debug)]
pub struct Page {
    /// The number of rows the query counted.
    pub total_row: u64,
    /// The number of pages those rows fill.
    pub total_page: u64,
    /// The page shown, from 1.
    pub page_no: u64,
    /// The rows a page holds.
    pub page_size: u64,
}

/// The rows a page holds: the size asked for, or the default where none
/// (or zero) was asked.
pub open spec fn size_of_page(page_size: Option<u64>) -> int {
    match page_size {
        Some(s) if s > 0 => s as int,
        _ => DEFAULT_PAGE_SIZE as int,
    }
}

/// The number of pages that `total` rows fill, `size` to a page.
pub open spec fn pages_for(total: int, size: int) -> int {
    (total + size - 1) / size
}

/// The page shown: the one asked for, at least the first and at most the
/// last; the first where none was asked.
pub open spec fn number_of_page(page_no: Option<u64>, total_page: int) -> int {
    match page_no {
        Some(n) if n > 0 => if n as int > total_page { total_page } else { n as int },
        _ => 1,
    }
}

impl Page {
    /// Whether the page is one of the `total_row` rows that `page_no` and
    /// `page_size` ask for.
    pub open spec fn is_query(self, total_row: u64, page_no: Option<u64>, page_size: Option<u64>) -> bool {
        &&& self.total_row == total_row
        &&& self.page_size == size_of_page(page_size)
        &&& self.total_page == pages_for(total_row as int, size_of_page(page_size))
        &&& self.page_no == number_of_page(page_no, self.total_page as int)
    }

    /// The page of `total_row` rows (at least one) that `page_no` and
    /// `page_size` ask for.
    pub fn page_query(total_row: u64, page_no: Option<u64>, page_size: Option<u64>) -> (p: Page)
        requires
            total_row > 0,
        ensures
            p.is_query(total_row, page_no, page_size),
            1 <= p.page_no <= p.total_page,
            p.offset_spec() < total_row,
    {
        let size: u64 = match page_size {
            Some(s) => if s > 0 { s } else { DEFAULT_PAGE_SIZE },
            None => DEFAULT_PAGE_SIZE,
        };
        let q: u64 = total_row / size;
        let rest: u64 = total_row % size;
        proof {
            assert(rest != 0 ==> q < u64::MAX) by (nonlinear_arith)
                requires
                    size > 0,
                    q == total_row / size,
                    rest == total_row % size,
            {
                if rest != 0 {
                    assert(size != 1);
                    assert(q * size <= total_row);
                    assert(q * 2 <= q * size);
                }
            }
        }
        let total_page: u64 = if rest == 0 { q } else { q + 1 };
        proof {
            assert(total_page == pages_for(total_row as int, size as int) && total_page >= 1) by (nonlinear_arith)
                requires
                    size > 0,
                    total_row > 0,
                    q == total_row / size,
                    rest == total_row % size,
                    total_page == if rest == 0 { q as int } else { q + 1 },
            {
            }
        }
        let no: u64 = match page_no {
            Some(n) => if n == 0 {
                1
            } else if n > total_page {
                total_page
            } else {
                n
            },
            None => 1,
        };
        proof {
            assert((no - 1) * size < total_row) by (nonlinear_arith)
                requires
                    size > 0,
                    1 <= no <= total_page,
                    total_row > 0,
                    total_page == pages_for(total_row as int, size as int),
            {
            }
        }
        Page { total_row, total_page, page_no: no, page_size: size }
    }

    /// The first row of the page, counted from 0.
    pub open spec fn offset_spec(self) -> int {
        (self.page_no - 1) * self.page_size
    }

    /// Where the page starts among the rows, counted from 0: the limit's start
    /// that the page query takes.
    pub fn offset(&self) -> (o: u64)
        requires
            1 <= self.page_no,
            self.offset_spec() < self.total_row,
        ensures
            o == self.offset_spec(),
    {
        (self.page_no - 1) * self.page_size
    }
}

/// What a page query decides once the rows were counted: `counted` is the
/// count (`None`: the count failed), `failure` the message of that failure.
/// No rows is refused as not found; otherwise the page asked for.
pub fn page_of_count(counted: Option<u64>, page_no: Option<u64>, page_size: Option<u64>, failure: &str) -> (r: Result<
    Page,
    Error,
>)
    ensures
        counted is None ==> (r matches Err(e) && e.message() == failure@ && e.code() == util::CODE_FAIL),
        counted == Some(0u64) ==> (r matches Err(e) && e.message() == "未查询到符合条件的数据"@ && e.code()
            == util::NOT_EXIST_CODE),
        counted is Some && counted.unwrap() > 0 ==> (r matches Ok(p) && p.is_query(counted.unwrap(), page_no, page_size)
            && 1 <= p.page_no && p.offset_spec() < counted.unwrap()),
{
    match counted {
        None => Err(Error::from_message(failure)),
        Some(n) => if n == 0 {
            Err(Error::with_code("未查询到符合条件的数据", util::NOT_EXIST_CODE))
        } else {
            Ok(Page::page_query(n, page_no, page_size))
        },
    }
}

/// The organization whose rows a page query reads: always the caller's own,
/// whatever the request names; a caller who is not signed in is refused.
pub fn page_organize(context: &Option<UserContext>) -> (r: Result<u64, Error>)
    ensures
        context is None ==> (r matches Err(e) && e.message() == Seq::<char>::empty() && e.code()
            == util::NOT_AUTHORIZE_CODE),
        context is Some ==> r == Ok::<u64, Error>(context.unwrap().organize),
{
    match context {
        Some(c) => Ok(c.organize),
        None => Err(Error::from_code(util::NOT_AUTHORIZE_CODE)),
    }
}

/// The organization whose rows a page query reads where the request may
/// name one: the one named, else the caller's; with none named, a caller
/// who is not signed in is refused.
pub fn page_organize_or(named: Option<u64>, context: &Option<UserContext>) -> (r: Result<u64, Error>)
    ensures
        named is Some ==> r == Ok::<u64, Error>(named.unwrap()),
        named is None && context is None ==> (r matches Err(e) && e.message() == Seq::<char>::empty()
            && e.code() == util::NOT_AUTHORIZE_CODE),
        named is None && context is Some ==> r == Ok::<u64, Error>(context.unwrap().organize),
{
    match named {
        Some(o) => Ok(o),
        None => page_organize(context),
    }
}

} // verus!
