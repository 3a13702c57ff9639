//! Pages of a listing: how many records to skip, and how many pages there
//! are.

use vstd::prelude::*;

verus! {

/// The page size of the job and notification listings when none is asked for.
pub const DEFAULT_JOB_PAGE_SIZE: u64 = 10;

/// The page size of the gallery listing when none is asked for.
pub const DEFAULT_IMAGE_PAGE_SIZE: u64 = 20;

/// A page of a listing. Pages are counted from one, and a page holds at
/// least one record.
#[derive(Debug, Clone, Copy, PartialEq, Eq)]
pub struct Paging {
    page: u64,
    limit: u64,
    skip: u64,
}

/// What a `Paging` holds: the number of the page, the records on a page,
/// and the records before the page.
pub struct PagingView {
    pub page: int,
    pub limit: int,
    pub skip: int,
}

impl View for Paging {
    type V = PagingView;

    closed spec fn view(&self) -> PagingView {
        PagingView { page: self.page as int, limit: self.limit as int, skip: self.skip as int }
    }
}

/// The number of records before page `page` of pages of `limit` records.
pub open spec fn records_before(page: int, limit: int) -> int {
    (page - 1) * limit
}

/// Whether a page number and a page size describe a page: both are at
/// least one, and the number of records before the page can be counted.
pub open spec fn is_page(page: int, limit: int) -> bool {
    page >= 1 && limit >= 1 && records_before(page, limit) <= u64::MAX
}

/// The number of pages that `total` records fill, the last one possibly
/// in part.
pub open spec fn pages_for(total: int, limit: int) -> int {
    (total + limit - 1) / limit
}

/// The page with the given number and size.
pub open spec fn page_of(page: int, limit: int) -> PagingView {
    PagingView { page, limit, skip: records_before(page, limit) }
}

impl Paging {
    #[verifier::type_invariant]
    spec fn well_formed(self) -> bool {
        self.page >= 1 && self.limit >= 1 && self.skip == (self.page - 1) * self.limit
    }

    /// The number of the page, counted from one.
    pub fn page(&self) -> (n: u64)
        ensures
            n == self@.page,
            n >= 1,
    {
        proof {
            use_type_invariant(self);
        }
        self.page
    }

    /// The number of records on a page, which is at least one.
    pub fn limit(&self) -> (n: u64)
        ensures
            n == self@.limit,
            n >= 1,
    {
        proof {
            use_type_invariant(self);
        }
        self.limit
    }

    /// The number of records before the page.
    pub fn skip(&self) -> (n: u64)
        ensures
            n == self@.skip,
            n == records_before(self@.page, self@.limit),
    {
        proof {
            use_type_invariant(self);
        }
        self.skip
    }

    /// The page that a query asks for. Without a page number the first page
    /// is taken, without a size `default_limit`. A page number or a size of
    /// zero describes no page.
    pub fn from_query(page: Option<u64>, limit: Option<u64>, default_limit: u64) -> (p: Option<
        Paging,
    >)
        ensures
            ({
                let number = match page {
                    Some(n) => n,
                    None => 1,
                };
                let size = match limit {
                    Some(n) => n,
                    None => default_limit,
                };
                match p {
                    Some(paging) => is_page(number as int, size as int) && paging@
                        == page_of(number as int, size as int),
                    None => !is_page(number as int, size as int),
                }
            }),
    {
        let number: u64 = match page {
            Some(n) => n,
            None => 1,
        };
        let size: u64 = match limit {
            Some(n) => n,
            None => default_limit,
        };
        if number == 0 || size == 0 {
            return None;
        }
        match (number - 1).checked_mul(size) {
            Some(skip) => Some(Paging { page: number, limit: size, skip }),
            None => None,
        }
    }

    /// The page that a query with signed numbers asks for. A negative
    /// number describes no page.
    pub fn from_signed_query(page: Option<i64>, limit: Option<i64>, default_limit: u64) -> (p:
        Option<Paging>)
        ensures
            ({
                let number = match page {
                    Some(n) => n as int,
                    None => 1,
                };
                let size = match limit {
                    Some(n) => n as int,
                    None => default_limit as int,
                };
                match p {
                    Some(paging) => is_page(number, size) && paging@ == page_of(number, size),
                    None => !is_page(number, size),
                }
            }),
    {
        let number: Option<u64> = match page {
            Some(n) => {
                if n < 0 {
                    return None;
                }
                Some(n as u64)
            },
            None => None,
        };
        let size: Option<u64> = match limit {
            Some(n) => {
                if n < 0 {
                    return None;
                }
                Some(n as u64)
            },
            None => None,
        };
        Paging::from_query(number, size, default_limit)
    }

    /// The number of pages that `total` records fill.
    pub fn total_pages(&self, total: u64) -> (pages: u64)
        ensures
            pages == pages_for(total as int, self@.limit),
    {
        proof {
            use_type_invariant(self);
        }
        let full = total / self.limit;
        let rest = total % self.limit;
        proof {
            lemma_pages(total as int, self.limit as int);
        }
        if rest == 0 {
            full
        } else {
            full + 1
        }
    }
}

/// Counting pages by rounding up is counting the full pages and one more
/// where records are left over.
pub proof fn lemma_pages(total: int, limit: int)
    requires
        total >= 0,
        limit >= 1,
    ensures
        pages_for(total, limit) == if total % limit == 0 {
            total / limit
        } else {
            total / limit + 1
        },
        pages_for(total, limit) <= total,
        total > 0 ==> pages_for(total, limit) >= 1,
{
    let q = total / limit;
    let r = total % limit;
    assert(total == q * limit + r) by {
        vstd::arithmetic::div_mod::lemma_fundamental_div_mod(total, limit);
    }
    assert(0 <= r < limit) by {
        vstd::arithmetic::div_mod::lemma_mod_bound(total, limit);
    }
    if r == 0 {
        assert(total + limit - 1 == q * limit + (limit - 1));
        vstd::arithmetic::div_mod::lemma_fundamental_div_mod_converse(
            total + limit - 1,
            limit,
            q,
            limit - 1,
        );
    } else {
        assert(total + limit - 1 == (q + 1) * limit + (r - 1)) by (nonlinear_arith)
            requires
                total == q * limit + r,
        ;
        vstd::arithmetic::div_mod::lemma_fundamental_div_mod_converse(
            total + limit - 1,
            limit,
            q + 1,
            r - 1,
        );
    }
    assert(q >= 0) by (nonlinear_arith)
        requires
            total == q * limit + r,
            0 <= r < limit,
            total >= 0,
            limit >= 1,
    ;
    assert(q * limit >= q) by (nonlinear_arith)
        requires
            q >= 0,
            limit >= 1,
    ;
    if total > 0 && r == 0 {
        assert(q >= 1) by (nonlinear_arith)
            requires
                total == q * limit + r,
                r == 0,
                total > 0,
                q >= 0,
        ;
    }
}

} // verus!
