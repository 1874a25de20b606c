//! Pages of visit records.

use vstd::prelude::*;

verus! {

/// How many visit records one page of a short URI's details holds.
pub const DETAILS_PAGE_SIZE: usize = 100;

/// The number of records that come before page `page` (counted from 1)
/// when each page holds `page_size` records.
pub open spec fn page_start(page: nat, page_size: nat) -> int {
    (page - 1) * page_size
}

/// The offset of the first record of page `page`: `(page - 1) * page_size`.
pub fn page_offset(page: usize, page_size: usize) -> (offset: usize)
    requires
        page >= 1,
        page_start(page as nat, page_size as nat) <= usize::MAX,
    ensures
        offset == page_start(page as nat, page_size as nat),
{
    (page - 1) * page_size
}

/// Consecutive pages are adjacent: page `page + 1` starts where page `page`
/// ends, so pages never overlap and leave no record out.
pub proof fn lemma_pages_adjacent(page: nat, page_size: nat)
    requires
        page >= 1,
    ensures
        page_start(page + 1, page_size) == page_start(page, page_size) + page_size,
        page_start(1, page_size) == 0,
{
    assert((page + 1 - 1) * page_size == (page - 1) * page_size + page_size) by (nonlinear_arith);
}

/// The page (counted from 1) that record `i` (counted from 0) falls on.
pub open spec fn page_of(i: nat, page_size: nat) -> nat {
    i / page_size + 1
}

/// Whether record `i` falls on page `page`.
pub open spec fn on_page(i: nat, page: nat, page_size: nat) -> bool {
    page >= 1 && page_start(page, page_size) <= i < page_start(page, page_size) + page_size
}

/// How many pages `total` records fill.
pub open spec fn page_count(total: nat, page_size: nat) -> nat {
    ((total + page_size - 1) as nat) / page_size
}

proof fn lemma_record_on_its_page(i: nat, page_size: nat)
    requires
        page_size >= 1,
    ensures
        on_page(i, page_of(i, page_size), page_size),
{
    let q = i / page_size;
    let r = i % page_size;
    vstd::arithmetic::div_mod::lemma_fundamental_div_mod(i as int, page_size as int);
    assert(0 <= r < page_size);
    assert(page_start(q + 1, page_size) == q * page_size) by (nonlinear_arith)
        requires
            page_start(q + 1, page_size) == (q + 1 - 1) * page_size,
    ;
    assert(q * page_size <= i < q * page_size + page_size) by (nonlinear_arith)
        requires
            i == page_size * q + r,
            0 <= r < page_size,
    ;
}

proof fn lemma_page_of_unique(i: nat, page: nat, page_size: nat)
    requires
        page_size >= 1,
        on_page(i, page, page_size),
    ensures
        page == page_of(i, page_size),
{
    let k = (page - 1) as nat;
    assert(page_start(page, page_size) == k * page_size);
    let r = (i - k * page_size) as nat;
    assert(i == k * page_size + r && r < page_size);
    vstd::arithmetic::div_mod::lemma_fundamental_div_mod_converse(
        i as int,
        page_size as int,
        k as int,
        r as int,
    );
}

/// Pages partition the records: with at least one record to a page, each
/// of `total` records falls on exactly one page, `page_of` it, which is
/// among the first `page_count` pages; and the page after those starts at
/// or after the end of the records, so it holds none of them.
pub proof fn lemma_pages_partition(total: nat, page_size: nat)
    requires
        page_size >= 1,
    ensures
        forall|i: nat| i < total ==> {
            &&& on_page(i, #[trigger] page_of(i, page_size), page_size)
            &&& 1 <= page_of(i, page_size) <= page_count(total, page_size)
        },
        forall|i: nat, page: nat| #[trigger] on_page(i, page, page_size) ==> page == page_of(i, page_size),
        page_start(page_count(total, page_size) + 1, page_size) >= total,
{
    let m = page_count(total, page_size);
    let n = (total + page_size - 1) as nat;
    let r = n % page_size;
    vstd::arithmetic::div_mod::lemma_fundamental_div_mod(n as int, page_size as int);
    assert(n / page_size == m);
    assert(0 <= r < page_size);
    assert(page_start(m + 1, page_size) == m * page_size) by (nonlinear_arith)
        requires
            page_start(m + 1, page_size) == (m + 1 - 1) * page_size,
    ;
    assert(m * page_size >= total) by (nonlinear_arith)
        requires
            n == page_size * m + r,
            r < page_size,
            n == total + page_size - 1,
    ;
    assert forall|i: nat| i < total implies {
        &&& on_page(i, #[trigger] page_of(i, page_size), page_size)
        &&& 1 <= page_of(i, page_size) <= page_count(total, page_size)
    } by {
        lemma_record_on_its_page(i, page_size);
        let q = i / page_size;
        let ri = i % page_size;
        vstd::arithmetic::div_mod::lemma_fundamental_div_mod(i as int, page_size as int);
        assert(0 <= ri < page_size);
        assert(i + page_size == (q + 1) * page_size + ri) by (nonlinear_arith)
            requires
                i == page_size * q + ri,
        ;
        vstd::arithmetic::div_mod::lemma_fundamental_div_mod_converse(
            (i + page_size) as int,
            page_size as int,
            (q + 1) as int,
            ri as int,
        );
        vstd::arithmetic::div_mod::lemma_div_is_ordered((i + page_size) as int, n as int, page_size as int);
    }
    assert forall|i: nat, page: nat| #[trigger] on_page(i, page, page_size) implies page == page_of(i, page_size) by {
        lemma_page_of_unique(i, page, page_size);
    }
}

} // verus!
