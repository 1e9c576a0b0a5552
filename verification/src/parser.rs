//! Decisions of the category and page parsing runs: the address of each
//! catalog page, when to stop paging, and which products of a page list to
//! keep.
use vstd::prelude::*;
use crate::crawler::columns::select;
use crate::number::{decimal_text, format_u32};
use crate::text::{replace_all, replace_text};

verus! {

/// The number of catalog pages that are requested together.
pub const CONCURRENT_PAGES: u32 = 5;

/// The page numbers stay below this.
pub const PAGE_LIMIT: u32 = 10000;

/// The first page of a catalog.
pub const FIRST_PAGE: u32 = 1;

/// The first page of the batch after the one that starts at `start`: the
/// batches step by `CONCURRENT_PAGES`, and their first pages stay below
/// `PAGE_LIMIT`.
pub fn next_batch_start(start: u32) -> (res: Option<u32>)
    ensures
        res == (if start + CONCURRENT_PAGES < PAGE_LIMIT {
            Some((start + CONCURRENT_PAGES) as u32)
        } else {
            None::<u32>
        }),
{
    if start < PAGE_LIMIT - CONCURRENT_PAGES {
        Some(start + CONCURRENT_PAGES)
    } else {
        None
    }
}

/// The address of page `page` of a catalog: `{page}` in the template replaced
/// by the page number.
pub open spec fn page_url_of(url_template: Seq<char>, page: nat) -> Seq<char> {
    replace_all(url_template, "{page}"@, decimal_text(page))
}

/// The address of page `page` of a catalog.
pub fn page_url(url_template: &str, page: u32) -> (res: String)
    ensures
        res@ == page_url_of(url_template@, page as nat),
{
    proof {
        reveal_strlit("{page}");
    }
    let number = format_u32(page);
    replace_text(url_template, "{page}", number.as_str())
}

/// The pages requested together with `start`: `start` and the pages after it,
/// `concurrent_pages` in all.
pub fn page_batch(start: u32, concurrent_pages: u32) -> (res: Vec<u32>)
    requires
        start + concurrent_pages <= u32::MAX,
    ensures
        res@.len() == concurrent_pages,
        forall|k: int| 0 <= k < concurrent_pages ==> #[trigger] res@[k] == start + k,
{
    let mut res: Vec<u32> = Vec::new();
    let mut page = start;
    while page < start + concurrent_pages
        invariant
            start <= page <= start + concurrent_pages,
            start + concurrent_pages <= u32::MAX,
            res@.len() == page - start,
            forall|k: int| 0 <= k < res@.len() ==> #[trigger] res@[k] == start + k,
        decreases start + concurrent_pages - page,
    {
        res.push(page);
        page = page + 1;
    }
    res
}

/// Whether to request the next batch of pages: every page of this batch came
/// back with products, and not every request of it failed.
pub fn continue_paging(all_successful: bool, amount_of_fails: u32, concurrent_pages: u32) -> (res:
    bool)
    ensures
        res == (all_successful && amount_of_fails != concurrent_pages),
{
    !(!all_successful || amount_of_fails == concurrent_pages)
}

/// The rows of a product list that are kept: the first of every run of rows
/// with the same external id.
pub open spec fn kept_rows(ids: Seq<Seq<char>>) -> Seq<usize> {
    select(ids.len() as int, |i: int| i == 0 || ids[i] != ids[i - 1])
}

/// The rows of a product list that remain once consecutive products with the
/// same external id are merged into the first of them.
pub fn dedup_products(external_ids: &Vec<String>) -> (res: Vec<usize>)
    ensures
        res@ == kept_rows(external_ids.deep_view()),
        forall|k: int|
            0 <= k < res@.len() - 1 ==> external_ids.deep_view()[#[trigger] res@[k] as int]
                != external_ids.deep_view()[res@[k + 1] as int],
{
    let ghost ids = external_ids.deep_view();
    let ghost p = |i: int| i == 0 || ids[i] != ids[i - 1];
    let mut kept: Vec<usize> = Vec::new();
    let n = external_ids.len();
    let mut i: usize = 0;
    while i < n
        invariant
            n == external_ids.len(),
            ids == external_ids.deep_view(),
            p == (|i: int| i == 0 || ids[i] != ids[i - 1]),
            i <= n,
            kept@ == select(i as int, p),
            i > 0 ==> kept@.len() > 0 && ids[kept@.last() as int] == ids[i - 1],
            i == 0 ==> kept@.len() == 0,
            forall|k: int| 0 <= k < kept@.len() ==> #[trigger] kept@[k] < i,
            forall|k: int|
                0 <= k < kept@.len() - 1 ==> ids[#[trigger] kept@[k] as int] != ids[kept@[k + 1] as int],
        decreases n - i,
    {
        let ghost prev = kept@;
        if i == 0 {
            kept.push(i);
        } else {
            let last = kept[kept.len() - 1];
            let same = crate::text::text_eq(external_ids[i].as_str(), external_ids[last].as_str());
            proof {
                assert(external_ids[i as int]@ == ids[i as int]);
                assert(external_ids[last as int]@ == ids[last as int]);
            }
            if !same {
                kept.push(i);
                proof {
                    assert forall|k: int| 0 <= k < kept@.len() - 1 implies ids[#[trigger] kept@[k] as int] != ids[kept@[k + 1] as int] by {
                        if k + 1 < prev.len() {
                            assert(kept@[k] == prev[k]);
                            assert(kept@[k + 1] == prev[k + 1]);
                        } else {
                            assert(kept@[k] == prev.last());
                        }
                    }
                }
            }
        }
        i = i + 1;
    }
    kept
}

} // verus!
