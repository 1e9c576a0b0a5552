//! The messages that the queues carry between the parsing stages.
use vstd::prelude::*;
use crate::db::entity::category::CategorySlug;
use crate::db::entity::source::SourceName;

verus! {

/// A request to parse one category of one shop.
#[derive(Debug, Clone, Copy, PartialEq, Eq, Structural)]
pub struct ParseCategoryMessage {
    pub category: CategorySlug,
    pub source: SourceName,
}

/// A request to crawl one category of one shop.
#[derive(Debug, Clone, Copy, PartialEq, Eq, Structural)]
pub struct CrawlerCategoryMessage {
    pub category: CategorySlug,
    pub source: SourceName,
}

/// A request to parse one catalog page again later.
pub struct ParsePageMessage {
    pub url: String,
    pub source: SourceName,
    pub category: CategorySlug,
}

/// A request to read the details of one product.
pub struct ParseDetailsMessage {
    pub external_id: String,
    pub source: SourceName,
    pub product_id: i32,
}

/// A request to upload one image of a product again later.
pub struct UploadImageMessage {
    pub file_path: String,
    pub image_url: String,
    pub external_id: String,
    pub source: SourceName,
}

/// Whether a request for the exchange rates is acknowledged: the rates were
/// fetched, their reply read and marked a success, and every rate saved.
/// Otherwise the request goes back on the queue.
pub fn exchange_rates_acknowledged(fetched: bool, reply_read: bool, reply_success: bool, saved: bool) -> (res: bool)
    ensures
        res == (fetched && reply_read && reply_success && saved),
{
    fetched && reply_read && reply_success && saved
}

/// The requests to parse every category of a shop, in the order of
/// `categories`.
pub fn parse_category_messages(source: SourceName, categories: &Vec<CategorySlug>) -> (res: Vec<
    ParseCategoryMessage,
>)
    ensures
        res@.len() == categories@.len(),
        forall|k: int|
            0 <= k < categories@.len() ==> #[trigger] res@[k] == (ParseCategoryMessage {
                category: categories@[k],
                source,
            }),
{
    let mut res: Vec<ParseCategoryMessage> = Vec::new();
    let mut i: usize = 0;
    while i < categories.len()
        invariant
            i <= categories.len(),
            res@.len() == i,
            forall|k: int|
                0 <= k < i ==> #[trigger] res@[k] == (ParseCategoryMessage {
                    category: categories@[k],
                    source,
                }),
        decreases categories.len() - i,
    {
        res.push(ParseCategoryMessage { category: categories[i], source });
        i = i + 1;
    }
    res
}

} // verus!
