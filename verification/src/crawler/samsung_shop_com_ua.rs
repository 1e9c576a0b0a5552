//! The crawler of samsungshop.com.ua: the pages it reads and the text of the
//! title and price of a product in its catalog.
use vstd::prelude::*;
use crate::db::entity::category::CategorySlug;
use crate::db::entity::source::SourceName;
use crate::crawler::columns::{collect, opt_seq};
use crate::crawler::crawler::{ListedProduct, availability, availability_of};
use crate::document::{first_attribute_of, opt_view, parts_of_items, parts_view, selected_elements, selected_parts, settled_opt, SelectedElement};
use crate::pattern::{find_first_match, regex_first_match};
use crate::text::{replace_all, replace_text, trim, trim_text};

verus! {

/// The Latin part of a product title.
pub const TITLE_PATTERN: &'static str = "[a-zA-Z0-9 \\-+()]{2,}";

/// The digits of a price, with spaces between them.
pub const PRICE_PATTERN: &'static str = "[0-9][0-9 ]*[0-9]";

#[derive(Clone, Copy)]
pub struct SamsungShopComUaCrawler {}

/// The address of a catalog section, with `{page}` standing for the page
/// number.
pub open spec fn samsung_page_url(section: Seq<char>) -> Seq<char> {
    "https://samsungshop.com.ua"@ + "/ru/"@ + section + "?page={page}"@
}

/// samsungshop.com.ua lists its watches on the pages of its `wearables`
/// section.
pub proof fn lemma_samsung_watch_pages()
    ensures
        samsung_page_url("wearables"@) == "https://samsungshop.com.ua/ru/wearables?page={page}"@,
{
    reveal_strlit("https://samsungshop.com.ua");
    reveal_strlit("/ru/");
    reveal_strlit("wearables");
    reveal_strlit("?page={page}");
    reveal_strlit("https://samsungshop.com.ua/ru/wearables?page={page}");
    assert(samsung_page_url("wearables"@) =~= "https://samsungshop.com.ua/ru/wearables?page={page}"@);
}

/// The title of a product: the first Latin run of its title text, trimmed.
pub open spec fn samsung_title_of(title_html: Seq<char>) -> Option<Seq<char>> {
    match regex_first_match(TITLE_PATTERN@, title_html) {
        Some(m) => Some(trim(m)),
        None => None,
    }
}

/// The text that the price of a product is read from: the first run of
/// digits of its price text, without spaces.
pub open spec fn samsung_price_text_of(price_html: Seq<char>) -> Option<Seq<char>> {
    match regex_first_match(PRICE_PATTERN@, price_html) {
        Some(m) => Some(replace_all(m, " "@, ""@)),
        None => None,
    }
}

/// Whether reading an item stops the whole page: a title node whose text has
/// no Latin run, or a price node without digits after a title that reads.
pub open spec fn samsung_item_stops(name: Option<(Seq<char>, Seq<char>, Seq<Option<Seq<char>>>)>, price: Option<(Seq<char>, Seq<char>, Seq<Option<Seq<char>>>)>) -> bool {
    match name {
        None => false,
        Some(n) => match samsung_title_of(n.0) {
            None => true,
            Some(_) => match price {
                None => false,
                Some(p) => samsung_price_text_of(p.0) is None,
            },
        },
    }
}

/// The product that an item of a catalog page gives, from the parts found in
/// it: its name link (inner HTML and `href`), its price node (inner HTML) and
/// its two buttons.
pub open spec fn samsung_item_of(
    name: Option<(Seq<char>, Seq<char>, Seq<Option<Seq<char>>>)>,
    price: Option<(Seq<char>, Seq<char>, Seq<Option<Seq<char>>>)>,
    buy: bool,
    buy_null: bool,
) -> Option<(Seq<char>, Seq<char>, bool, Seq<char>)> {
    match name {
        None => None,
        Some(n) => match samsung_title_of(n.0) {
            None => None,
            Some(title) => match price {
                None => None,
                Some(p) => match samsung_price_text_of(p.0) {
                    None => None,
                    Some(price_text) => match availability_of(buy, buy_null) {
                        None => None,
                        Some(available) => match first_attribute_of(name) {
                            Some(href) => Some((title, price_text, available, href)),
                            None => None,
                        },
                    },
                },
            },
        },
    }
}

/// The products of the items of a catalog page, in document order; `None`
/// where an item stops the page.
pub open spec fn samsung_products_from(
    names: Seq<Option<(Seq<char>, Seq<char>, Seq<Option<Seq<char>>>)>>,
    prices: Seq<Option<(Seq<char>, Seq<char>, Seq<Option<Seq<char>>>)>>,
    buys: Seq<Option<(Seq<char>, Seq<char>, Seq<Option<Seq<char>>>)>>,
    nulls: Seq<Option<(Seq<char>, Seq<char>, Seq<Option<Seq<char>>>)>>,
) -> Option<Seq<(Seq<char>, Seq<char>, bool, Seq<char>)>> {
    if exists|i: int| 0 <= i < names.len() && #[trigger] samsung_item_stops(names[i], prices[i]) {
        None
    } else {
        Some(
            collect(
                names.len() as int,
                |i: int| opt_seq(samsung_item_of(names[i], prices[i], buys[i] is Some, nulls[i] is Some)),
            ),
        )
    }
}

/// Parts of the items of a catalog page, one entry per item, agreeing with
/// what the parse of `page` is known to give.
pub open spec fn samsung_parts_found(
    page: Seq<char>,
    names: Seq<Option<(Seq<char>, Seq<char>, Seq<Option<Seq<char>>>)>>,
    prices: Seq<Option<(Seq<char>, Seq<char>, Seq<Option<Seq<char>>>)>>,
    buys: Seq<Option<(Seq<char>, Seq<char>, Seq<Option<Seq<char>>>)>>,
    nulls: Seq<Option<(Seq<char>, Seq<char>, Seq<Option<Seq<char>>>)>>,
) -> bool {
    let item = ".catalog-product-item"@;
    &&& names.map_values(|o: Option<(Seq<char>, Seq<char>, Seq<Option<Seq<char>>>)>| settled_opt(o)) == selected_parts(page, item, ".catalog-product-item_name a"@, seq!["href"@])
    &&& prices.map_values(|o: Option<(Seq<char>, Seq<char>, Seq<Option<Seq<char>>>)>| settled_opt(o)) == selected_parts(page, item, ".catalog-product-item_price"@, seq![])
    &&& buys.map_values(|o: Option<(Seq<char>, Seq<char>, Seq<Option<Seq<char>>>)>| settled_opt(o)) == selected_parts(page, item, ".product-button_buy"@, seq![])
    &&& nulls.map_values(|o: Option<(Seq<char>, Seq<char>, Seq<Option<Seq<char>>>)>| settled_opt(o)) == selected_parts(page, item, ".product-button_buy.null"@, seq![])
    &&& names.len() == selected_elements(page, item, seq![]).len()
    &&& prices.len() == names.len()
    &&& buys.len() == names.len()
    &&& nulls.len() == names.len()
}

impl SamsungShopComUaCrawler {
    pub fn get_source(&self) -> (res: SourceName)
        ensures
            res == SourceName::SamsungShopComUa,
    {
        SourceName::SamsungShopComUa
    }

    /// The address of the shop.
    pub fn get_base(&self) -> (res: String)
        ensures
            res@ == "https://samsungshop.com.ua"@,
    {
        String::from_str("https://samsungshop.com.ua")
    }

    /// The categories that the shop offers.
    pub fn get_categories(&self) -> (res: Vec<CategorySlug>)
        ensures
            res@ == seq![CategorySlug::Watches],
    {
        let mut res: Vec<CategorySlug> = Vec::new();
        res.push(CategorySlug::Watches);
        res
    }

    /// The addresses of the catalog pages of a category, with `{page}`
    /// standing for the page number. The shop offers watches only.
    pub fn get_next_page_urls(&self, category: CategorySlug) -> (res: Vec<String>)
        requires
            category == CategorySlug::Watches,
        ensures
            res.deep_view() == seq![samsung_page_url("wearables"@)],
    {
        let mut url = self.get_base();
        url.append("/ru/");
        url.append("wearables");
        url.append("?page={page}");
        let mut res: Vec<String> = Vec::new();
        res.push(url);
        proof {
            assert(res.deep_view() =~= seq![samsung_page_url("wearables"@)]);
        }
        res
    }

    /// The title of a product from its title text; `None` where the text has
    /// no Latin run.
    pub fn extract_title(&self, title_html: &str) -> (res: Option<String>)
        ensures
            match res {
                Some(t) => samsung_title_of(title_html@) == Some(t@),
                None => samsung_title_of(title_html@) is None,
            },
    {
        match find_first_match(TITLE_PATTERN, title_html) {
            Some(m) => Some(String::from_str(trim_text(m.as_str()))),
            None => None,
        }
    }

    /// The text that the price of a product is read from; `None` where the
    /// price text has no digits.
    pub fn extract_price_text(&self, price_html: &str) -> (res: Option<String>)
        ensures
            match res {
                Some(t) => samsung_price_text_of(price_html@) == Some(t@),
                None => samsung_price_text_of(price_html@) is None,
            },
    {
        proof {
            reveal_strlit(" ");
        }
        match find_first_match(PRICE_PATTERN, price_html) {
            Some(m) => Some(replace_text(m.as_str(), " ", "")),
            None => None,
        }
    }
    /// The product that an item of a catalog page gives, from the parts found
    /// in it; `Err` where the item stops the page.
    fn catalog_item(
        &self,
        name: &Option<SelectedElement>,
        price: &Option<SelectedElement>,
        buy: bool,
        buy_null: bool,
    ) -> (res: Result<Option<ListedProduct>, ()>)
        ensures
            res is Err <==> samsung_item_stops(opt_view(*name), opt_view(*price)),
            res matches Ok(Some(p)) ==> samsung_item_of(opt_view(*name), opt_view(*price), buy, buy_null) == Some(p@),
            res matches Ok(None) ==> samsung_item_of(opt_view(*name), opt_view(*price), buy, buy_null) is None,
    {
        let link = match name {
            Some(n) => n,
            None => return Ok(None),
        };
        let title = match self.extract_title(link.inner_html.as_str()) {
            Some(t) => t,
            None => return Err(()),
        };
        let price_node = match price {
            Some(p) => p,
            None => return Ok(None),
        };
        let price_text = match self.extract_price_text(price_node.inner_html.as_str()) {
            Some(p) => p,
            None => return Err(()),
        };
        let available = match availability(buy, buy_null) {
            Some(a) => a,
            None => return Ok(None),
        };
        if link.attributes.len() == 0 {
            return Ok(None);
        }
        proof {
            assert(link.attributes.deep_view()[0] == link.attributes[0].deep_view());
        }
        match &link.attributes[0] {
            Some(href) => Ok(Some(ListedProduct { title, price_text, available, external_id: href.clone() })),
            None => Ok(None),
        }
    }

    /// The products of the items of a catalog page, in document order, from
    /// the parts found in each item; `None` where an item stops the page.
    pub fn read_products_from(
        &self,
        names: &Vec<Option<SelectedElement>>,
        prices: &Vec<Option<SelectedElement>>,
        buys: &Vec<Option<SelectedElement>>,
        nulls: &Vec<Option<SelectedElement>>,
    ) -> (res: Option<Vec<ListedProduct>>)
        requires
            prices.len() == names.len(),
            buys.len() == names.len(),
            nulls.len() == names.len(),
        ensures
            match res {
                Some(v) => samsung_products_from(
                    parts_view(names@),
                    parts_view(prices@),
                    parts_view(buys@),
                    parts_view(nulls@),
                ) == Some(v@.map_values(|p: ListedProduct| p@)),
                None => samsung_products_from(
                    parts_view(names@),
                    parts_view(prices@),
                    parts_view(buys@),
                    parts_view(nulls@),
                ) is None,
            },
    {
        let ghost ns = parts_view(names@);
        let ghost ps = parts_view(prices@);
        let ghost bs = parts_view(buys@);
        let ghost us = parts_view(nulls@);
        let ghost f = |i: int| opt_seq(samsung_item_of(ns[i], ps[i], bs[i] is Some, us[i] is Some));
        let mut products: Vec<ListedProduct> = Vec::new();
        let mut i: usize = 0;
        proof {
            assert(products@.map_values(|p: ListedProduct| p@) =~= collect(0, f));
        }
        while i < names.len()
            invariant
                prices.len() == names.len(),
                buys.len() == names.len(),
                nulls.len() == names.len(),
                ns == parts_view(names@),
                ps == parts_view(prices@),
                bs == parts_view(buys@),
                us == parts_view(nulls@),
                f == (|i: int| opt_seq(samsung_item_of(ns[i], ps[i], bs[i] is Some, us[i] is Some))),
                i <= names.len(),
                forall|j: int| 0 <= j < i ==> !#[trigger] samsung_item_stops(ns[j], ps[j]),
                products@.map_values(|p: ListedProduct| p@) == collect(i as int, f),
            decreases names.len() - i,
        {
            proof {
                assert(ns[i as int] == opt_view(names@[i as int]));
                assert(ps[i as int] == opt_view(prices@[i as int]));
                assert(bs[i as int] == opt_view(buys@[i as int]));
                assert(us[i as int] == opt_view(nulls@[i as int]));
            }
            let ghost prev = products@;
            match self.catalog_item(&names[i], &prices[i], buys[i].is_some(), nulls[i].is_some()) {
                Err(()) => {
                    proof {
                        assert(samsung_item_stops(ns[i as int], ps[i as int]));
                    }
                    return None;
                },
                Ok(Some(p)) => {
                    products.push(p);
                    proof {
                        assert(products@ =~= prev.push(products@.last()));
                    }
                },
                Ok(None) => {},
            }
            proof {
                assert(products@.map_values(|p: ListedProduct| p@) =~= collect(i + 1, f));
            }
            i = i + 1;
        }
        proof {
            assert(!(exists|j: int| 0 <= j < ns.len() && #[trigger] samsung_item_stops(ns[j], ps[j])));
        }
        Some(products)
    }

    /// The products of a catalog page, in document order; `None` where an
    /// item stops the page. Each item's parts are those that the parse of
    /// the page gives; their texts and link addresses are named
    /// (`selected_parts`), their inner HTML is not.
    pub fn read_catalog_products(&self, page: &str) -> (res: Option<Vec<ListedProduct>>)
        ensures
            exists|names, prices, buys, nulls|
                #[trigger] samsung_parts_found(page@, names, prices, buys, nulls)
                    && match res {
                    Some(v) => samsung_products_from(names, prices, buys, nulls) == Some(
                        v@.map_values(|p: ListedProduct| p@),
                    ),
                    None => samsung_products_from(names, prices, buys, nulls) is None,
                },
    {
        let names = parts_of_items(page, ".catalog-product-item", ".catalog-product-item_name a", Some("href"));
        let prices = parts_of_items(page, ".catalog-product-item", ".catalog-product-item_price", None);
        let buys = parts_of_items(page, ".catalog-product-item", ".product-button_buy", None);
        let nulls = parts_of_items(page, ".catalog-product-item", ".product-button_buy.null", None);
        let res = self.read_products_from(&names, &prices, &buys, &nulls);
        proof {
            reveal_strlit("href");
            assert(samsung_parts_found(
                page@,
                parts_view(names@),
                parts_view(prices@),
                parts_view(buys@),
                parts_view(nulls@),
            ));
        }
        res
    }

    /// The products that a catalog page gives to be stored: none, as the
    /// shop's products are only read and shown (`read_catalog_products`). The
    /// page must not have an item that stops it.
    pub fn extract_products(&self, page: &str) -> (res: Vec<ListedProduct>)
        requires
            exists|names, prices, buys, nulls|
                #[trigger] samsung_parts_found(page@, names, prices, buys, nulls)
                    && samsung_products_from(names, prices, buys, nulls) is Some,
        ensures
            res@ == Seq::<ListedProduct>::empty(),
    {
        Vec::new()
    }

    /// Reads a catalog page: the products it shows, and those it gives to be
    /// stored (`extract_products`); `None` where an item stops the page.
    pub fn catalog_page(&self, page: &str) -> (res: Option<(Vec<ListedProduct>, Vec<ListedProduct>)>)
        ensures
            exists|names, prices, buys, nulls|
                #[trigger] samsung_parts_found(page@, names, prices, buys, nulls)
                    && match res {
                    Some((read, stored)) => samsung_products_from(names, prices, buys, nulls) == Some(
                        read@.map_values(|p: ListedProduct| p@),
                    ) && stored@ == Seq::<ListedProduct>::empty(),
                    None => samsung_products_from(names, prices, buys, nulls) is None,
                },
    {
        match self.read_catalog_products(page) {
            Some(read) => {
                let stored = self.extract_products(page);
                Some((read, stored))
            },
            None => None,
        }
    }
}

} // verus!
