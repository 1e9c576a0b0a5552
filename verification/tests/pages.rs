use ohboi_parse::crawler::crawler::{
    extract_image_urls, extract_page_description, parse_availability, ListedProduct,
};
use ohboi_parse::crawler::mi_shop_com::MiShopComCrawler;
use ohboi_parse::crawler::samsung_shop_com_ua::SamsungShopComUaCrawler;
use ohboi_parse::document::{parts_of_items, select_any, select_elements, select_first};

fn view(p: &ListedProduct) -> (String, String, bool, String) {
    (p.title.clone(), p.price_text.clone(), p.available, p.external_id.clone())
}

const MI_SHOP_CATALOG: &str = r#"<html><body>
<div class="js-catalog-item">
  <a class="product-card__name" href="/ru/catalog/smartphones/redmi_9/">Redmi</a>
  <div class="product-card__title">Redmi 9 (черный)</div>
  <span class="price__new">10 990 ₽</span>
  <button class="btn-buy">Купить</button>
</div>
<div class="js-catalog-item">
  <a class="product-card__name" href="/ru/catalog/watches/band_5/">Band</a>
  <div class="product-card__title">Mi Band 5</div>
  <span class="price__new">2 990 ₽</span>
  <button class="btn-buy disabled">Нет в наличии</button>
</div>
<div class="js-catalog-item">
  <div class="product-card__title">Without a link</div>
  <span class="price__new">1 ₽</span>
  <button class="btn-buy">Купить</button>
</div>
<div class="js-catalog-item">
  <a class="product-card__name" href="/ru/catalog/x/">X</a>
  <div class="product-card__title">Without buttons</div>
  <span class="price__new">1 ₽</span>
</div>
</body></html>"#;

#[test]
fn mi_shop_catalog_products_are_read_from_their_cards() {
    let crawler = MiShopComCrawler {};
    let products: Vec<_> = crawler.extract_products(MI_SHOP_CATALOG).iter().map(view).collect();
    assert_eq!(
        products,
        vec![
            (
                "Redmi 9".to_string(),
                "10990".to_string(),
                true,
                "/ru/catalog/smartphones/redmi_9/".to_string()
            ),
            (
                "Mi Band 5".to_string(),
                "2990".to_string(),
                false,
                "/ru/catalog/watches/band_5/".to_string()
            ),
        ]
    );
    assert!(crawler.extract_products("<html><body>nothing</body></html>").is_empty());
}

const MI_SHOP_PRODUCT: &str = r#"<html><body>
<div class="detail__tab-description"><p>Good phone</p><div>skipped</div></div>
<button class="btn-primary js-buy">Купить</button>
<div class="detail-modal"><div class="detail__slides">
  <img src="/upload/a.png"><img data-lazy="/upload/b.png"><img alt="none">
</div></div>
<table class="detail__table">
  <tr><td class="detail__table-one">Процессор:</td><td class="detail__table-two"><b>Snapdragon</b> 865</td></tr>
  <tr><td class="detail__table-one">NFC:</td><td class="detail__table-two">Да</td></tr>
</table>
</body></html>"#;

#[test]
fn mi_shop_product_page_is_read() {
    let crawler = MiShopComCrawler {};
    assert_eq!(
        crawler.extract_page_description(MI_SHOP_PRODUCT),
        Some("<p>Good phone</p>".to_string())
    );
    assert_eq!(crawler.parse_page_availability(MI_SHOP_PRODUCT), Some(true));
    assert_eq!(
        crawler.extract_page_image_urls(MI_SHOP_PRODUCT),
        vec!["/upload/a.png".to_string(), "/upload/b.png".to_string()]
    );
    let (titles, values) = crawler.table_columns(MI_SHOP_PRODUCT);
    assert_eq!(titles, vec!["Процессор".to_string(), "NFC".to_string()]);
    assert_eq!(values, vec!["Snapdragon 865".to_string(), "Да".to_string()]);
    assert_eq!(crawler.extract_page_description("<p>no node</p>"), None);
    assert_eq!(crawler.parse_page_availability("<p>no buttons</p>"), None);
}

#[test]
fn generic_page_readers() {
    let page = r#"<div id="subscribe-product">later</div><div class="d">  plain  </div>"#;
    assert_eq!(parse_availability(page, ".btn-primary.js-buy", "#subscribe-product"), Some(false));
    assert_eq!(
        extract_page_description(page, ".d", "<p>.*?</p>"),
        Some("<p>plain<\\p>".to_string())
    );
    assert_eq!(
        extract_image_urls(r#"<img data-src="/x.png"><img src="/y.png">"#, "img", "data-src"),
        vec!["/x.png".to_string(), "/y.png".to_string()]
    );
}

#[test]
fn document_wrappers_select_and_read() {
    let html = r#"<ul><li class="a" href="1">one <b>bold</b></li><li class="a">two</li></ul><li class="b">out</li>"#;
    let first = select_first(html, "li.a").expect("a match");
    assert_eq!(first.text, "one bold".to_string());
    assert_eq!(first.inner_html, "one <b>bold</b>".to_string());
    assert!(select_first(html, "li.c").is_none());
    let found = select_elements(html, "li.a", &vec!["href".to_string()]);
    assert_eq!(found.len(), 2);
    assert_eq!(found[0].attributes, vec![Some("1".to_string())]);
    assert_eq!(found[1].attributes, vec![None]);
    assert!(select_any(html, "ul li"));
    assert!(!select_any(html, "::invalid"));
    let parts = parts_of_items(html, "ul", "li", Some("href"));
    assert_eq!(parts.len(), 1);
    assert_eq!(parts[0].as_ref().map(|e| e.text.clone()), Some("one bold".to_string()));
    let none = parts_of_items(html, "li", "b", None);
    assert_eq!(none.len(), 3);
    assert!(none[0].is_some());
    assert!(none[1].is_none());
    assert!(none[2].is_none());
}

#[test]
fn samsung_catalog_products_are_read_from_their_cards() {
    let crawler = SamsungShopComUaCrawler {};
    let page = r#"<html><body>
<div class="catalog-product-item">
  <div class="catalog-product-item_name"><a href="/ru/wearables/watch3">Часы Galaxy Watch3 (45mm)</a></div>
  <div class="catalog-product-item_price">11 999 грн</div>
  <button class="product-button_buy">Купить</button>
</div>
<div class="catalog-product-item">
  <div class="catalog-product-item_price">999 грн</div>
  <button class="product-button_buy">Купить</button>
</div>
<div class="catalog-product-item">
  <div class="catalog-product-item_name"><a href="/ru/wearables/fit">Galaxy Fit2</a></div>
  <div class="catalog-product-item_price">1 499 грн</div>
  <button class="product-button_buy null">Нет</button>
</div>
</body></html>"#;
    let products: Vec<_> = crawler
        .read_catalog_products(page)
        .expect("every title has a Latin run")
        .iter()
        .map(view)
        .collect();
    assert_eq!(
        products,
        vec![
            (
                "Galaxy Watch3 (45mm)".to_string(),
                "11999".to_string(),
                true,
                "/ru/wearables/watch3".to_string()
            ),
            (
                "Galaxy Fit2".to_string(),
                "1499".to_string(),
                false,
                "/ru/wearables/fit".to_string()
            ),
        ]
    );
    assert!(crawler.extract_products(page).is_empty());
    let (read, stored) = crawler.catalog_page(page).expect("no item stops the page");
    assert_eq!(read.len(), 2);
    assert!(stored.is_empty());
}

#[test]
fn samsung_page_stops_on_a_title_without_latin_letters() {
    let crawler = SamsungShopComUaCrawler {};
    let page = r#"<div class="catalog-product-item">
  <div class="catalog-product-item_name"><a href="/ru/x">Браслет</a></div>
  <div class="catalog-product-item_price">999 грн</div>
  <button class="product-button_buy">Купить</button>
</div>"#;
    assert!(crawler.read_catalog_products(page).is_none());
    let no_digits = r#"<div class="catalog-product-item">
  <div class="catalog-product-item_name"><a href="/ru/x">Galaxy Buds</a></div>
  <div class="catalog-product-item_price">скоро</div>
</div>"#;
    assert!(crawler.read_catalog_products(no_digits).is_none());
    assert!(crawler.catalog_page(page).is_none());
    assert!(crawler.catalog_page(no_digits).is_none());
}
