use ohboi_parse::crawler::crawler::{
    availability, description_from_matches, extract_description, image_download_url,
    image_file_path, image_url_of, product_nodes_complete,
};
use ohboi_parse::crawler::samsung_shop_com_ua::SamsungShopComUaCrawler;
use ohboi_parse::db::entity::category::CategorySlug;
use ohboi_parse::db::entity::source::SourceName;
use ohboi_parse::db::repository::category::category_slug;
use ohboi_parse::db::repository::product::{enabled_with_details, needs_details, should_enable};
use ohboi_parse::inflection::to_snake_case_text;
use ohboi_parse::messages::{parse_category_messages, ParseCategoryMessage};
use ohboi_parse::pattern::{capture_texts, find_first_match};
use ohboi_parse::text::to_lowercase_text;

#[test]
fn availability_needs_one_of_the_buttons() {
    assert_eq!(availability(false, false), None);
    assert_eq!(availability(true, false), Some(true));
    assert_eq!(availability(false, true), Some(false));
    assert_eq!(availability(true, true), Some(false));
}

#[test]
fn product_nodes_need_id_title_price_and_a_button() {
    assert!(product_nodes_complete(true, true, true, true, false));
    assert!(product_nodes_complete(true, true, true, false, true));
    assert!(!product_nodes_complete(true, true, true, false, false));
    assert!(!product_nodes_complete(false, true, true, true, true));
    assert!(!product_nodes_complete(true, false, true, true, true));
    assert!(!product_nodes_complete(true, true, false, true, true));
}

#[test]
fn image_url_prefers_src_over_lazy_loading() {
    assert_eq!(image_url_of(Some("/a.png"), Some("/b.png")), Some("/a.png".to_string()));
    assert_eq!(image_url_of(None, Some("/b.png")), Some("/b.png".to_string()));
    assert_eq!(image_url_of(None, None), None);
}

#[test]
fn image_paths_are_put_under_the_shop_name() {
    assert_eq!(
        image_file_path(SourceName::MiShopCom, "/upload/iblock/a.png"),
        "product_images/mi_shop_com/upload/iblock/a.png".to_string()
    );
    assert_eq!(
        image_file_path(SourceName::SamsungShopComUa, "/x.jpg"),
        "product_images/samsung_shop_com_ua/x.jpg".to_string()
    );
    assert_eq!(
        image_download_url("https://mi-shop.com", "/a.png"),
        "https://mi-shop.com/a.png".to_string()
    );
}

#[test]
fn description_is_the_matches_put_together() {
    let matches = vec!["<p>a</p>".to_string(), "<ul>b</ul>".to_string()];
    assert_eq!(
        description_from_matches("ignored", &matches),
        "<p>a</p><ul>b</ul>".to_string()
    );
    assert_eq!(
        description_from_matches("  only text ", &Vec::new()),
        "<p>only text<\\p>".to_string()
    );
    assert_eq!(
        extract_description("<p>x</p> and <p>y</p>", "<p>.*?</p>"),
        "<p>x</p><p>y</p>".to_string()
    );
}

#[test]
fn regex_wrappers_find_and_capture() {
    assert_eq!(find_first_match("[0-9]+", "ab 12 cd 34"), Some("12".to_string()));
    assert_eq!(find_first_match("[0-9]+", "none"), None);
    assert_eq!(find_first_match("(", "bad pattern"), None);
    assert_eq!(
        capture_texts("[0-9]+", "ab 12 cd 34"),
        vec!["12".to_string(), "34".to_string()]
    );
    assert_eq!(capture_texts("[0-9]+", "none"), Vec::<String>::new());
    assert_eq!(
        capture_texts("a(b)?", "a ab"),
        vec!["a".to_string(), "ab".to_string(), "b".to_string()]
    );
    assert_eq!(capture_texts("(", "bad pattern"), Vec::<String>::new());
}

#[test]
fn case_wrappers_change_the_text() {
    assert_eq!(to_snake_case_text("SmartHome"), "smart_home".to_string());
    assert_eq!(to_lowercase_text("2.2 ГГц GHz"), "2.2 ггц ghz".to_string());
}

#[test]
fn category_slugs_are_snake_case() {
    assert_eq!(category_slug(CategorySlug::Smartphone), "smartphone".to_string());
    assert_eq!(category_slug(CategorySlug::SmartHome), "smart_home".to_string());
    assert_eq!(category_slug(CategorySlug::Headphones), "headphones".to_string());
    assert_eq!(category_slug(CategorySlug::Watches), "watches".to_string());
}

#[test]
fn product_enabling_rules() {
    assert!(should_enable(true, false));
    assert!(!should_enable(true, true));
    assert!(!should_enable(false, false));
    assert!(enabled_with_details(false, true, true, true));
    assert!(enabled_with_details(true, false, true, true));
    assert!(!enabled_with_details(true, true, false, true));
    assert!(!enabled_with_details(true, true, true, false));
    assert!(!enabled_with_details(false, false, true, true));
}

#[test]
fn category_messages_pair_each_category_with_the_source() {
    let categories = vec![CategorySlug::Smartphone, CategorySlug::Watches];
    assert_eq!(
        parse_category_messages(SourceName::MiShopCom, &categories),
        vec![
            ParseCategoryMessage { category: CategorySlug::Smartphone, source: SourceName::MiShopCom },
            ParseCategoryMessage { category: CategorySlug::Watches, source: SourceName::MiShopCom },
        ]
    );
}

#[test]
fn samsung_shop_offers_watches() {
    let crawler = SamsungShopComUaCrawler {};
    assert_eq!(crawler.get_source(), SourceName::SamsungShopComUa);
    assert_eq!(crawler.get_base(), "https://samsungshop.com.ua".to_string());
    assert_eq!(crawler.get_categories(), vec![CategorySlug::Watches]);
    assert_eq!(
        crawler.get_next_page_urls(CategorySlug::Watches),
        vec!["https://samsungshop.com.ua/ru/wearables?page={page}".to_string()]
    );
}

#[test]
fn samsung_title_and_price_are_read_from_their_runs() {
    let crawler = SamsungShopComUaCrawler {};
    assert_eq!(
        crawler.extract_title("Часы Galaxy Watch3 (45mm) ставка"),
        Some("Galaxy Watch3 (45mm)".to_string())
    );
    assert_eq!(crawler.extract_title("Часы"), None);
    assert_eq!(crawler.extract_price_text("Цена: 11 999 грн"), Some("11999".to_string()));
    assert_eq!(crawler.extract_price_text("нет"), None);
}

#[test]
fn details_are_read_until_description_and_images_are_stored() {
    assert!(needs_details(false, true));
    assert!(needs_details(true, false));
    assert!(!needs_details(true, true));
}
