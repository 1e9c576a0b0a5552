use ohboi_parse::crawler::mi_shop_com::MiShopComCrawler;
use ohboi_parse::db::entity::category::CategorySlug;
use ohboi_parse::db::entity::source::SourceName;
use ohboi_parse::dto::characteristic::enum_characteristic::{
    AudioJack, ChargingConnectorType, EnumCharacteristic, MemoryCardSlot, SimCard, Technology,
};
use ohboi_parse::dto::characteristic::float_characteristic::FloatCharacteristicKind;
use ohboi_parse::dto::characteristic::int_characteristic::IntCharacteristic;
use ohboi_parse::dto::characteristic::string_characteristic::StringCharacteristic;
use ohboi_parse::my_enum::CurrencyEnum;

fn strings(items: &[&str]) -> Vec<String> {
    items.iter().map(|s| s.to_string()).collect()
}

#[test]
fn mi_shop_names_its_shop_and_currency() {
    let crawler = MiShopComCrawler {};
    assert_eq!(crawler.get_source(), SourceName::MiShopCom);
    assert_eq!(crawler.get_currency(), CurrencyEnum::RUB);
    assert_eq!(
        crawler.get_categories(),
        vec![
            CategorySlug::Smartphone,
            CategorySlug::SmartHome,
            CategorySlug::Headphones,
            CategorySlug::Watches
        ]
    );
}

#[test]
fn mi_shop_page_urls_follow_the_catalog_sections() {
    let crawler = MiShopComCrawler {};
    assert_eq!(
        crawler.get_next_page_urls(CategorySlug::Smartphone),
        strings(&["https://mi-shop.com/ru/catalog/smartphones/page/{page}/"])
    );
    assert_eq!(
        crawler.get_next_page_urls(CategorySlug::SmartHome),
        strings(&[
            "https://mi-shop.com/ru/catalog/smart_devices/umnyy-dom/page/{page}/",
            "https://mi-shop.com/ru/catalog/smart_devices/foto-video/page/{page}/",
            "https://mi-shop.com/ru/catalog/smart_devices/osveshchenie/page/{page}/",
        ])
    );
    assert_eq!(
        crawler.get_next_page_urls(CategorySlug::Watches),
        strings(&["https://mi-shop.com/ru/catalog/smart_devices/umnye-chasy-i-braslety/page/{page}/"])
    );
    assert_eq!(
        crawler.get_additional_info_url("/ru/catalog/smartphones/redmi_9/"),
        "https://mi-shop.com/ru/catalog/smartphones/redmi_9/".to_string()
    );
}

#[test]
fn mi_shop_title_drops_the_color() {
    let crawler = MiShopComCrawler {};
    assert_eq!(
        crawler.extract_title("Смартфон Redmi Note 9 (черный)"),
        "Смартфон Redmi Note 9".to_string()
    );
    assert_eq!(crawler.extract_title(" Mi Band 5 "), " Mi Band 5 ".to_string());
}

#[test]
fn mi_shop_price_text_drops_the_ruble_sign_and_spaces() {
    let crawler = MiShopComCrawler {};
    assert_eq!(crawler.extract_price_text(" 19 990 ₽ "), "19990".to_string());
    assert_eq!(crawler.extract_price_text("990"), "990".to_string());
}

#[test]
fn mi_shop_description_keeps_paragraphs_headings_and_lists() {
    let crawler = MiShopComCrawler {};
    assert_eq!(
        crawler.extract_description("<div><p>One</p> junk <h2>Two</h2><ul><li>3</li></ul></div>"),
        "<p>One</p><h2>Two</h2><ul><li>3</li></ul>".to_string()
    );
    assert_eq!(
        crawler.extract_description("  plain text  "),
        "<p>plain text<\\p>".to_string()
    );
}

#[test]
fn mi_shop_reads_float_rows() {
    let crawler = MiShopComCrawler {};
    let titles = strings(&["Частота", "Цвет", "Версия Android", "Диагональ экрана"]);
    let values = strings(&["2200 МГц", "черный", "OS, v6.0.1", "6,67\""]);
    let readings = crawler.extract_float_readings(&titles, &values);
    assert_eq!(readings.len(), 3);
    assert_eq!(readings[0].row, 0);
    assert_eq!(readings[0].kind, FloatCharacteristicKind::CPUFrequency_Ghz);
    assert_eq!(readings[0].text, "2200".to_string());
    assert!(readings[0].in_mhz);
    assert_eq!(readings[1].row, 2);
    assert_eq!(readings[1].kind, FloatCharacteristicKind::AndroidVersion);
    assert_eq!(readings[1].text, "6.0".to_string());
    assert!(!readings[1].in_mhz);
    assert_eq!(readings[2].row, 3);
    assert_eq!(readings[2].kind, FloatCharacteristicKind::ScreenDiagonal);
    assert_eq!(readings[2].text, "6.67".to_string());
}

#[test]
fn mi_shop_reads_int_rows_lists_first() {
    let crawler = MiShopComCrawler {};
    let titles = strings(&[
        "Диапазоны LTE",
        "Гарантия (мес)",
        "Цвет",
        "Оперативная память (ГБ)",
        "Фотокамера (Мп)",
        "Диапазоны GSM",
        "Кол-во SIM-карт",
    ]);
    let values = strings(&["1, 3, 7", "12 месяцев", "черный", "6", "64Мп + 8Мп", "нет", "две"]);
    let (found, rows) = crawler.extract_int_characteristics("id", &titles, &values);
    assert_eq!(
        found,
        vec![
            IntCharacteristic::LTEDiapason(1),
            IntCharacteristic::LTEDiapason(3),
            IntCharacteristic::LTEDiapason(7),
            IntCharacteristic::Warranty_month(12),
            IntCharacteristic::Ram_GB(6),
            IntCharacteristic::Camera_mp(64),
        ]
    );
    assert_eq!(rows, vec![0, 5, 1, 3, 4]);
}

#[test]
fn mi_shop_reads_supported_technologies() {
    let crawler = MiShopComCrawler {};
    let titles = strings(&["NFC", "Автофокус", "Цвет", "ИК-порт"]);
    let values = strings(&["Да", "Нет", "Да", " Да "]);
    let (found, rows) = crawler.extract_technology_characteristics("id", &titles, &values);
    assert_eq!(
        found,
        vec![
            EnumCharacteristic::TechnologySupport(Technology::NFC),
            EnumCharacteristic::TechnologySupport(Technology::InfraredPort),
        ]
    );
    assert_eq!(rows, vec![0, 1, 3]);
}

#[test]
fn mi_shop_reads_text_rows_trimmed() {
    let crawler = MiShopComCrawler {};
    let titles = strings(&["Процессор", "Цвет", "Модель"]);
    let values = strings(&[" Snapdragon 865 ", "красный", "M2007J3SY"]);
    let (found, rows) = crawler.extract_string_characteristics("id", &titles, &values);
    assert_eq!(
        found,
        vec![
            StringCharacteristic::Processor("Snapdragon 865".to_string()),
            StringCharacteristic::Model("M2007J3SY".to_string()),
        ]
    );
    assert_eq!(rows, vec![0, 2]);
}

#[test]
fn mi_shop_reads_variant_rows_lists_first() {
    let crawler = MiShopComCrawler {};
    let titles = strings(&[
        "Тип разъема для зарядки",
        "SIM-карта",
        "Слот для карты памяти",
        "Аудиоразъем",
        "Цвет",
        "Страна производитель",
    ]);
    let values = strings(&[
        "USB Type-C",
        "nano-SIM, eSIM, micro-SIM",
        "Гибридный",
        "3.5 мм",
        "черный",
        "Германия",
    ]);
    let (found, rows) = crawler.extract_enum_characteristics("id", &titles, &values);
    assert_eq!(
        found,
        vec![
            EnumCharacteristic::SimCard(SimCard::Nano),
            EnumCharacteristic::SimCard(SimCard::Micro),
            EnumCharacteristic::ChargingConnectorType(ChargingConnectorType::USBTypeC),
            EnumCharacteristic::MemoryCardSlot(MemoryCardSlot::Hybrid),
            EnumCharacteristic::AudioJack(AudioJack::_3_5mm),
        ]
    );
    assert_eq!(rows, vec![1, 0, 2, 3]);
}

#[test]
fn mi_shop_skips_unneeded_rows() {
    let crawler = MiShopComCrawler {};
    let titles = strings(&["Видеозапись", "Цвет", "Примечание", "Аудиоплеер"]);
    assert_eq!(crawler.skip_unneeded_characteristics(&titles), vec![0, 2, 3]);
    assert_eq!(crawler.skip_unneeded_characteristics(&Vec::new()), Vec::<usize>::new());
}

#[test]
fn mi_shop_removes_parsed_rows_from_both_columns() {
    let crawler = MiShopComCrawler {};
    let mut titles = strings(&["a", "b", "c", "d", "e"]);
    let mut values = strings(&["1", "2", "3", "4", "5"]);
    let mut parsed = vec![3, 0, 4];
    crawler.remove_parsed_indexes(&mut titles, &mut values, &mut parsed);
    assert_eq!(titles, strings(&["b", "c"]));
    assert_eq!(values, strings(&["2", "3"]));
    assert_eq!(parsed, vec![4, 3, 0]);
}

#[test]
fn mi_shop_rows_read_by_two_readers_never_overlap() {
    let crawler = MiShopComCrawler {};
    let titles = strings(&["Диапазоны LTE", "SIM-карта", "Гарантия (мес)", "Аккумулятор", "NFC"]);
    let values = strings(&["1", "nano-SIM", "12", "x", "Да"]);
    let (_, int_rows) = crawler.extract_int_characteristics("id", &titles, &values);
    let (_, enum_rows) = crawler.extract_enum_characteristics("id", &titles, &values);
    let (_, tech_rows) = crawler.extract_technology_characteristics("id", &titles, &values);
    let mut all: Vec<usize> = Vec::new();
    all.extend(int_rows.iter());
    all.extend(enum_rows.iter());
    all.extend(tech_rows.iter());
    let mut sorted = all.clone();
    sorted.sort();
    sorted.dedup();
    assert_eq!(sorted.len(), all.len());
    let mut t = titles.clone();
    let mut v = values.clone();
    crawler.remove_parsed_indexes(&mut t, &mut v, &mut all);
    assert_eq!(t, strings(&["Аккумулятор"]));
    assert_eq!(v, strings(&["x"]));
}

#[test]
fn mi_shop_table_is_read_stage_by_stage() {
    let crawler = MiShopComCrawler {};
    let mut titles = strings(&[
        "Диапазоны LTE",
        "Частота",
        "Процессор",
        "SIM-карта",
        "NFC",
        "Видеозапись",
        "Цвет",
        "Вес (г)",
    ]);
    let mut values = strings(&[
        "1,3", "2200 МГц", "SD 865", "nano-SIM", "Да", "есть", "черный", "абв",
    ]);
    let ints = crawler.take_int_characteristics("id", &mut titles, &mut values);
    assert_eq!(ints, vec![IntCharacteristic::LTEDiapason(1), IntCharacteristic::LTEDiapason(3)]);
    assert_eq!(titles[0], "Частота".to_string());

    let readings = crawler.extract_float_readings(&titles, &values);
    let mut read = vec![false; titles.len()];
    for r in &readings {
        read[r.row] = r.text.parse::<f32>().is_ok();
    }
    assert_eq!(readings.len(), 2);
    crawler.take_float_rows(&mut titles, &mut values, &read);
    assert_eq!(
        titles,
        strings(&["Процессор", "SIM-карта", "NFC", "Видеозапись", "Цвет", "Вес (г)"])
    );

    let (texts, variants) = crawler.take_rest_characteristics("id", &mut titles, &mut values);
    assert_eq!(texts, vec![StringCharacteristic::Processor("SD 865".to_string())]);
    assert_eq!(
        variants,
        vec![
            EnumCharacteristic::SimCard(SimCard::Nano),
            EnumCharacteristic::TechnologySupport(Technology::NFC),
        ]
    );
    assert_eq!(titles, strings(&["Цвет", "Вес (г)"]));
    assert_eq!(values, strings(&["черный", "абв"]));
}

#[test]
fn mi_shop_listed_products_need_a_title_and_a_link() {
    let crawler = MiShopComCrawler {};
    assert_eq!(
        crawler.listed_product("Redmi 9 (черный)", "/ru/catalog/redmi_9/"),
        Some(("Redmi 9".to_string(), "/ru/catalog/redmi_9/".to_string()))
    );
    assert_eq!(crawler.listed_product(" (черный)", "/ru/catalog/x/"), None);
    assert_eq!(crawler.listed_product("Redmi 9", ""), None);
}

#[test]
fn mi_shop_removes_a_repeated_row_and_the_one_after_it() {
    let crawler = MiShopComCrawler {};
    let mut titles = strings(&["a", "b", "c", "d"]);
    let mut values = strings(&["1", "2", "3", "4"]);
    let mut parsed = vec![1, 1];
    crawler.remove_parsed_indexes(&mut titles, &mut values, &mut parsed);
    assert_eq!(titles, strings(&["a", "d"]));
    assert_eq!(values, strings(&["1", "4"]));
    assert_eq!(parsed, vec![1, 1]);
}
