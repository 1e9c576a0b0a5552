use ohboi_parse::db::repository::characteristic_sync::{enum_value_keys, get_int_char_vis_type};
use ohboi_parse::dto::characteristic::enum_characteristic::{
    EnumCharacteristic, MediaFormat, MemoryCardSlot, Technology, WifiStandard,
};
use ohboi_parse::dto::characteristic::float_characteristic::{
    get_float_char_vis_type, FloatCharacteristicKind,
};
use ohboi_parse::dto::characteristic::int_characteristic::IntCharacteristic;
use ohboi_parse::dto::characteristic::string_characteristic::StringCharacteristic;
use ohboi_parse::my_enum::CharacteristicVisualisationType;
use ohboi_parse::number::{format_u32, parse_i32_text};
use ohboi_parse::crawler::crawler::split_uploads;
use ohboi_parse::messages::exchange_rates_acknowledged;
use ohboi_parse::parser::{
    continue_paging, dedup_products, next_batch_start, page_batch, page_url, CONCURRENT_PAGES,
    FIRST_PAGE, PAGE_LIMIT,
};
use ohboi_parse::text::{
    contains_text, first_piece_text, replace_text, split_text, text_eq, trim_text,
};

#[test]
fn enum_characteristics_are_named_by_variant() {
    let slot = EnumCharacteristic::MemoryCardSlot(MemoryCardSlot::Absent);
    assert_eq!(slot.name(), "MemoryCardSlot".to_string());
    assert_eq!(slot.value(), "None".to_string());
    assert_eq!(slot.full_name(), "MemoryCardSlot.None".to_string());
    let format = EnumCharacteristic::SupportedMediaFormat(MediaFormat::H264);
    assert_eq!(format.full_name(), "SupportedMediaFormat.H264".to_string());
    let nfc = EnumCharacteristic::TechnologySupport(Technology::NFC);
    assert_eq!(nfc.full_name(), "TechnologySupport.NFC".to_string());
    assert_eq!(nfc.to_text(), "TechnologySupport(NFC)".to_string());
    assert_eq!(slot.to_text(), "MemoryCardSlot(None)".to_string());
    let wifi = EnumCharacteristic::WifiStandard(WifiStandard::_5);
    assert_eq!(wifi.value(), "_5".to_string());
    assert_eq!(wifi.to_text(), format!("{}({})", wifi.name(), wifi.value()));
    assert_eq!(wifi.to_text(), format!("{:?}", wifi));
}

#[test]
fn every_enum_value_has_a_distinct_stored_key() {
    let values = EnumCharacteristic::values();
    let keys = enum_value_keys();
    assert_eq!(keys.len(), values.len());
    for (value, key) in values.iter().zip(keys.iter()) {
        assert_eq!(&value.full_name(), key);
    }
    let mut sorted = keys.clone();
    sorted.sort();
    sorted.dedup();
    assert_eq!(sorted.len(), keys.len());
    assert!(keys.contains(&"MemoryCardSlot.None".to_string()));
    assert!(keys.contains(&"ChargingConnectorType.USBTypeC".to_string()));
    assert_eq!(EnumCharacteristic::names().len(), 13);
    assert_eq!(EnumCharacteristic::names()[0], "ChargingConnectorType".to_string());
}

#[test]
fn characteristic_name_lists() {
    let ints = IntCharacteristic::names();
    assert_eq!(ints.len(), 17);
    assert_eq!(ints[0], "BatteryCapacity_mA_h".to_string());
    assert_eq!(ints[16], "MaxMemoryCardSize_GB".to_string());
    let strings = StringCharacteristic::names();
    assert!(strings.contains(&"Model".to_string()));
    assert!(strings.contains(&"Processor".to_string()));
    let kinds = FloatCharacteristicKind::kinds();
    assert_eq!(kinds.len(), 10);
    assert_eq!(kinds[5].name(), "CPUFrequency_Ghz".to_string());
}

#[test]
fn visualisation_types() {
    assert_eq!(
        get_int_char_vis_type(IntCharacteristic::Ram_GB(8)),
        CharacteristicVisualisationType::MultiSelector
    );
    assert_eq!(
        get_float_char_vis_type(FloatCharacteristicKind::Weight_gr),
        CharacteristicVisualisationType::Range
    );
    assert_eq!(
        get_float_char_vis_type(FloatCharacteristicKind::Width_mm),
        CharacteristicVisualisationType::Range
    );
    assert_eq!(
        get_float_char_vis_type(FloatCharacteristicKind::ScreenDiagonal),
        CharacteristicVisualisationType::MultiSelector
    );
}

#[test]
fn page_urls_put_the_number_in_place() {
    assert_eq!(
        page_url("https://mi-shop.com/ru/catalog/audio/page/{page}/", 12),
        "https://mi-shop.com/ru/catalog/audio/page/12/".to_string()
    );
    assert_eq!(page_url("no placeholder", 3), "no placeholder".to_string());
    assert_eq!(page_url("{page}-{page}", 0), "0-0".to_string());
}

#[test]
fn page_batches_and_when_to_stop() {
    assert_eq!(page_batch(1, CONCURRENT_PAGES), vec![1, 2, 3, 4, 5]);
    assert_eq!(page_batch(6, 0), Vec::<u32>::new());
    assert!(continue_paging(true, 0, CONCURRENT_PAGES));
    assert!(continue_paging(true, 4, CONCURRENT_PAGES));
    assert!(!continue_paging(true, 5, CONCURRENT_PAGES));
    assert!(!continue_paging(false, 0, CONCURRENT_PAGES));
    assert!(PAGE_LIMIT > CONCURRENT_PAGES);
}

#[test]
fn consecutive_duplicate_products_are_merged() {
    let ids: Vec<String> = ["a", "a", "b", "a", "c", "c"].iter().map(|s| s.to_string()).collect();
    assert_eq!(dedup_products(&ids), vec![0, 2, 3, 4]);
    assert_eq!(dedup_products(&Vec::new()), Vec::<usize>::new());
}

#[test]
fn decimal_numbers_round_trip() {
    assert_eq!(format_u32(0), "0".to_string());
    assert_eq!(format_u32(4294967295), "4294967295".to_string());
    assert_eq!(parse_i32_text("4294967295"), None);
    assert_eq!(parse_i32_text(format_u32(2147483647).as_str()), Some(2147483647));
    assert_eq!(parse_i32_text("-0"), Some(0));
    assert_eq!(parse_i32_text(" 1"), None);
}

#[test]
fn text_helpers_behave_as_str_methods() {
    assert_eq!(trim_text(" \t a b \n"), "a b");
    assert_eq!(replace_text("a,b,,c", ",", "."), "a.b..c".to_string());
    assert_eq!(replace_text("aaa", "aa", "b"), "ba".to_string());
    assert_eq!(
        split_text("a,b,,c", ","),
        vec!["a".to_string(), "b".to_string(), "".to_string(), "c".to_string()]
    );
    assert_eq!(split_text("", ","), vec!["".to_string()]);
    assert_eq!(first_piece_text("64Мп + 8Мп", "+"), "64Мп ");
    assert_eq!(first_piece_text("none", "+"), "none");
    assert!(contains_text("Redmi (black)", "("));
    assert!(!contains_text("Redmi", "("));
    assert!(text_eq("Да", "Да"));
    assert!(!text_eq("Да", "Нет"));
}


#[test]
fn batches_start_every_five_pages_below_the_limit() {
    let mut starts = vec![FIRST_PAGE];
    while let Some(next) = next_batch_start(*starts.last().unwrap()) {
        starts.push(next);
    }
    assert_eq!(starts.len(), 2000);
    assert_eq!(starts[1], 6);
    assert_eq!(*starts.last().unwrap(), 9996);
    assert_eq!(next_batch_start(9995), None);
    assert_eq!(next_batch_start(9994), Some(9999));
}

#[test]
fn exchange_rates_are_acknowledged_only_when_saved() {
    assert!(exchange_rates_acknowledged(true, true, true, true));
    assert!(!exchange_rates_acknowledged(true, true, false, true));
    assert!(!exchange_rates_acknowledged(false, true, true, true));
    assert!(!exchange_rates_acknowledged(true, true, true, false));
}

#[test]
fn uploads_are_split_into_kept_and_later() {
    assert_eq!(split_uploads(&vec![true, false, true, false]), (vec![0, 2], vec![1, 3]));
    assert_eq!(split_uploads(&vec![]), (vec![], vec![]));
}
