use ohboi_parse::crawler::util::bool_value_parser::bool_value;
use ohboi_parse::crawler::util::int_value_parser::{
    int_fps_value, int_guarantee_value, int_hz_value, int_ma_h_value,
    int_max_memory_card_size_value, int_memory_value, int_mp_value, int_nit_value, int_value,
    multiple_int_value, pix_int_value,
};
use ohboi_parse::crawler::util::string_value_parser::{
    string_audio_jack_value, string_battery_type_value, string_charging_connector_type_value,
    string_country_value, string_display_type_value, string_internet_connection_technology_value,
    string_material_value, string_media_format_value, string_memory_card_slot_value,
    string_satellite_navigation_value, string_sim_card_value, string_value,
    string_wifi_standard_value,
};
use ohboi_parse::crawler::util::{
    multiple_parse_and_capture, parse_and_capture, CharacteristicParsingContext, SimCardParser,
    WifiStandardParser,
};
use ohboi_parse::db::entity::source::SourceName;
use ohboi_parse::dto::characteristic::enum_characteristic::{
    AudioJack, BatteryType, ChargingConnectorType, Country, DisplayType,
    InternetConnectionTechnology, Material, MediaFormat, MemoryCardSlot, SatelliteNavigation,
    SimCard, WifiStandard,
};

#[test]
fn int_value_reads_trimmed_numbers() {
    assert_eq!(int_value("_", "_", " 42 "), Some(42));
    assert_eq!(int_value("_", "_", "+5"), Some(5));
    assert_eq!(int_value("_", "_", "-17"), Some(-17));
    assert_eq!(int_value("_", "_", "2147483647"), Some(2147483647));
    assert_eq!(int_value("_", "_", "-2147483648"), Some(-2147483648));
}

#[test]
fn int_value_rejects_what_from_str_radix_rejects() {
    assert_eq!(int_value("_", "_", ""), None);
    assert_eq!(int_value("_", "_", "   "), None);
    assert_eq!(int_value("_", "_", "-"), None);
    assert_eq!(int_value("_", "_", "+"), None);
    assert_eq!(int_value("_", "_", "2147483648"), None);
    assert_eq!(int_value("_", "_", "-2147483649"), None);
    assert_eq!(int_value("_", "_", "12a"), None);
    assert_eq!(int_value("_", "_", "1 2"), None);
    assert_eq!(int_value("_", "_", "--1"), None);
}

#[test]
fn int_mp_value_skips_additional_cameras() {
    assert_eq!(int_mp_value("_", "_", "64Мп + 8Мп + 6Мп"), Some(64));
    assert_eq!(int_mp_value("_", "_", "20 Мп"), Some(20));
}

#[test]
fn pix_int_value_reads_resolutions() {
    assert_eq!(pix_int_value("_", "_", "4K"), Some(4000));
    assert_eq!(pix_int_value("_", "_", "4К"), Some(4000));
    assert_eq!(pix_int_value("_", "_", "720px"), Some(720));
    assert_eq!(pix_int_value("_", "_", "720p"), Some(720));
    assert_eq!(pix_int_value("_", "_", "1920x1080"), Some(1920));
    assert_eq!(pix_int_value("_", "_", "1080/720"), Some(1080));
}

#[test]
fn unit_parsers_cut_their_units() {
    assert_eq!(int_ma_h_value("_", "_", "5000 мАч"), Some(5000));
    assert_eq!(int_nit_value("_", "_", "450 нит"), Some(450));
    assert_eq!(int_max_memory_card_size_value("_", "_", "до 512 ГБ"), Some(512));
    assert_eq!(int_guarantee_value("_", "_", "12 месяцев"), Some(12));
    assert_eq!(int_guarantee_value("_", "_", "24 Месяцев."), Some(24));
    assert_eq!(int_hz_value("_", "_", "120 Гц"), Some(120));
    assert_eq!(int_fps_value("_", "_", "30 fps"), Some(30));
    assert_eq!(int_fps_value("_", "_", "60 кадров/с"), Some(60));
}

#[test]
fn int_memory_value_reads_gigabytes_only() {
    assert_eq!(int_memory_value("_", "_", "128 ГБ"), Some(128));
    assert_eq!(int_memory_value("_", "_", "до 256 ГБ"), Some(256));
    assert_eq!(int_memory_value("_", "_", "1 ТБ"), None);
    assert_eq!(int_memory_value("_", "_", "до 1ТБ"), None);
}

#[test]
fn multiple_int_value_skips_unreadable_pieces() {
    assert_eq!(multiple_int_value("_", "_", "1, 3, 7, 20"), vec![1, 3, 7, 20]);
    assert_eq!(multiple_int_value("_", "_", "1, x, 3,"), vec![1, 3]);
    assert_eq!(multiple_int_value("_", "_", ""), Vec::<i32>::new());
}

#[test]
fn bool_value_reads_yes_and_no() {
    assert_eq!(bool_value("_", "_", " Да "), Some(true));
    assert_eq!(bool_value("_", "_", "Нет"), Some(false));
    assert_eq!(bool_value("_", "_", "да"), None);
}

#[test]
fn string_value_trims() {
    assert_eq!(string_value("  Snapdragon 888\n"), "Snapdragon 888".to_string());
    assert_eq!(string_value("\u{a0}x\u{3000}"), "x".to_string());
}

#[test]
fn string_parsers_look_up_their_tables() {
    assert_eq!(string_media_format_value(" MP4 "), Some(MediaFormat::MP4));
    assert_eq!(string_media_format_value("AAC +"), Some(MediaFormat::AAC_plus));
    assert_eq!(string_media_format_value("HEVC"), Some(MediaFormat::H265));
    assert_eq!(string_media_format_value("AMR–NB"), Some(MediaFormat::AMR_NB));
    assert_eq!(string_media_format_value("VC-1"), Some(MediaFormat::VC1));
    assert_eq!(string_media_format_value("mp4"), None);
    assert_eq!(
        string_internet_connection_technology_value("4G"),
        Some(InternetConnectionTechnology::_4G)
    );
    assert_eq!(string_internet_connection_technology_value("LTE"), None);
    assert_eq!(string_satellite_navigation_value("ГЛОНАСС"), Some(SatelliteNavigation::GLONASS));
    assert_eq!(string_satellite_navigation_value("A-GPS"), Some(SatelliteNavigation::A_GPS));
    assert_eq!(string_wifi_standard_value(" ac"), Some(WifiStandard::_5));
    assert_eq!(string_wifi_standard_value("gc"), Some(WifiStandard::GC));
    assert_eq!(string_material_value("Керамика"), Some(Material::Ceramics));
    assert_eq!(string_sim_card_value("nano-SIM"), Some(SimCard::Nano));
    assert_eq!(string_sim_card_value("Nano-SIM"), None);
    assert_eq!(
        string_charging_connector_type_value("USB Type-C"),
        Some(ChargingConnectorType::USBTypeC)
    );
    assert_eq!(string_country_value("Китай"), Some(Country::China));
    assert_eq!(string_memory_card_slot_value("Отсутствует"), Some(MemoryCardSlot::Absent));
    assert_eq!(string_audio_jack_value("3.5"), Some(AudioJack::_3_5mm));
    assert_eq!(string_battery_type_value("Литий-ионный"), Some(BatteryType::LithiumIon));
    assert_eq!(string_display_type_value("AMOLED"), Some(DisplayType::Amoled));
    assert_eq!(string_display_type_value("LCD"), None);
}

#[test]
fn parsers_read_comma_separated_lists() {
    let context = CharacteristicParsingContext {
        title: "SIM-карта",
        external_id: "_",
        source: SourceName::MiShopCom,
    };
    assert_eq!(
        multiple_parse_and_capture(&context, "nano-SIM, eSIM, micro-SIM", &SimCardParser),
        vec![SimCard::Nano, SimCard::Micro]
    );
    assert_eq!(
        multiple_parse_and_capture(&context, "a, b, g, n, ac, ax", &WifiStandardParser),
        vec![
            WifiStandard::A,
            WifiStandard::B,
            WifiStandard::G,
            WifiStandard::_4,
            WifiStandard::_5,
            WifiStandard::_6
        ]
    );
    assert_eq!(parse_and_capture(&context, " mini-SIM ", &SimCardParser), Some(SimCard::Mini));
    assert_eq!(parse_and_capture(&context, "eSIM", &SimCardParser), None);
}
