//! The crawler of mi-shop.com: the pages it reads and the characteristics
//! that it reads from the table of a product page.
use vstd::prelude::*;
use crate::crawler::columns::{collect, largest_first, lemma_disjoint_selections, lemma_distinct_rows_removed, lemma_largest_first_order, lemma_select_none, lemma_shorter_column_stays_shorter, opt_seq, remove_in_turn, removals_fit, select, without_indexes};
use crate::crawler::media_format::{NO_DESCRIPTION_PATTERN, media_formats_of, multiple_string_media_format_value};
use crate::crawler::util::{CharacteristicParsingContext, multiple_parse_and_capture, multiple_reads, parse_and_capture, AudioJackParser, BatteryTypeParser, ChargingConnectorTypeParser, CountryParser, DisplayTypeParser, InternetConnectionTechnologyParser, MaterialParser, MemoryCardSlotParser, SatelliteNavigationParser, SimCardParser, WifiStandardParser};
use crate::crawler::util::bool_value_parser::{bool_text_value, bool_value};
use crate::crawler::util::int_value_parser::{fps_value, guarantee_value, hz_value, int_fps_value, int_guarantee_value, int_hz_value, int_ma_h_value, int_memory_value, int_mp_value, int_nit_value, int_text_value, int_value, ma_h_value, memory_value, mp_value, multiple_int_text_values, multiple_int_value, nit_value, pix_int_value, pix_value};
use crate::crawler::util::string_value_parser::{audio_jack_of, battery_type_of, charging_connector_type_of, country_of, display_type_of, memory_card_slot_of, string_value};
use crate::crawler::util::float_value_parser::{android_version_text, aperture_text, diagonal_text, float_android_version_text, float_aperture_text, float_diagonal_text, float_ghz_text, float_miui_version_text, float_number_text, float_value_text, frequency_in_mhz, frequency_text, miui_version_text};
use crate::db::entity::category::CategorySlug;
use crate::db::entity::source::SourceName;
use crate::dto::characteristic::float_characteristic::FloatCharacteristicKind;
use crate::my_enum::CurrencyEnum;
use crate::dto::characteristic::enum_characteristic::{EnumCharacteristic, MediaFormat, Technology};
use crate::dto::characteristic::int_characteristic::IntCharacteristic;
use crate::dto::characteristic::string_characteristic::{StringCharacteristic, StringCharacteristicView};
use crate::crawler::crawler::{ListedProduct, availability_of, description_of, extract_description, extract_image_urls, extract_page_description, image_urls_of, parse_availability, product_nodes_complete};
use crate::document::{first_attribute_of, has_match, opt_view, parts_of_items, parts_view, select_elements, selected_elements, selected_parts, settled, settled_opt, SelectedElement};
use crate::pattern::{find_first_match, regex_capture_texts, regex_first_match};
use crate::text::{contains, contains_text, first_piece, first_piece_text, replace_all, replace_text, text_eq, trim, trim_text};

verus! {

/// The address of the shop.
pub const SITE_BASE: &'static str = "https://mi-shop.com";

/// The paragraphs, headings and lists of a product description.
pub const DESCRIPTION_PATTERN: &'static str = "(?ms)<p>.*?</p>|<h2>.*?</h2>|<ul>.*?</ul>";

#[derive(Clone, Copy)]
pub struct MiShopComCrawler {}

/// A fractional characteristic found in the table: its row, its kind, the
/// text that its number is read from, and whether that number is in MHz.
pub struct FloatReading {
    pub row: usize,
    pub kind: FloatCharacteristicKind,
    pub text: String,
    pub in_mhz: bool,
}

/// The catalog sections that list the products of a category.
pub open spec fn catalog_sections(category: CategorySlug) -> Seq<Seq<char>> {
    match category {
        CategorySlug::Smartphone => seq!["smartphones"@],
        CategorySlug::SmartHome => seq![
            "smart_devices/umnyy-dom"@,
            "smart_devices/foto-video"@,
            "smart_devices/osveshchenie"@,
        ],
        CategorySlug::Headphones => seq!["audio"@],
        CategorySlug::Watches => seq!["smart_devices/umnye-chasy-i-braslety"@],
    }
}

/// The address of a page of a catalog section, with `{page}` standing for the
/// page number.
pub open spec fn catalog_page_url(section: Seq<char>) -> Seq<char> {
    SITE_BASE@ + "/ru/catalog/"@ + section + "/page/{page}/"@
}

/// The title of a product without the color information in parentheses.
pub open spec fn product_title(title_html: Seq<char>) -> Seq<char> {
    if contains(title_html, "("@) {
        trim(first_piece(title_html, "("@))
    } else {
        title_html
    }
}

/// The text that the price of a product is read from: the ruble sign and
/// spaces cut.
pub open spec fn product_price_text(price_html: Seq<char>) -> Seq<char> {
    trim(replace_all(replace_all(price_html, "₽"@, ""@), " "@, ""@))
}

/// The fractional characteristic that a row title names, with the text that
/// its number is read from and whether that number is in MHz.
pub open spec fn float_reading_of(t: Seq<char>, v: Seq<char>) -> Option<(FloatCharacteristicKind, Seq<char>, bool)> {
    if t == "Толщина (мм)"@ {
        Some((FloatCharacteristicKind::Thickness_mm, float_number_text(v), false))
    } else if t == "Апертура"@ {
        Some((FloatCharacteristicKind::Aperture, aperture_text(v), false))
    } else if t == "Ширина (мм)"@ {
        Some((FloatCharacteristicKind::Width_mm, float_number_text(v), false))
    } else if t == "Высота (мм)"@ {
        Some((FloatCharacteristicKind::Height_mm, float_number_text(v), false))
    } else if t == "Диагональ экрана"@ {
        Some((FloatCharacteristicKind::ScreenDiagonal, diagonal_text(v), false))
    } else if t == "Bluetooth"@ {
        Some((FloatCharacteristicKind::BluetoothVersion, float_number_text(v), false))
    } else if t == "Частота"@ {
        Some((FloatCharacteristicKind::CPUFrequency_Ghz, frequency_text(v), frequency_in_mhz(v)))
    } else if t == "Вес (г)"@ {
        Some((FloatCharacteristicKind::Weight_gr, float_number_text(v), false))
    } else if t == "Версия MIUI"@ {
        Some((FloatCharacteristicKind::MIUIVersion, miui_version_text(v), false))
    } else if t == "Версия Android"@ {
        Some((FloatCharacteristicKind::AndroidVersion, android_version_text(v), false))
    } else {
        None
    }
}

/// The readings of the rows whose title names a fractional characteristic,
/// in row order.
pub open spec fn float_readings_of(t: Seq<Seq<char>>, v: Seq<Seq<char>>) -> Seq<(usize, FloatCharacteristicKind, Seq<char>, bool)> {
    collect(
        t.len() as int,
        |i: int|
            match float_reading_of(t[i], v[i]) {
                Some(r) => seq![(i as usize, r.0, r.1, r.2)],
                None => seq![],
            },
    )
}

fn float_reading(title: &str, value: &str) -> (res: Option<(FloatCharacteristicKind, String, bool)>)
    ensures
        match res {
            Some(r) => float_reading_of(title@, value@) == Some((r.0, r.1@, r.2)),
            None => float_reading_of(title@, value@) is None,
        },
{
    if text_eq(title, "Толщина (мм)") {
        Some((FloatCharacteristicKind::Thickness_mm, float_value_text(value), false))
    } else if text_eq(title, "Апертура") {
        Some((FloatCharacteristicKind::Aperture, float_aperture_text(value), false))
    } else if text_eq(title, "Ширина (мм)") {
        Some((FloatCharacteristicKind::Width_mm, float_value_text(value), false))
    } else if text_eq(title, "Высота (мм)") {
        Some((FloatCharacteristicKind::Height_mm, float_value_text(value), false))
    } else if text_eq(title, "Диагональ экрана") {
        Some((FloatCharacteristicKind::ScreenDiagonal, float_diagonal_text(value), false))
    } else if text_eq(title, "Bluetooth") {
        Some((FloatCharacteristicKind::BluetoothVersion, float_value_text(value), false))
    } else if text_eq(title, "Частота") {
        let (text, in_mhz) = float_ghz_text(value);
        Some((FloatCharacteristicKind::CPUFrequency_Ghz, text, in_mhz))
    } else if text_eq(title, "Вес (г)") {
        Some((FloatCharacteristicKind::Weight_gr, float_value_text(value), false))
    } else if text_eq(title, "Версия MIUI") {
        Some((FloatCharacteristicKind::MIUIVersion, float_miui_version_text(value), false))
    } else if text_eq(title, "Версия Android") {
        Some((FloatCharacteristicKind::AndroidVersion, float_android_version_text(value), false))
    } else {
        None
    }
}

/// Titles of the rows that list several whole numbers.
pub open spec fn is_multi_int_title(t: Seq<char>) -> bool {
    t == "Диапазоны LTE"@ || t == "Диапазоны GSM"@ || t == "Диапазоны UMTS"@
}

/// The whole-number characteristics that a row listing several numbers gives.
pub open spec fn int_multi_of(t: Seq<char>, v: Seq<char>) -> Seq<IntCharacteristic> {
    if t == "Диапазоны LTE"@ {
        multiple_int_text_values(v).map_values(|x: i32| IntCharacteristic::LTEDiapason(x))
    } else if t == "Диапазоны GSM"@ {
        multiple_int_text_values(v).map_values(|x: i32| IntCharacteristic::GSMDiapason(x))
    } else if t == "Диапазоны UMTS"@ {
        multiple_int_text_values(v).map_values(|x: i32| IntCharacteristic::UMTSDiapason(x))
    } else {
        seq![]
    }
}

/// The whole-number characteristic that a row of one number gives.
pub open spec fn int_single_of(t: Seq<char>, v: Seq<char>) -> Option<IntCharacteristic> {
    if t == "Количество ядер процессора"@ {
        match int_text_value(v) {
            Some(x) => Some(IntCharacteristic::NumberOfProcessorCores(x)),
            None => None,
        }
    } else if t == "Гарантия (мес)"@ {
        match guarantee_value(v) {
            Some(x) => Some(IntCharacteristic::Warranty_month(x)),
            None => None,
        }
    } else if t == "Встроенная память (ГБ)"@ {
        match int_text_value(v) {
            Some(x) => Some(IntCharacteristic::BuiltInMemory_GB(x)),
            None => None,
        }
    } else if t == "Оперативная память (ГБ)"@ {
        match int_text_value(v) {
            Some(x) => Some(IntCharacteristic::Ram_GB(x)),
            None => None,
        }
    } else if t == "Фронтальная камера (Мп)"@ {
        match mp_value(v) {
            Some(x) => Some(IntCharacteristic::FrontCamera_MP(x)),
            None => None,
        }
    } else if t == "Разрешение видеосъемки (пикс)"@ {
        match pix_value(v) {
            Some(x) => Some(IntCharacteristic::VideoResolution_Pix(x)),
            None => None,
        }
    } else if t == "Емкость аккумулятора (мА*ч)"@ {
        match ma_h_value(v) {
            Some(x) => Some(IntCharacteristic::BatteryCapacity_mA_h(x)),
            None => None,
        }
    } else if t == "Кол-во SIM-карт"@ {
        match int_text_value(v) {
            Some(x) => Some(IntCharacteristic::AmountOfSimCards(x)),
            None => None,
        }
    } else if t == "Частота кадров видеосъемки"@ {
        match fps_value(v) {
            Some(x) => Some(IntCharacteristic::Fps(x)),
            None => None,
        }
    } else if t == "Плотность пикселей (PPI)"@ {
        match int_text_value(v) {
            Some(x) => Some(IntCharacteristic::PPI(x)),
            None => None,
        }
    } else if t == "Максимальный объем карты памяти"@ {
        match memory_value(v) {
            Some(x) => Some(IntCharacteristic::MaxMemoryCardSize_GB(x)),
            None => None,
        }
    } else if t == "Яркость (кд/м²)"@ {
        match nit_value(v) {
            Some(x) => Some(IntCharacteristic::Brightness_cd_m2(x)),
            None => None,
        }
    } else if t == "Частота обновления"@ {
        match hz_value(v) {
            Some(x) => Some(IntCharacteristic::UpdateFrequency_Hz(x)),
            None => None,
        }
    } else if t == "Фотокамера (Мп)"@ {
        match mp_value(v) {
            Some(x) => Some(IntCharacteristic::Camera_mp(x)),
            None => None,
        }
    } else {
        None
    }
}

/// The whole-number characteristics of the table: first those of the rows
/// listing several numbers, then those of the rows of one number, each in
/// row order.
pub open spec fn int_characteristics_of(t: Seq<Seq<char>>, v: Seq<Seq<char>>) -> Seq<IntCharacteristic> {
    collect(t.len() as int, |i: int| int_multi_of(t[i], v[i])) + collect(
        t.len() as int,
        |i: int| opt_seq(int_single_of(t[i], v[i])),
    )
}

/// The rows read as whole numbers: every row listing several numbers, then
/// every row of one number that read.
pub open spec fn int_parsed_rows(t: Seq<Seq<char>>, v: Seq<Seq<char>>) -> Seq<usize> {
    select(t.len() as int, |i: int| is_multi_int_title(t[i])) + select(
        t.len() as int,
        |i: int| int_single_of(t[i], v[i]) is Some,
    )
}

/// The technology that a row title asks about.
pub open spec fn technology_title_of(t: Seq<char>) -> Option<Technology> {
    if t == "NFC"@ {
        Some(Technology::NFC)
    } else if t == "Автофокус"@ {
        Some(Technology::Autofocus)
    } else if t == "Быстрая зарядка"@ {
        Some(Technology::FastCharging)
    } else if t == "ИК-порт"@ {
        Some(Technology::InfraredPort)
    } else if t == "Беспроводная зарядка"@ {
        Some(Technology::WirelessCharger)
    } else {
        None
    }
}

/// The supported technology that a row gives: its title names one and its
/// value reads as yes.
pub open spec fn technology_of(t: Seq<char>, v: Seq<char>) -> Option<EnumCharacteristic> {
    match technology_title_of(t) {
        Some(x) => if bool_text_value(trim(v)) == Some(true) {
            Some(EnumCharacteristic::TechnologySupport(x))
        } else {
            None
        },
        None => None,
    }
}

pub open spec fn technology_characteristics_of(t: Seq<Seq<char>>, v: Seq<Seq<char>>) -> Seq<EnumCharacteristic> {
    collect(t.len() as int, |i: int| opt_seq(technology_of(t[i], v[i])))
}

/// The rows whose title names a technology, whatever their value.
pub open spec fn technology_rows(t: Seq<Seq<char>>) -> Seq<usize> {
    select(t.len() as int, |i: int| technology_title_of(t[i]) is Some)
}

/// The text characteristic that a row gives.
pub open spec fn string_of(t: Seq<char>, v: Seq<char>) -> Option<StringCharacteristicView> {
    if t == "Процессор"@ {
        Some(StringCharacteristicView::Processor(trim(v)))
    } else if t == "Модель"@ {
        Some(StringCharacteristicView::Model(trim(v)))
    } else if t == "Контрастность"@ {
        Some(StringCharacteristicView::Contrast(trim(v)))
    } else if t == "Соотношение сторон"@ {
        Some(StringCharacteristicView::AspectRatio(trim(v)))
    } else if t == "Разрешение дисплея"@ {
        Some(StringCharacteristicView::DisplayResolution(trim(v)))
    } else if t == "Видеопроцессор"@ {
        Some(StringCharacteristicView::VideoProcessor(trim(v)))
    } else {
        None
    }
}

pub open spec fn string_characteristics_of(t: Seq<Seq<char>>, v: Seq<Seq<char>>) -> Seq<StringCharacteristicView> {
    collect(t.len() as int, |i: int| opt_seq(string_of(t[i], v[i])))
}

pub open spec fn string_rows(t: Seq<Seq<char>>, v: Seq<Seq<char>>) -> Seq<usize> {
    select(t.len() as int, |i: int| string_of(t[i], v[i]) is Some)
}

/// Titles of the rows that list several variants.
pub open spec fn is_multi_enum_title(t: Seq<char>) -> bool {
    t == "SIM-карта"@ || t == "Поддерживаемые медиа форматы"@ || t == "Интернет"@ || t == "Спутниковая навигация"@ || t == "Wi-Fi (802.11)"@ || t == "Материал"@
}

/// The characteristics that a row listing several variants gives.
pub open spec fn enum_multi_of(t: Seq<char>, v: Seq<char>) -> Seq<EnumCharacteristic> {
    if t == "SIM-карта"@ {
        multiple_reads(&SimCardParser, v).map_values(|x: crate::dto::characteristic::enum_characteristic::SimCard| EnumCharacteristic::SimCard(x))
    } else if t == "Поддерживаемые медиа форматы"@ {
        media_formats_of(v).map_values(|x: MediaFormat| EnumCharacteristic::SupportedMediaFormat(x))
    } else if t == "Интернет"@ {
        multiple_reads(&InternetConnectionTechnologyParser, v).map_values(|x: crate::dto::characteristic::enum_characteristic::InternetConnectionTechnology| EnumCharacteristic::InternetConnectionTechnology(x))
    } else if t == "Спутниковая навигация"@ {
        multiple_reads(&SatelliteNavigationParser, v).map_values(|x: crate::dto::characteristic::enum_characteristic::SatelliteNavigation| EnumCharacteristic::SatelliteNavigation(x))
    } else if t == "Wi-Fi (802.11)"@ {
        multiple_reads(&WifiStandardParser, v).map_values(|x: crate::dto::characteristic::enum_characteristic::WifiStandard| EnumCharacteristic::WifiStandard(x))
    } else if t == "Материал"@ {
        multiple_reads(&MaterialParser, v).map_values(|x: crate::dto::characteristic::enum_characteristic::Material| EnumCharacteristic::Material(x))
    } else {
        seq![]
    }
}

/// The characteristic that a row of one variant gives.
pub open spec fn enum_single_of(t: Seq<char>, v: Seq<char>) -> Option<EnumCharacteristic> {
    if t == "Тип разъема для зарядки"@ {
        match charging_connector_type_of(trim(v)) {
            Some(x) => Some(EnumCharacteristic::ChargingConnectorType(x)),
            None => None,
        }
    } else if t == "Слот для карты памяти"@ {
        match memory_card_slot_of(trim(v)) {
            Some(x) => Some(EnumCharacteristic::MemoryCardSlot(x)),
            None => None,
        }
    } else if t == "Страна производитель"@ {
        match country_of(trim(v)) {
            Some(x) => Some(EnumCharacteristic::ProducingCountry(x)),
            None => None,
        }
    } else if t == "Аудиоразъем"@ || t == "Вход аудио"@ {
        match regex_first_match(NO_DESCRIPTION_PATTERN@, v) {
            Some(m) => match audio_jack_of(trim(m)) {
                Some(x) => Some(EnumCharacteristic::AudioJack(x)),
                None => None,
            },
            None => None,
        }
    } else if t == "Аккумулятор"@ {
        match battery_type_of(trim(v)) {
            Some(x) => Some(EnumCharacteristic::BatteryType(x)),
            None => None,
        }
    } else if t == "Тип дисплея"@ {
        match display_type_of(trim(v)) {
            Some(x) => Some(EnumCharacteristic::DisplayType(x)),
            None => None,
        }
    } else {
        None
    }
}

pub open spec fn enum_characteristics_of(t: Seq<Seq<char>>, v: Seq<Seq<char>>) -> Seq<EnumCharacteristic> {
    collect(t.len() as int, |i: int| enum_multi_of(t[i], v[i])) + collect(
        t.len() as int,
        |i: int| opt_seq(enum_single_of(t[i], v[i])),
    )
}

pub open spec fn enum_parsed_rows(t: Seq<Seq<char>>, v: Seq<Seq<char>>) -> Seq<usize> {
    select(t.len() as int, |i: int| is_multi_enum_title(t[i])) + select(
        t.len() as int,
        |i: int| enum_single_of(t[i], v[i]) is Some,
    )
}

/// Titles of the rows that are read as nothing.
pub open spec fn is_unneeded_title(t: Seq<char>) -> bool {
    t == "Видеозапись"@ || t == "Сенсорный дисплей"@ || t == "Примечание"@ || t == "Видеоплеер"@ || t == "Аудиоплеер"@
}

pub open spec fn unneeded_rows(t: Seq<Seq<char>>) -> Seq<usize> {
    select(t.len() as int, |i: int| is_unneeded_title(t[i]))
}

fn int_multi_characteristics(title: &str, external_id: &str, value: &str) -> (res: Vec<IntCharacteristic>)
    ensures
        res@ == int_multi_of(title@, value@),
{
    if text_eq(title, "Диапазоны LTE") {
        let xs = multiple_int_value(title, external_id, value);
        let mut res: Vec<IntCharacteristic> = Vec::new();
        let mut k: usize = 0;
        while k < xs.len()
            invariant
                k <= xs.len(),
                res@ == xs@.take(k as int).map_values(|x: i32| IntCharacteristic::LTEDiapason(x)),
            decreases xs.len() - k,
        {
            res.push(IntCharacteristic::LTEDiapason(xs[k]));
            proof {
                assert(xs@.take(k + 1).map_values(|x: i32| IntCharacteristic::LTEDiapason(x)) =~= xs@.take(k as int).map_values(|x: i32| IntCharacteristic::LTEDiapason(x)).push(IntCharacteristic::LTEDiapason(xs@[k as int])));
            }
            k = k + 1;
        }
        proof {
            assert(xs@.take(xs.len() as int) =~= xs@);
        }
        res
    } else if text_eq(title, "Диапазоны GSM") {
        let xs = multiple_int_value(title, external_id, value);
        let mut res: Vec<IntCharacteristic> = Vec::new();
        let mut k: usize = 0;
        while k < xs.len()
            invariant
                k <= xs.len(),
                res@ == xs@.take(k as int).map_values(|x: i32| IntCharacteristic::GSMDiapason(x)),
            decreases xs.len() - k,
        {
            res.push(IntCharacteristic::GSMDiapason(xs[k]));
            proof {
                assert(xs@.take(k + 1).map_values(|x: i32| IntCharacteristic::GSMDiapason(x)) =~= xs@.take(k as int).map_values(|x: i32| IntCharacteristic::GSMDiapason(x)).push(IntCharacteristic::GSMDiapason(xs@[k as int])));
            }
            k = k + 1;
        }
        proof {
            assert(xs@.take(xs.len() as int) =~= xs@);
        }
        res
    } else if text_eq(title, "Диапазоны UMTS") {
        let xs = multiple_int_value(title, external_id, value);
        let mut res: Vec<IntCharacteristic> = Vec::new();
        let mut k: usize = 0;
        while k < xs.len()
            invariant
                k <= xs.len(),
                res@ == xs@.take(k as int).map_values(|x: i32| IntCharacteristic::UMTSDiapason(x)),
            decreases xs.len() - k,
        {
            res.push(IntCharacteristic::UMTSDiapason(xs[k]));
            proof {
                assert(xs@.take(k + 1).map_values(|x: i32| IntCharacteristic::UMTSDiapason(x)) =~= xs@.take(k as int).map_values(|x: i32| IntCharacteristic::UMTSDiapason(x)).push(IntCharacteristic::UMTSDiapason(xs@[k as int])));
            }
            k = k + 1;
        }
        proof {
            assert(xs@.take(xs.len() as int) =~= xs@);
        }
        res
    } else {
        Vec::new()
    }
}

fn int_single_characteristic(title: &str, external_id: &str, value: &str) -> (res: Option<IntCharacteristic>)
    ensures
        res == int_single_of(title@, value@),
{
    if text_eq(title, "Количество ядер процессора") {
        match int_value(title, external_id, value) {
            Some(x) => Some(IntCharacteristic::NumberOfProcessorCores(x)),
            None => None,
        }
    } else if text_eq(title, "Гарантия (мес)") {
        match int_guarantee_value(title, external_id, value) {
            Some(x) => Some(IntCharacteristic::Warranty_month(x)),
            None => None,
        }
    } else if text_eq(title, "Встроенная память (ГБ)") {
        match int_value(title, external_id, value) {
            Some(x) => Some(IntCharacteristic::BuiltInMemory_GB(x)),
            None => None,
        }
    } else if text_eq(title, "Оперативная память (ГБ)") {
        match int_value(title, external_id, value) {
            Some(x) => Some(IntCharacteristic::Ram_GB(x)),
            None => None,
        }
    } else if text_eq(title, "Фронтальная камера (Мп)") {
        match int_mp_value(title, external_id, value) {
            Some(x) => Some(IntCharacteristic::FrontCamera_MP(x)),
            None => None,
        }
    } else if text_eq(title, "Разрешение видеосъемки (пикс)") {
        match pix_int_value(title, external_id, value) {
            Some(x) => Some(IntCharacteristic::VideoResolution_Pix(x)),
            None => None,
        }
    } else if text_eq(title, "Емкость аккумулятора (мА*ч)") {
        match int_ma_h_value(title, external_id, value) {
            Some(x) => Some(IntCharacteristic::BatteryCapacity_mA_h(x)),
            None => None,
        }
    } else if text_eq(title, "Кол-во SIM-карт") {
        match int_value(title, external_id, value) {
            Some(x) => Some(IntCharacteristic::AmountOfSimCards(x)),
            None => None,
        }
    } else if text_eq(title, "Частота кадров видеосъемки") {
        match int_fps_value(title, external_id, value) {
            Some(x) => Some(IntCharacteristic::Fps(x)),
            None => None,
        }
    } else if text_eq(title, "Плотность пикселей (PPI)") {
        match int_value(title, external_id, value) {
            Some(x) => Some(IntCharacteristic::PPI(x)),
            None => None,
        }
    } else if text_eq(title, "Максимальный объем карты памяти") {
        match int_memory_value(title, external_id, value) {
            Some(x) => Some(IntCharacteristic::MaxMemoryCardSize_GB(x)),
            None => None,
        }
    } else if text_eq(title, "Яркость (кд/м²)") {
        match int_nit_value(title, external_id, value) {
            Some(x) => Some(IntCharacteristic::Brightness_cd_m2(x)),
            None => None,
        }
    } else if text_eq(title, "Частота обновления") {
        match int_hz_value(title, external_id, value) {
            Some(x) => Some(IntCharacteristic::UpdateFrequency_Hz(x)),
            None => None,
        }
    } else if text_eq(title, "Фотокамера (Мп)") {
        match int_mp_value(title, external_id, value) {
            Some(x) => Some(IntCharacteristic::Camera_mp(x)),
            None => None,
        }
    } else {
        None
    }
}

fn technology_characteristic(title: &str, external_id: &str, value: &str) -> (res: (bool, Option<EnumCharacteristic>))
    ensures
        res.0 == technology_title_of(title@) is Some,
        res.1 == technology_of(title@, value@),
{
    if text_eq(title, "NFC") {
        match bool_value(title, external_id, value) {
            Some(true) => (true, Some(EnumCharacteristic::TechnologySupport(Technology::NFC))),
            _ => (true, None),
        }
    } else if text_eq(title, "Автофокус") {
        match bool_value(title, external_id, value) {
            Some(true) => (true, Some(EnumCharacteristic::TechnologySupport(Technology::Autofocus))),
            _ => (true, None),
        }
    } else if text_eq(title, "Быстрая зарядка") {
        match bool_value(title, external_id, value) {
            Some(true) => (true, Some(EnumCharacteristic::TechnologySupport(Technology::FastCharging))),
            _ => (true, None),
        }
    } else if text_eq(title, "ИК-порт") {
        match bool_value(title, external_id, value) {
            Some(true) => (true, Some(EnumCharacteristic::TechnologySupport(Technology::InfraredPort))),
            _ => (true, None),
        }
    } else if text_eq(title, "Беспроводная зарядка") {
        match bool_value(title, external_id, value) {
            Some(true) => (true, Some(EnumCharacteristic::TechnologySupport(Technology::WirelessCharger))),
            _ => (true, None),
        }
    } else {
        (false, None)
    }
}

fn string_characteristic(title: &str, value: &str) -> (res: Option<StringCharacteristic>)
    ensures
        match res {
            Some(c) => string_of(title@, value@) == Some(c@),
            None => string_of(title@, value@) is None,
        },
{
    if text_eq(title, "Процессор") {
        Some(StringCharacteristic::Processor(string_value(value)))
    } else if text_eq(title, "Модель") {
        Some(StringCharacteristic::Model(string_value(value)))
    } else if text_eq(title, "Контрастность") {
        Some(StringCharacteristic::Contrast(string_value(value)))
    } else if text_eq(title, "Соотношение сторон") {
        Some(StringCharacteristic::AspectRatio(string_value(value)))
    } else if text_eq(title, "Разрешение дисплея") {
        Some(StringCharacteristic::DisplayResolution(string_value(value)))
    } else if text_eq(title, "Видеопроцессор") {
        Some(StringCharacteristic::VideoProcessor(string_value(value)))
    } else {
        None
    }
}

fn enum_multi_characteristics(context: &CharacteristicParsingContext, value: &str) -> (res: Vec<EnumCharacteristic>)
    ensures
        res@ == enum_multi_of(context.title@, value@),
{
    let title = context.title;
    if text_eq(title, "SIM-карта") {
        let xs = multiple_parse_and_capture(context, value, &SimCardParser);
        let mut res: Vec<EnumCharacteristic> = Vec::new();
        let mut k: usize = 0;
        while k < xs.len()
            invariant
                k <= xs.len(),
                res@ == xs@.take(k as int).map_values(|x: crate::dto::characteristic::enum_characteristic::SimCard| EnumCharacteristic::SimCard(x)),
            decreases xs.len() - k,
        {
            res.push(EnumCharacteristic::SimCard(xs[k]));
            proof {
                assert(xs@.take(k + 1).map_values(|x: crate::dto::characteristic::enum_characteristic::SimCard| EnumCharacteristic::SimCard(x)) =~= xs@.take(k as int).map_values(|x: crate::dto::characteristic::enum_characteristic::SimCard| EnumCharacteristic::SimCard(x)).push(EnumCharacteristic::SimCard(xs@[k as int])));
            }
            k = k + 1;
        }
        proof {
            assert(xs@.take(xs.len() as int) =~= xs@);
        }
        res
    } else if text_eq(title, "Поддерживаемые медиа форматы") {
        let xs = multiple_string_media_format_value(title, context.external_id, value);
        let mut res: Vec<EnumCharacteristic> = Vec::new();
        let mut k: usize = 0;
        while k < xs.len()
            invariant
                k <= xs.len(),
                res@ == xs@.take(k as int).map_values(|x: crate::dto::characteristic::enum_characteristic::MediaFormat| EnumCharacteristic::SupportedMediaFormat(x)),
            decreases xs.len() - k,
        {
            res.push(EnumCharacteristic::SupportedMediaFormat(xs[k]));
            proof {
                assert(xs@.take(k + 1).map_values(|x: crate::dto::characteristic::enum_characteristic::MediaFormat| EnumCharacteristic::SupportedMediaFormat(x)) =~= xs@.take(k as int).map_values(|x: crate::dto::characteristic::enum_characteristic::MediaFormat| EnumCharacteristic::SupportedMediaFormat(x)).push(EnumCharacteristic::SupportedMediaFormat(xs@[k as int])));
            }
            k = k + 1;
        }
        proof {
            assert(xs@.take(xs.len() as int) =~= xs@);
        }
        res
    } else if text_eq(title, "Интернет") {
        let xs = multiple_parse_and_capture(context, value, &InternetConnectionTechnologyParser);
        let mut res: Vec<EnumCharacteristic> = Vec::new();
        let mut k: usize = 0;
        while k < xs.len()
            invariant
                k <= xs.len(),
                res@ == xs@.take(k as int).map_values(|x: crate::dto::characteristic::enum_characteristic::InternetConnectionTechnology| EnumCharacteristic::InternetConnectionTechnology(x)),
            decreases xs.len() - k,
        {
            res.push(EnumCharacteristic::InternetConnectionTechnology(xs[k]));
            proof {
                assert(xs@.take(k + 1).map_values(|x: crate::dto::characteristic::enum_characteristic::InternetConnectionTechnology| EnumCharacteristic::InternetConnectionTechnology(x)) =~= xs@.take(k as int).map_values(|x: crate::dto::characteristic::enum_characteristic::InternetConnectionTechnology| EnumCharacteristic::InternetConnectionTechnology(x)).push(EnumCharacteristic::InternetConnectionTechnology(xs@[k as int])));
            }
            k = k + 1;
        }
        proof {
            assert(xs@.take(xs.len() as int) =~= xs@);
        }
        res
    } else if text_eq(title, "Спутниковая навигация") {
        let xs = multiple_parse_and_capture(context, value, &SatelliteNavigationParser);
        let mut res: Vec<EnumCharacteristic> = Vec::new();
        let mut k: usize = 0;
        while k < xs.len()
            invariant
                k <= xs.len(),
                res@ == xs@.take(k as int).map_values(|x: crate::dto::characteristic::enum_characteristic::SatelliteNavigation| EnumCharacteristic::SatelliteNavigation(x)),
            decreases xs.len() - k,
        {
            res.push(EnumCharacteristic::SatelliteNavigation(xs[k]));
            proof {
                assert(xs@.take(k + 1).map_values(|x: crate::dto::characteristic::enum_characteristic::SatelliteNavigation| EnumCharacteristic::SatelliteNavigation(x)) =~= xs@.take(k as int).map_values(|x: crate::dto::characteristic::enum_characteristic::SatelliteNavigation| EnumCharacteristic::SatelliteNavigation(x)).push(EnumCharacteristic::SatelliteNavigation(xs@[k as int])));
            }
            k = k + 1;
        }
        proof {
            assert(xs@.take(xs.len() as int) =~= xs@);
        }
        res
    } else if text_eq(title, "Wi-Fi (802.11)") {
        let xs = multiple_parse_and_capture(context, value, &WifiStandardParser);
        let mut res: Vec<EnumCharacteristic> = Vec::new();
        let mut k: usize = 0;
        while k < xs.len()
            invariant
                k <= xs.len(),
                res@ == xs@.take(k as int).map_values(|x: crate::dto::characteristic::enum_characteristic::WifiStandard| EnumCharacteristic::WifiStandard(x)),
            decreases xs.len() - k,
        {
            res.push(EnumCharacteristic::WifiStandard(xs[k]));
            proof {
                assert(xs@.take(k + 1).map_values(|x: crate::dto::characteristic::enum_characteristic::WifiStandard| EnumCharacteristic::WifiStandard(x)) =~= xs@.take(k as int).map_values(|x: crate::dto::characteristic::enum_characteristic::WifiStandard| EnumCharacteristic::WifiStandard(x)).push(EnumCharacteristic::WifiStandard(xs@[k as int])));
            }
            k = k + 1;
        }
        proof {
            assert(xs@.take(xs.len() as int) =~= xs@);
        }
        res
    } else if text_eq(title, "Материал") {
        let xs = multiple_parse_and_capture(context, value, &MaterialParser);
        let mut res: Vec<EnumCharacteristic> = Vec::new();
        let mut k: usize = 0;
        while k < xs.len()
            invariant
                k <= xs.len(),
                res@ == xs@.take(k as int).map_values(|x: crate::dto::characteristic::enum_characteristic::Material| EnumCharacteristic::Material(x)),
            decreases xs.len() - k,
        {
            res.push(EnumCharacteristic::Material(xs[k]));
            proof {
                assert(xs@.take(k + 1).map_values(|x: crate::dto::characteristic::enum_characteristic::Material| EnumCharacteristic::Material(x)) =~= xs@.take(k as int).map_values(|x: crate::dto::characteristic::enum_characteristic::Material| EnumCharacteristic::Material(x)).push(EnumCharacteristic::Material(xs@[k as int])));
            }
            k = k + 1;
        }
        proof {
            assert(xs@.take(xs.len() as int) =~= xs@);
        }
        res
    } else {
        Vec::new()
    }
}

fn enum_single_characteristic(context: &CharacteristicParsingContext, value: &str) -> (res: Option<EnumCharacteristic>)
    ensures
        res == enum_single_of(context.title@, value@),
{
    let title = context.title;
    if text_eq(title, "Тип разъема для зарядки") {
        match parse_and_capture(context, value, &ChargingConnectorTypeParser) {
            Some(x) => Some(EnumCharacteristic::ChargingConnectorType(x)),
            None => None,
        }
    } else if text_eq(title, "Слот для карты памяти") {
        match parse_and_capture(context, value, &MemoryCardSlotParser) {
            Some(x) => Some(EnumCharacteristic::MemoryCardSlot(x)),
            None => None,
        }
    } else if text_eq(title, "Страна производитель") {
        match parse_and_capture(context, value, &CountryParser) {
            Some(x) => Some(EnumCharacteristic::ProducingCountry(x)),
            None => None,
        }
    } else if text_eq(title, "Аудиоразъем") || text_eq(title, "Вход аудио") {
        match find_first_match(NO_DESCRIPTION_PATTERN, value) {
            Some(m) => match parse_and_capture(context, m.as_str(), &AudioJackParser) {
                Some(x) => Some(EnumCharacteristic::AudioJack(x)),
                None => None,
            },
            None => None,
        }
    } else if text_eq(title, "Аккумулятор") {
        match parse_and_capture(context, value, &BatteryTypeParser) {
            Some(x) => Some(EnumCharacteristic::BatteryType(x)),
            None => None,
        }
    } else if text_eq(title, "Тип дисплея") {
        match parse_and_capture(context, value, &DisplayTypeParser) {
            Some(x) => Some(EnumCharacteristic::DisplayType(x)),
            None => None,
        }
    } else {
        None
    }
}

fn is_unneeded_title_text(title: &str) -> (res: bool)
    ensures
        res == is_unneeded_title(title@),
{
    text_eq(title, "Видеозапись") || text_eq(title, "Сенсорный дисплей") || text_eq(title, "Примечание") || text_eq(title, "Видеоплеер") || text_eq(title, "Аудиоплеер")
}

fn is_multi_int_title_text(title: &str) -> (res: bool)
    ensures
        res == is_multi_int_title(title@),
{
    text_eq(title, "Диапазоны LTE") || text_eq(title, "Диапазоны GSM") || text_eq(
        title,
        "Диапазоны UMTS",
    )
}

fn is_multi_enum_title_text(title: &str) -> (res: bool)
    ensures
        res == is_multi_enum_title(title@),
{
    text_eq(title, "SIM-карта") || text_eq(title, "Поддерживаемые медиа форматы") || text_eq(
        title,
        "Интернет",
    ) || text_eq(title, "Спутниковая навигация") || text_eq(title, "Wi-Fi (802.11)") || text_eq(
        title,
        "Материал",
    )
}

/// Orders `v` from the largest element down.
fn sort_descending(v: &mut Vec<usize>)
    ensures
        final(v)@.to_multiset() == old(v)@.to_multiset(),
        vstd::relations::sorted_by(final(v)@, |a: usize, b: usize| a >= b),
{
    broadcast use vstd::seq_lib::group_to_multiset_ensures;

    let ghost orig = v@;
    let mut res: Vec<usize> = Vec::new();
    let mut i: usize = 0;
    while i < v.len()
        invariant
            v@ == orig,
            i <= v.len(),
            res@.to_multiset() == orig.take(i as int).to_multiset(),
            forall|a: int, b: int| 0 <= a < b < res@.len() ==> #[trigger] res@[a] >= #[trigger] res@[b],
        decreases v.len() - i,
    {
        let x = v[i];
        let mut p: usize = 0;
        while p < res.len() && res[p] >= x
            invariant
                p <= res.len(),
                forall|k: int| 0 <= k < p ==> res@[k] >= x,
            decreases res.len() - p,
        {
            p = p + 1;
        }
        let ghost before = res@;
        res.insert(p, x);
        proof {
            before.insert_ensures(p as int, x);
            assert(res@ == before.insert(p as int, x));
            assert forall|a: int, b: int| 0 <= a < b < res@.len() implies #[trigger] res@[a] >= #[trigger] res@[b] by {
                if a < p {
                    assert(res@[a] == before[a]);
                    if b > p {
                        assert(res@[b] == before[b - 1]);
                    }
                } else if a == p {
                    assert(res@[b] == before[b - 1]);
                    assert(p < before.len());
                    assert(!(before[p as int] >= x));
                    if b - 1 > p {
                        assert(before[p as int] >= before[b - 1]);
                    }
                } else {
                    assert(res@[a] == before[a - 1]);
                    assert(res@[b] == before[b - 1]);
                }
            }
            assert(orig.take(i + 1) =~= orig.take(i as int).push(x));
            vstd::seq_lib::to_multiset_insert(before, p as int, x);
            vstd::seq_lib::to_multiset_build(orig.take(i as int), x);
        }
        i = i + 1;
    }
    proof {
        assert(orig.take(v.len() as int) =~= orig);
    }
    *v = res;
}


/// Each title of a row of one number gives the characteristic it names,
/// holding the number that the title's reader finds in the value, and
/// nothing where the reader finds none.
pub proof fn lemma_int_title_table(v: Seq<char>, c: IntCharacteristic)
    ensures
        int_single_of("Количество ядер процессора"@, v) == Some(c) <==> (c matches IntCharacteristic::NumberOfProcessorCores(n) && int_text_value(v) == Some(n)),
        int_single_of("Гарантия (мес)"@, v) == Some(c) <==> (c matches IntCharacteristic::Warranty_month(n) && guarantee_value(v) == Some(n)),
        int_single_of("Встроенная память (ГБ)"@, v) == Some(c) <==> (c matches IntCharacteristic::BuiltInMemory_GB(n) && int_text_value(v) == Some(n)),
        int_single_of("Оперативная память (ГБ)"@, v) == Some(c) <==> (c matches IntCharacteristic::Ram_GB(n) && int_text_value(v) == Some(n)),
        int_single_of("Фронтальная камера (Мп)"@, v) == Some(c) <==> (c matches IntCharacteristic::FrontCamera_MP(n) && mp_value(v) == Some(n)),
        int_single_of("Разрешение видеосъемки (пикс)"@, v) == Some(c) <==> (c matches IntCharacteristic::VideoResolution_Pix(n) && pix_value(v) == Some(n)),
        int_single_of("Емкость аккумулятора (мА*ч)"@, v) == Some(c) <==> (c matches IntCharacteristic::BatteryCapacity_mA_h(n) && ma_h_value(v) == Some(n)),
        int_single_of("Кол-во SIM-карт"@, v) == Some(c) <==> (c matches IntCharacteristic::AmountOfSimCards(n) && int_text_value(v) == Some(n)),
        int_single_of("Частота кадров видеосъемки"@, v) == Some(c) <==> (c matches IntCharacteristic::Fps(n) && fps_value(v) == Some(n)),
        int_single_of("Плотность пикселей (PPI)"@, v) == Some(c) <==> (c matches IntCharacteristic::PPI(n) && int_text_value(v) == Some(n)),
        int_single_of("Максимальный объем карты памяти"@, v) == Some(c) <==> (c matches IntCharacteristic::MaxMemoryCardSize_GB(n) && memory_value(v) == Some(n)),
        int_single_of("Яркость (кд/м²)"@, v) == Some(c) <==> (c matches IntCharacteristic::Brightness_cd_m2(n) && nit_value(v) == Some(n)),
        int_single_of("Частота обновления"@, v) == Some(c) <==> (c matches IntCharacteristic::UpdateFrequency_Hz(n) && hz_value(v) == Some(n)),
        int_single_of("Фотокамера (Мп)"@, v) == Some(c) <==> (c matches IntCharacteristic::Camera_mp(n) && mp_value(v) == Some(n)),
{
    reveal_strlit("Количество ядер процессора");
    reveal_strlit("Гарантия (мес)");
    reveal_strlit("Встроенная память (ГБ)");
    reveal_strlit("Оперативная память (ГБ)");
    reveal_strlit("Фронтальная камера (Мп)");
    reveal_strlit("Разрешение видеосъемки (пикс)");
    reveal_strlit("Емкость аккумулятора (мА*ч)");
    reveal_strlit("Кол-во SIM-карт");
    reveal_strlit("Частота кадров видеосъемки");
    reveal_strlit("Плотность пикселей (PPI)");
    reveal_strlit("Максимальный объем карты памяти");
    reveal_strlit("Яркость (кд/м²)");
    reveal_strlit("Частота обновления");
    reveal_strlit("Фотокамера (Мп)");
    assert("Количество ядер процессора"@.len() != "Гарантия (мес)"@.len());
    assert("Количество ядер процессора"@.len() != "Встроенная память (ГБ)"@.len());
    assert("Количество ядер процессора"@.len() != "Оперативная память (ГБ)"@.len());
    assert("Количество ядер процессора"@.len() != "Фронтальная камера (Мп)"@.len());
    assert("Количество ядер процессора"@.len() != "Разрешение видеосъемки (пикс)"@.len());
    assert("Количество ядер процессора"@.len() != "Емкость аккумулятора (мА*ч)"@.len());
    assert("Количество ядер процессора"@.len() != "Кол-во SIM-карт"@.len());
    assert("Количество ядер процессора"@[0] != "Частота кадров видеосъемки"@[0]);
    assert("Количество ядер процессора"@.len() != "Плотность пикселей (PPI)"@.len());
    assert("Количество ядер процессора"@.len() != "Максимальный объем карты памяти"@.len());
    assert("Количество ядер процессора"@.len() != "Яркость (кд/м²)"@.len());
    assert("Количество ядер процессора"@.len() != "Частота обновления"@.len());
    assert("Количество ядер процессора"@.len() != "Фотокамера (Мп)"@.len());
    assert("Гарантия (мес)"@.len() != "Встроенная память (ГБ)"@.len());
    assert("Гарантия (мес)"@.len() != "Оперативная память (ГБ)"@.len());
    assert("Гарантия (мес)"@.len() != "Фронтальная камера (Мп)"@.len());
    assert("Гарантия (мес)"@.len() != "Разрешение видеосъемки (пикс)"@.len());
    assert("Гарантия (мес)"@.len() != "Емкость аккумулятора (мА*ч)"@.len());
    assert("Гарантия (мес)"@.len() != "Кол-во SIM-карт"@.len());
    assert("Гарантия (мес)"@.len() != "Частота кадров видеосъемки"@.len());
    assert("Гарантия (мес)"@.len() != "Плотность пикселей (PPI)"@.len());
    assert("Гарантия (мес)"@.len() != "Максимальный объем карты памяти"@.len());
    assert("Гарантия (мес)"@.len() != "Яркость (кд/м²)"@.len());
    assert("Гарантия (мес)"@.len() != "Частота обновления"@.len());
    assert("Гарантия (мес)"@.len() != "Фотокамера (Мп)"@.len());
    assert("Встроенная память (ГБ)"@.len() != "Оперативная память (ГБ)"@.len());
    assert("Встроенная память (ГБ)"@.len() != "Фронтальная камера (Мп)"@.len());
    assert("Встроенная память (ГБ)"@.len() != "Разрешение видеосъемки (пикс)"@.len());
    assert("Встроенная память (ГБ)"@.len() != "Емкость аккумулятора (мА*ч)"@.len());
    assert("Встроенная память (ГБ)"@.len() != "Кол-во SIM-карт"@.len());
    assert("Встроенная память (ГБ)"@.len() != "Частота кадров видеосъемки"@.len());
    assert("Встроенная память (ГБ)"@.len() != "Плотность пикселей (PPI)"@.len());
    assert("Встроенная память (ГБ)"@.len() != "Максимальный объем карты памяти"@.len());
    assert("Встроенная память (ГБ)"@.len() != "Яркость (кд/м²)"@.len());
    assert("Встроенная память (ГБ)"@.len() != "Частота обновления"@.len());
    assert("Встроенная память (ГБ)"@.len() != "Фотокамера (Мп)"@.len());
    assert("Оперативная память (ГБ)"@[0] != "Фронтальная камера (Мп)"@[0]);
    assert("Оперативная память (ГБ)"@.len() != "Разрешение видеосъемки (пикс)"@.len());
    assert("Оперативная память (ГБ)"@.len() != "Емкость аккумулятора (мА*ч)"@.len());
    assert("Оперативная память (ГБ)"@.len() != "Кол-во SIM-карт"@.len());
    assert("Оперативная память (ГБ)"@.len() != "Частота кадров видеосъемки"@.len());
    assert("Оперативная память (ГБ)"@.len() != "Плотность пикселей (PPI)"@.len());
    assert("Оперативная память (ГБ)"@.len() != "Максимальный объем карты памяти"@.len());
    assert("Оперативная память (ГБ)"@.len() != "Яркость (кд/м²)"@.len());
    assert("Оперативная память (ГБ)"@.len() != "Частота обновления"@.len());
    assert("Оперативная память (ГБ)"@.len() != "Фотокамера (Мп)"@.len());
    assert("Фронтальная камера (Мп)"@.len() != "Разрешение видеосъемки (пикс)"@.len());
    assert("Фронтальная камера (Мп)"@.len() != "Емкость аккумулятора (мА*ч)"@.len());
    assert("Фронтальная камера (Мп)"@.len() != "Кол-во SIM-карт"@.len());
    assert("Фронтальная камера (Мп)"@.len() != "Частота кадров видеосъемки"@.len());
    assert("Фронтальная камера (Мп)"@.len() != "Плотность пикселей (PPI)"@.len());
    assert("Фронтальная камера (Мп)"@.len() != "Максимальный объем карты памяти"@.len());
    assert("Фронтальная камера (Мп)"@.len() != "Яркость (кд/м²)"@.len());
    assert("Фронтальная камера (Мп)"@.len() != "Частота обновления"@.len());
    assert("Фронтальная камера (Мп)"@.len() != "Фотокамера (Мп)"@.len());
    assert("Разрешение видеосъемки (пикс)"@.len() != "Емкость аккумулятора (мА*ч)"@.len());
    assert("Разрешение видеосъемки (пикс)"@.len() != "Кол-во SIM-карт"@.len());
    assert("Разрешение видеосъемки (пикс)"@.len() != "Частота кадров видеосъемки"@.len());
    assert("Разрешение видеосъемки (пикс)"@.len() != "Плотность пикселей (PPI)"@.len());
    assert("Разрешение видеосъемки (пикс)"@.len() != "Максимальный объем карты памяти"@.len());
    assert("Разрешение видеосъемки (пикс)"@.len() != "Яркость (кд/м²)"@.len());
    assert("Разрешение видеосъемки (пикс)"@.len() != "Частота обновления"@.len());
    assert("Разрешение видеосъемки (пикс)"@.len() != "Фотокамера (Мп)"@.len());
    assert("Емкость аккумулятора (мА*ч)"@.len() != "Кол-во SIM-карт"@.len());
    assert("Емкость аккумулятора (мА*ч)"@.len() != "Частота кадров видеосъемки"@.len());
    assert("Емкость аккумулятора (мА*ч)"@.len() != "Плотность пикселей (PPI)"@.len());
    assert("Емкость аккумулятора (мА*ч)"@.len() != "Максимальный объем карты памяти"@.len());
    assert("Емкость аккумулятора (мА*ч)"@.len() != "Яркость (кд/м²)"@.len());
    assert("Емкость аккумулятора (мА*ч)"@.len() != "Частота обновления"@.len());
    assert("Емкость аккумулятора (мА*ч)"@.len() != "Фотокамера (Мп)"@.len());
    assert("Кол-во SIM-карт"@.len() != "Частота кадров видеосъемки"@.len());
    assert("Кол-во SIM-карт"@.len() != "Плотность пикселей (PPI)"@.len());
    assert("Кол-во SIM-карт"@.len() != "Максимальный объем карты памяти"@.len());
    assert("Кол-во SIM-карт"@[0] != "Яркость (кд/м²)"@[0]);
    assert("Кол-во SIM-карт"@.len() != "Частота обновления"@.len());
    assert("Кол-во SIM-карт"@[0] != "Фотокамера (Мп)"@[0]);
    assert("Частота кадров видеосъемки"@.len() != "Плотность пикселей (PPI)"@.len());
    assert("Частота кадров видеосъемки"@.len() != "Максимальный объем карты памяти"@.len());
    assert("Частота кадров видеосъемки"@.len() != "Яркость (кд/м²)"@.len());
    assert("Частота кадров видеосъемки"@.len() != "Частота обновления"@.len());
    assert("Частота кадров видеосъемки"@.len() != "Фотокамера (Мп)"@.len());
    assert("Плотность пикселей (PPI)"@.len() != "Максимальный объем карты памяти"@.len());
    assert("Плотность пикселей (PPI)"@.len() != "Яркость (кд/м²)"@.len());
    assert("Плотность пикселей (PPI)"@.len() != "Частота обновления"@.len());
    assert("Плотность пикселей (PPI)"@.len() != "Фотокамера (Мп)"@.len());
    assert("Максимальный объем карты памяти"@.len() != "Яркость (кд/м²)"@.len());
    assert("Максимальный объем карты памяти"@.len() != "Частота обновления"@.len());
    assert("Максимальный объем карты памяти"@.len() != "Фотокамера (Мп)"@.len());
    assert("Яркость (кд/м²)"@.len() != "Частота обновления"@.len());
    assert("Яркость (кд/м²)"@[0] != "Фотокамера (Мп)"@[0]);
    assert("Частота обновления"@.len() != "Фотокамера (Мп)"@.len());
}

/// Only the titles of the table give a characteristic of one number.
pub proof fn lemma_int_single_titles_only(t: Seq<char>, v: Seq<char>)
    requires
        int_single_of(t, v) is Some,
    ensures
        t == "Количество ядер процессора"@ || t == "Гарантия (мес)"@ || t == "Встроенная память (ГБ)"@ || t == "Оперативная память (ГБ)"@ || t == "Фронтальная камера (Мп)"@ || t == "Разрешение видеосъемки (пикс)"@ || t == "Емкость аккумулятора (мА*ч)"@ || t == "Кол-во SIM-карт"@ || t == "Частота кадров видеосъемки"@ || t == "Плотность пикселей (PPI)"@ || t == "Максимальный объем карты памяти"@ || t == "Яркость (кд/м²)"@ || t == "Частота обновления"@ || t == "Фотокамера (Мп)"@,
{
}

/// Two rows that give characteristics of the same kind have the same title:
/// no two titles of the table give the same kind.
pub proof fn lemma_int_kind_names_its_title(t1: Seq<char>, v1: Seq<char>, t2: Seq<char>, v2: Seq<char>)
    requires
        int_single_of(t1, v1) is Some,
        int_single_of(t2, v2) is Some,
        int_single_of(t1, v1).unwrap().kind_index() == int_single_of(t2, v2).unwrap().kind_index(),
    ensures
        t1 == t2,
{
}

/// The catalog pages of each category, as full addresses with `{page}` for
/// the page number: mi-shop.com lists smartphones under `smartphones`, smart
/// home devices under three sections, headphones under `audio` and watches
/// under `smart_devices/umnye-chasy-i-braslety`.
pub proof fn lemma_catalog_page_urls()
    ensures
        catalog_sections(CategorySlug::Smartphone).map_values(|u: Seq<char>| catalog_page_url(u))
            == seq!["https://mi-shop.com/ru/catalog/smartphones/page/{page}/"@],
        catalog_sections(CategorySlug::SmartHome).map_values(|u: Seq<char>| catalog_page_url(u)) == seq![
            "https://mi-shop.com/ru/catalog/smart_devices/umnyy-dom/page/{page}/"@,
            "https://mi-shop.com/ru/catalog/smart_devices/foto-video/page/{page}/"@,
            "https://mi-shop.com/ru/catalog/smart_devices/osveshchenie/page/{page}/"@,
        ],
        catalog_sections(CategorySlug::Headphones).map_values(|u: Seq<char>| catalog_page_url(u))
            == seq!["https://mi-shop.com/ru/catalog/audio/page/{page}/"@],
        catalog_sections(CategorySlug::Watches).map_values(|u: Seq<char>| catalog_page_url(u))
            == seq!["https://mi-shop.com/ru/catalog/smart_devices/umnye-chasy-i-braslety/page/{page}/"@],
{
    reveal_strlit("https://mi-shop.com");
    reveal_strlit("/ru/catalog/");
    reveal_strlit("/page/{page}/");
    reveal_strlit("smartphones");
    reveal_strlit("smart_devices/umnyy-dom");
    reveal_strlit("smart_devices/foto-video");
    reveal_strlit("smart_devices/osveshchenie");
    reveal_strlit("audio");
    reveal_strlit("smart_devices/umnye-chasy-i-braslety");
    reveal_strlit("https://mi-shop.com/ru/catalog/smartphones/page/{page}/");
    reveal_strlit("https://mi-shop.com/ru/catalog/smart_devices/umnyy-dom/page/{page}/");
    reveal_strlit("https://mi-shop.com/ru/catalog/smart_devices/foto-video/page/{page}/");
    reveal_strlit("https://mi-shop.com/ru/catalog/smart_devices/osveshchenie/page/{page}/");
    reveal_strlit("https://mi-shop.com/ru/catalog/audio/page/{page}/");
    reveal_strlit("https://mi-shop.com/ru/catalog/smart_devices/umnye-chasy-i-braslety/page/{page}/");
    assert(catalog_page_url("smartphones"@) =~= "https://mi-shop.com/ru/catalog/smartphones/page/{page}/"@);
    assert(catalog_page_url("smart_devices/umnyy-dom"@) =~= "https://mi-shop.com/ru/catalog/smart_devices/umnyy-dom/page/{page}/"@);
    assert(catalog_page_url("smart_devices/foto-video"@) =~= "https://mi-shop.com/ru/catalog/smart_devices/foto-video/page/{page}/"@);
    assert(catalog_page_url("smart_devices/osveshchenie"@) =~= "https://mi-shop.com/ru/catalog/smart_devices/osveshchenie/page/{page}/"@);
    assert(catalog_page_url("audio"@) =~= "https://mi-shop.com/ru/catalog/audio/page/{page}/"@);
    assert(catalog_page_url("smart_devices/umnye-chasy-i-braslety"@) =~= "https://mi-shop.com/ru/catalog/smart_devices/umnye-chasy-i-braslety/page/{page}/"@);
    assert(catalog_sections(CategorySlug::Smartphone).map_values(|u: Seq<char>| catalog_page_url(u))
        =~= seq!["https://mi-shop.com/ru/catalog/smartphones/page/{page}/"@]);
    assert(catalog_sections(CategorySlug::SmartHome).map_values(|u: Seq<char>| catalog_page_url(u)) =~= seq![
        "https://mi-shop.com/ru/catalog/smart_devices/umnyy-dom/page/{page}/"@,
        "https://mi-shop.com/ru/catalog/smart_devices/foto-video/page/{page}/"@,
        "https://mi-shop.com/ru/catalog/smart_devices/osveshchenie/page/{page}/"@,
    ]);
    assert(catalog_sections(CategorySlug::Headphones).map_values(|u: Seq<char>| catalog_page_url(u))
        =~= seq!["https://mi-shop.com/ru/catalog/audio/page/{page}/"@]);
    assert(catalog_sections(CategorySlug::Watches).map_values(|u: Seq<char>| catalog_page_url(u))
        =~= seq!["https://mi-shop.com/ru/catalog/smart_devices/umnye-chasy-i-braslety/page/{page}/"@]);
}

/// Each title of a fractional characteristic gives a reading of the kind it
/// names, with the text its reader cuts from the value; only the frequency
/// can be in MHz.
pub proof fn lemma_float_title_table(v: Seq<char>)
    ensures
        float_reading_of("Толщина (мм)"@, v) == Some((FloatCharacteristicKind::Thickness_mm, float_number_text(v), false)),
        float_reading_of("Апертура"@, v) == Some((FloatCharacteristicKind::Aperture, aperture_text(v), false)),
        float_reading_of("Ширина (мм)"@, v) == Some((FloatCharacteristicKind::Width_mm, float_number_text(v), false)),
        float_reading_of("Высота (мм)"@, v) == Some((FloatCharacteristicKind::Height_mm, float_number_text(v), false)),
        float_reading_of("Диагональ экрана"@, v) == Some((FloatCharacteristicKind::ScreenDiagonal, diagonal_text(v), false)),
        float_reading_of("Bluetooth"@, v) == Some((FloatCharacteristicKind::BluetoothVersion, float_number_text(v), false)),
        float_reading_of("Частота"@, v) == Some((FloatCharacteristicKind::CPUFrequency_Ghz, frequency_text(v), frequency_in_mhz(v))),
        float_reading_of("Вес (г)"@, v) == Some((FloatCharacteristicKind::Weight_gr, float_number_text(v), false)),
        float_reading_of("Версия MIUI"@, v) == Some((FloatCharacteristicKind::MIUIVersion, miui_version_text(v), false)),
        float_reading_of("Версия Android"@, v) == Some((FloatCharacteristicKind::AndroidVersion, android_version_text(v), false)),
{
    reveal_strlit("Толщина (мм)");
    reveal_strlit("Апертура");
    reveal_strlit("Ширина (мм)");
    reveal_strlit("Высота (мм)");
    reveal_strlit("Диагональ экрана");
    reveal_strlit("Bluetooth");
    reveal_strlit("Частота");
    reveal_strlit("Вес (г)");
    reveal_strlit("Версия MIUI");
    reveal_strlit("Версия Android");
    assert("Толщина (мм)"@.len() != "Апертура"@.len());
    assert("Толщина (мм)"@.len() != "Ширина (мм)"@.len());
    assert("Толщина (мм)"@.len() != "Высота (мм)"@.len());
    assert("Толщина (мм)"@.len() != "Диагональ экрана"@.len());
    assert("Толщина (мм)"@.len() != "Bluetooth"@.len());
    assert("Толщина (мм)"@.len() != "Частота"@.len());
    assert("Толщина (мм)"@.len() != "Вес (г)"@.len());
    assert("Толщина (мм)"@.len() != "Версия MIUI"@.len());
    assert("Толщина (мм)"@.len() != "Версия Android"@.len());
    assert("Апертура"@.len() != "Ширина (мм)"@.len());
    assert("Апертура"@.len() != "Высота (мм)"@.len());
    assert("Апертура"@.len() != "Диагональ экрана"@.len());
    assert("Апертура"@.len() != "Bluetooth"@.len());
    assert("Апертура"@.len() != "Частота"@.len());
    assert("Апертура"@.len() != "Вес (г)"@.len());
    assert("Апертура"@.len() != "Версия MIUI"@.len());
    assert("Апертура"@.len() != "Версия Android"@.len());
    assert("Ширина (мм)"@[0] != "Высота (мм)"@[0]);
    assert("Ширина (мм)"@.len() != "Диагональ экрана"@.len());
    assert("Ширина (мм)"@.len() != "Bluetooth"@.len());
    assert("Ширина (мм)"@.len() != "Частота"@.len());
    assert("Ширина (мм)"@.len() != "Вес (г)"@.len());
    assert("Ширина (мм)"@[0] != "Версия MIUI"@[0]);
    assert("Ширина (мм)"@.len() != "Версия Android"@.len());
    assert("Высота (мм)"@.len() != "Диагональ экрана"@.len());
    assert("Высота (мм)"@.len() != "Bluetooth"@.len());
    assert("Высота (мм)"@.len() != "Частота"@.len());
    assert("Высота (мм)"@.len() != "Вес (г)"@.len());
    assert("Высота (мм)"@[1] != "Версия MIUI"@[1]);
    assert("Высота (мм)"@.len() != "Версия Android"@.len());
    assert("Диагональ экрана"@.len() != "Bluetooth"@.len());
    assert("Диагональ экрана"@.len() != "Частота"@.len());
    assert("Диагональ экрана"@.len() != "Вес (г)"@.len());
    assert("Диагональ экрана"@.len() != "Версия MIUI"@.len());
    assert("Диагональ экрана"@.len() != "Версия Android"@.len());
    assert("Bluetooth"@.len() != "Частота"@.len());
    assert("Bluetooth"@.len() != "Вес (г)"@.len());
    assert("Bluetooth"@.len() != "Версия MIUI"@.len());
    assert("Bluetooth"@.len() != "Версия Android"@.len());
    assert("Частота"@[0] != "Вес (г)"@[0]);
    assert("Частота"@.len() != "Версия MIUI"@.len());
    assert("Частота"@.len() != "Версия Android"@.len());
    assert("Вес (г)"@.len() != "Версия MIUI"@.len());
    assert("Вес (г)"@.len() != "Версия Android"@.len());
    assert("Версия MIUI"@.len() != "Версия Android"@.len());
}

/// Two rows that give readings of the same kind have the same title.
pub proof fn lemma_float_kind_names_its_title(t1: Seq<char>, v1: Seq<char>, t2: Seq<char>, v2: Seq<char>)
    requires
        float_reading_of(t1, v1) is Some,
        float_reading_of(t2, v2) is Some,
        float_reading_of(t1, v1).unwrap().0 == float_reading_of(t2, v2).unwrap().0,
    ensures
        t1 == t2,
{
}

/// Each technology title asks about the technology it names, and a row gives
/// that technology exactly where its value reads as yes.
pub proof fn lemma_technology_title_table(v: Seq<char>, c: EnumCharacteristic)
    ensures
        technology_title_of("NFC"@) == Some(Technology::NFC),
        technology_of("NFC"@, v) == Some(c) <==> (c == EnumCharacteristic::TechnologySupport(Technology::NFC) && bool_text_value(trim(v)) == Some(true)),
        technology_title_of("Автофокус"@) == Some(Technology::Autofocus),
        technology_of("Автофокус"@, v) == Some(c) <==> (c == EnumCharacteristic::TechnologySupport(Technology::Autofocus) && bool_text_value(trim(v)) == Some(true)),
        technology_title_of("Быстрая зарядка"@) == Some(Technology::FastCharging),
        technology_of("Быстрая зарядка"@, v) == Some(c) <==> (c == EnumCharacteristic::TechnologySupport(Technology::FastCharging) && bool_text_value(trim(v)) == Some(true)),
        technology_title_of("ИК-порт"@) == Some(Technology::InfraredPort),
        technology_of("ИК-порт"@, v) == Some(c) <==> (c == EnumCharacteristic::TechnologySupport(Technology::InfraredPort) && bool_text_value(trim(v)) == Some(true)),
        technology_title_of("Беспроводная зарядка"@) == Some(Technology::WirelessCharger),
        technology_of("Беспроводная зарядка"@, v) == Some(c) <==> (c == EnumCharacteristic::TechnologySupport(Technology::WirelessCharger) && bool_text_value(trim(v)) == Some(true)),
{
    reveal_strlit("NFC");
    reveal_strlit("Автофокус");
    reveal_strlit("Быстрая зарядка");
    reveal_strlit("ИК-порт");
    reveal_strlit("Беспроводная зарядка");
    assert("NFC"@.len() != "Автофокус"@.len());
    assert("NFC"@.len() != "Быстрая зарядка"@.len());
    assert("NFC"@.len() != "ИК-порт"@.len());
    assert("NFC"@.len() != "Беспроводная зарядка"@.len());
    assert("Автофокус"@.len() != "Быстрая зарядка"@.len());
    assert("Автофокус"@.len() != "ИК-порт"@.len());
    assert("Автофокус"@.len() != "Беспроводная зарядка"@.len());
    assert("Быстрая зарядка"@.len() != "ИК-порт"@.len());
    assert("Быстрая зарядка"@.len() != "Беспроводная зарядка"@.len());
    assert("ИК-порт"@.len() != "Беспроводная зарядка"@.len());
}

/// Two titles that ask about the same technology are the same title.
pub proof fn lemma_technology_names_its_title(t1: Seq<char>, t2: Seq<char>)
    requires
        technology_title_of(t1) is Some,
        technology_title_of(t1) == technology_title_of(t2),
    ensures
        t1 == t2,
{
}

/// Each text title gives the text characteristic it names, holding the
/// trimmed value.
pub proof fn lemma_string_title_table(v: Seq<char>)
    ensures
        string_of("Процессор"@, v) == Some(StringCharacteristicView::Processor(trim(v))),
        string_of("Модель"@, v) == Some(StringCharacteristicView::Model(trim(v))),
        string_of("Контрастность"@, v) == Some(StringCharacteristicView::Contrast(trim(v))),
        string_of("Соотношение сторон"@, v) == Some(StringCharacteristicView::AspectRatio(trim(v))),
        string_of("Разрешение дисплея"@, v) == Some(StringCharacteristicView::DisplayResolution(trim(v))),
        string_of("Видеопроцессор"@, v) == Some(StringCharacteristicView::VideoProcessor(trim(v))),
{
    reveal_strlit("Процессор");
    reveal_strlit("Модель");
    reveal_strlit("Контрастность");
    reveal_strlit("Соотношение сторон");
    reveal_strlit("Разрешение дисплея");
    reveal_strlit("Видеопроцессор");
    assert("Процессор"@.len() != "Модель"@.len());
    assert("Процессор"@.len() != "Контрастность"@.len());
    assert("Процессор"@.len() != "Соотношение сторон"@.len());
    assert("Процессор"@.len() != "Разрешение дисплея"@.len());
    assert("Процессор"@.len() != "Видеопроцессор"@.len());
    assert("Модель"@.len() != "Контрастность"@.len());
    assert("Модель"@.len() != "Соотношение сторон"@.len());
    assert("Модель"@.len() != "Разрешение дисплея"@.len());
    assert("Модель"@.len() != "Видеопроцессор"@.len());
    assert("Контрастность"@.len() != "Соотношение сторон"@.len());
    assert("Контрастность"@.len() != "Разрешение дисплея"@.len());
    assert("Контрастность"@.len() != "Видеопроцессор"@.len());
    assert("Соотношение сторон"@[0] != "Разрешение дисплея"@[0]);
    assert("Соотношение сторон"@.len() != "Видеопроцессор"@.len());
    assert("Разрешение дисплея"@.len() != "Видеопроцессор"@.len());
}

/// Each title of a variant characteristic gives characteristics of the kind
/// it names: a listing row one for each value its reader reads, in order; a
/// row of one variant the variant its reader reads.
pub proof fn lemma_enum_title_table(v: Seq<char>, c: EnumCharacteristic)
    ensures
        enum_multi_of("SIM-карта"@, v).len() == multiple_reads(&SimCardParser, v).len(),
        forall|i: int| 0 <= i < enum_multi_of("SIM-карта"@, v).len() ==> #[trigger] enum_multi_of("SIM-карта"@, v)[i] == EnumCharacteristic::SimCard(multiple_reads(&SimCardParser, v)[i]),
        enum_multi_of("Интернет"@, v).len() == multiple_reads(&InternetConnectionTechnologyParser, v).len(),
        forall|i: int| 0 <= i < enum_multi_of("Интернет"@, v).len() ==> #[trigger] enum_multi_of("Интернет"@, v)[i] == EnumCharacteristic::InternetConnectionTechnology(multiple_reads(&InternetConnectionTechnologyParser, v)[i]),
        enum_multi_of("Спутниковая навигация"@, v).len() == multiple_reads(&SatelliteNavigationParser, v).len(),
        forall|i: int| 0 <= i < enum_multi_of("Спутниковая навигация"@, v).len() ==> #[trigger] enum_multi_of("Спутниковая навигация"@, v)[i] == EnumCharacteristic::SatelliteNavigation(multiple_reads(&SatelliteNavigationParser, v)[i]),
        enum_multi_of("Wi-Fi (802.11)"@, v).len() == multiple_reads(&WifiStandardParser, v).len(),
        forall|i: int| 0 <= i < enum_multi_of("Wi-Fi (802.11)"@, v).len() ==> #[trigger] enum_multi_of("Wi-Fi (802.11)"@, v)[i] == EnumCharacteristic::WifiStandard(multiple_reads(&WifiStandardParser, v)[i]),
        enum_multi_of("Материал"@, v).len() == multiple_reads(&MaterialParser, v).len(),
        forall|i: int| 0 <= i < enum_multi_of("Материал"@, v).len() ==> #[trigger] enum_multi_of("Материал"@, v)[i] == EnumCharacteristic::Material(multiple_reads(&MaterialParser, v)[i]),
        enum_multi_of("Поддерживаемые медиа форматы"@, v).len() == media_formats_of(v).len(),
        forall|i: int| 0 <= i < enum_multi_of("Поддерживаемые медиа форматы"@, v).len() ==> #[trigger] enum_multi_of("Поддерживаемые медиа форматы"@, v)[i] == EnumCharacteristic::SupportedMediaFormat(media_formats_of(v)[i]),
        enum_single_of("Тип разъема для зарядки"@, v) == Some(c) <==> (c matches EnumCharacteristic::ChargingConnectorType(x) && charging_connector_type_of(trim(v)) == Some(x)),
        enum_single_of("Слот для карты памяти"@, v) == Some(c) <==> (c matches EnumCharacteristic::MemoryCardSlot(x) && memory_card_slot_of(trim(v)) == Some(x)),
        enum_single_of("Страна производитель"@, v) == Some(c) <==> (c matches EnumCharacteristic::ProducingCountry(x) && country_of(trim(v)) == Some(x)),
        enum_single_of("Аккумулятор"@, v) == Some(c) <==> (c matches EnumCharacteristic::BatteryType(x) && battery_type_of(trim(v)) == Some(x)),
        enum_single_of("Тип дисплея"@, v) == Some(c) <==> (c matches EnumCharacteristic::DisplayType(x) && display_type_of(trim(v)) == Some(x)),
        enum_single_of("Аудиоразъем"@, v) == Some(c) <==> (c matches EnumCharacteristic::AudioJack(x) && (match regex_first_match(NO_DESCRIPTION_PATTERN@, v) { Some(m) => audio_jack_of(trim(m)) == Some(x), None => false })),
        enum_single_of("Вход аудио"@, v) == Some(c) <==> (c matches EnumCharacteristic::AudioJack(x) && (match regex_first_match(NO_DESCRIPTION_PATTERN@, v) { Some(m) => audio_jack_of(trim(m)) == Some(x), None => false })),
{
    reveal_strlit("SIM-карта");
    reveal_strlit("Интернет");
    reveal_strlit("Спутниковая навигация");
    reveal_strlit("Wi-Fi (802.11)");
    reveal_strlit("Материал");
    reveal_strlit("Поддерживаемые медиа форматы");
    assert("SIM-карта"@.len() != "Интернет"@.len());
    assert("SIM-карта"@.len() != "Спутниковая навигация"@.len());
    assert("SIM-карта"@.len() != "Wi-Fi (802.11)"@.len());
    assert("SIM-карта"@.len() != "Материал"@.len());
    assert("SIM-карта"@.len() != "Поддерживаемые медиа форматы"@.len());
    assert("Интернет"@.len() != "Спутниковая навигация"@.len());
    assert("Интернет"@.len() != "Wi-Fi (802.11)"@.len());
    assert("Интернет"@[0] != "Материал"@[0]);
    assert("Интернет"@.len() != "Поддерживаемые медиа форматы"@.len());
    assert("Спутниковая навигация"@.len() != "Wi-Fi (802.11)"@.len());
    assert("Спутниковая навигация"@.len() != "Материал"@.len());
    assert("Спутниковая навигация"@.len() != "Поддерживаемые медиа форматы"@.len());
    assert("Wi-Fi (802.11)"@.len() != "Материал"@.len());
    assert("Wi-Fi (802.11)"@.len() != "Поддерживаемые медиа форматы"@.len());
    assert("Материал"@.len() != "Поддерживаемые медиа форматы"@.len());
    reveal_strlit("Тип разъема для зарядки");
    reveal_strlit("Слот для карты памяти");
    reveal_strlit("Страна производитель");
    reveal_strlit("Аккумулятор");
    reveal_strlit("Тип дисплея");
    reveal_strlit("Аудиоразъем");
    reveal_strlit("Вход аудио");
    assert("Тип разъема для зарядки"@.len() != "Слот для карты памяти"@.len());
    assert("Тип разъема для зарядки"@.len() != "Страна производитель"@.len());
    assert("Тип разъема для зарядки"@.len() != "Аккумулятор"@.len());
    assert("Тип разъема для зарядки"@.len() != "Тип дисплея"@.len());
    assert("Тип разъема для зарядки"@.len() != "Аудиоразъем"@.len());
    assert("Тип разъема для зарядки"@.len() != "Вход аудио"@.len());
    assert("Слот для карты памяти"@.len() != "Страна производитель"@.len());
    assert("Слот для карты памяти"@.len() != "Аккумулятор"@.len());
    assert("Слот для карты памяти"@.len() != "Тип дисплея"@.len());
    assert("Слот для карты памяти"@.len() != "Аудиоразъем"@.len());
    assert("Слот для карты памяти"@.len() != "Вход аудио"@.len());
    assert("Страна производитель"@.len() != "Аккумулятор"@.len());
    assert("Страна производитель"@.len() != "Тип дисплея"@.len());
    assert("Страна производитель"@.len() != "Аудиоразъем"@.len());
    assert("Страна производитель"@.len() != "Вход аудио"@.len());
    assert("Аккумулятор"@[0] != "Тип дисплея"@[0]);
    assert("Аккумулятор"@[1] != "Аудиоразъем"@[1]);
    assert("Аккумулятор"@.len() != "Вход аудио"@.len());
    assert("Тип дисплея"@[0] != "Аудиоразъем"@[0]);
    assert("Тип дисплея"@.len() != "Вход аудио"@.len());
    assert("Аудиоразъем"@.len() != "Вход аудио"@.len());
}

/// A title that lists several whole numbers is not a title of one number.
pub proof fn lemma_int_titles_disjoint(t: Seq<char>, v: Seq<char>)
    requires
        is_multi_int_title(t),
    ensures
        int_single_of(t, v) is None,
{
    reveal_strlit("Диапазоны LTE");
    reveal_strlit("Диапазоны GSM");
    reveal_strlit("Диапазоны UMTS");
    reveal_strlit("Количество ядер процессора");
    reveal_strlit("Гарантия (мес)");
    reveal_strlit("Встроенная память (ГБ)");
    reveal_strlit("Оперативная память (ГБ)");
    reveal_strlit("Фронтальная камера (Мп)");
    reveal_strlit("Разрешение видеосъемки (пикс)");
    reveal_strlit("Емкость аккумулятора (мА*ч)");
    reveal_strlit("Кол-во SIM-карт");
    reveal_strlit("Частота кадров видеосъемки");
    reveal_strlit("Плотность пикселей (PPI)");
    reveal_strlit("Максимальный объем карты памяти");
    reveal_strlit("Яркость (кд/м²)");
    reveal_strlit("Частота обновления");
    reveal_strlit("Фотокамера (Мп)");
    assert("Диапазоны LTE"@.len() != "Количество ядер процессора"@.len());
    assert("Диапазоны LTE"@.len() != "Гарантия (мес)"@.len());
    assert("Диапазоны LTE"@.len() != "Встроенная память (ГБ)"@.len());
    assert("Диапазоны LTE"@.len() != "Оперативная память (ГБ)"@.len());
    assert("Диапазоны LTE"@.len() != "Фронтальная камера (Мп)"@.len());
    assert("Диапазоны LTE"@.len() != "Разрешение видеосъемки (пикс)"@.len());
    assert("Диапазоны LTE"@.len() != "Емкость аккумулятора (мА*ч)"@.len());
    assert("Диапазоны LTE"@.len() != "Кол-во SIM-карт"@.len());
    assert("Диапазоны LTE"@.len() != "Частота кадров видеосъемки"@.len());
    assert("Диапазоны LTE"@.len() != "Плотность пикселей (PPI)"@.len());
    assert("Диапазоны LTE"@.len() != "Максимальный объем карты памяти"@.len());
    assert("Диапазоны LTE"@.len() != "Яркость (кд/м²)"@.len());
    assert("Диапазоны LTE"@.len() != "Частота обновления"@.len());
    assert("Диапазоны LTE"@.len() != "Фотокамера (Мп)"@.len());
    assert("Диапазоны GSM"@.len() != "Количество ядер процессора"@.len());
    assert("Диапазоны GSM"@.len() != "Гарантия (мес)"@.len());
    assert("Диапазоны GSM"@.len() != "Встроенная память (ГБ)"@.len());
    assert("Диапазоны GSM"@.len() != "Оперативная память (ГБ)"@.len());
    assert("Диапазоны GSM"@.len() != "Фронтальная камера (Мп)"@.len());
    assert("Диапазоны GSM"@.len() != "Разрешение видеосъемки (пикс)"@.len());
    assert("Диапазоны GSM"@.len() != "Емкость аккумулятора (мА*ч)"@.len());
    assert("Диапазоны GSM"@.len() != "Кол-во SIM-карт"@.len());
    assert("Диапазоны GSM"@.len() != "Частота кадров видеосъемки"@.len());
    assert("Диапазоны GSM"@.len() != "Плотность пикселей (PPI)"@.len());
    assert("Диапазоны GSM"@.len() != "Максимальный объем карты памяти"@.len());
    assert("Диапазоны GSM"@.len() != "Яркость (кд/м²)"@.len());
    assert("Диапазоны GSM"@.len() != "Частота обновления"@.len());
    assert("Диапазоны GSM"@.len() != "Фотокамера (Мп)"@.len());
    assert("Диапазоны UMTS"@.len() != "Количество ядер процессора"@.len());
    assert("Диапазоны UMTS"@[0] != "Гарантия (мес)"@[0]);
    assert("Диапазоны UMTS"@.len() != "Встроенная память (ГБ)"@.len());
    assert("Диапазоны UMTS"@.len() != "Оперативная память (ГБ)"@.len());
    assert("Диапазоны UMTS"@.len() != "Фронтальная камера (Мп)"@.len());
    assert("Диапазоны UMTS"@.len() != "Разрешение видеосъемки (пикс)"@.len());
    assert("Диапазоны UMTS"@.len() != "Емкость аккумулятора (мА*ч)"@.len());
    assert("Диапазоны UMTS"@.len() != "Кол-во SIM-карт"@.len());
    assert("Диапазоны UMTS"@.len() != "Частота кадров видеосъемки"@.len());
    assert("Диапазоны UMTS"@.len() != "Плотность пикселей (PPI)"@.len());
    assert("Диапазоны UMTS"@.len() != "Максимальный объем карты памяти"@.len());
    assert("Диапазоны UMTS"@.len() != "Яркость (кд/м²)"@.len());
    assert("Диапазоны UMTS"@.len() != "Частота обновления"@.len());
    assert("Диапазоны UMTS"@.len() != "Фотокамера (Мп)"@.len());
}

/// A title that lists several variants is not a title of one variant.
pub proof fn lemma_enum_titles_disjoint(t: Seq<char>, v: Seq<char>)
    requires
        is_multi_enum_title(t),
    ensures
        enum_single_of(t, v) is None,
{
    reveal_strlit("SIM-карта");
    reveal_strlit("Поддерживаемые медиа форматы");
    reveal_strlit("Интернет");
    reveal_strlit("Спутниковая навигация");
    reveal_strlit("Wi-Fi (802.11)");
    reveal_strlit("Материал");
    reveal_strlit("Тип разъема для зарядки");
    reveal_strlit("Слот для карты памяти");
    reveal_strlit("Страна производитель");
    reveal_strlit("Аудиоразъем");
    reveal_strlit("Вход аудио");
    reveal_strlit("Аккумулятор");
    reveal_strlit("Тип дисплея");
    assert("SIM-карта"@.len() != "Тип разъема для зарядки"@.len());
    assert("SIM-карта"@.len() != "Слот для карты памяти"@.len());
    assert("SIM-карта"@.len() != "Страна производитель"@.len());
    assert("SIM-карта"@.len() != "Аудиоразъем"@.len());
    assert("SIM-карта"@.len() != "Вход аудио"@.len());
    assert("SIM-карта"@.len() != "Аккумулятор"@.len());
    assert("SIM-карта"@.len() != "Тип дисплея"@.len());
    assert("Поддерживаемые медиа форматы"@.len() != "Тип разъема для зарядки"@.len());
    assert("Поддерживаемые медиа форматы"@.len() != "Слот для карты памяти"@.len());
    assert("Поддерживаемые медиа форматы"@.len() != "Страна производитель"@.len());
    assert("Поддерживаемые медиа форматы"@.len() != "Аудиоразъем"@.len());
    assert("Поддерживаемые медиа форматы"@.len() != "Вход аудио"@.len());
    assert("Поддерживаемые медиа форматы"@.len() != "Аккумулятор"@.len());
    assert("Поддерживаемые медиа форматы"@.len() != "Тип дисплея"@.len());
    assert("Интернет"@.len() != "Тип разъема для зарядки"@.len());
    assert("Интернет"@.len() != "Слот для карты памяти"@.len());
    assert("Интернет"@.len() != "Страна производитель"@.len());
    assert("Интернет"@.len() != "Аудиоразъем"@.len());
    assert("Интернет"@.len() != "Вход аудио"@.len());
    assert("Интернет"@.len() != "Аккумулятор"@.len());
    assert("Интернет"@.len() != "Тип дисплея"@.len());
    assert("Спутниковая навигация"@.len() != "Тип разъема для зарядки"@.len());
    assert("Спутниковая навигация"@[1] != "Слот для карты памяти"@[1]);
    assert("Спутниковая навигация"@.len() != "Страна производитель"@.len());
    assert("Спутниковая навигация"@.len() != "Аудиоразъем"@.len());
    assert("Спутниковая навигация"@.len() != "Вход аудио"@.len());
    assert("Спутниковая навигация"@.len() != "Аккумулятор"@.len());
    assert("Спутниковая навигация"@.len() != "Тип дисплея"@.len());
    assert("Wi-Fi (802.11)"@.len() != "Тип разъема для зарядки"@.len());
    assert("Wi-Fi (802.11)"@.len() != "Слот для карты памяти"@.len());
    assert("Wi-Fi (802.11)"@.len() != "Страна производитель"@.len());
    assert("Wi-Fi (802.11)"@.len() != "Аудиоразъем"@.len());
    assert("Wi-Fi (802.11)"@.len() != "Вход аудио"@.len());
    assert("Wi-Fi (802.11)"@.len() != "Аккумулятор"@.len());
    assert("Wi-Fi (802.11)"@.len() != "Тип дисплея"@.len());
    assert("Материал"@.len() != "Тип разъема для зарядки"@.len());
    assert("Материал"@.len() != "Слот для карты памяти"@.len());
    assert("Материал"@.len() != "Страна производитель"@.len());
    assert("Материал"@.len() != "Аудиоразъем"@.len());
    assert("Материал"@.len() != "Вход аудио"@.len());
    assert("Материал"@.len() != "Аккумулятор"@.len());
    assert("Материал"@.len() != "Тип дисплея"@.len());
}

/// The rows that `extract_int_characteristics` reports are distinct rows of
/// the table, so they can be removed from it one after another.
pub proof fn lemma_int_parsed_rows_removable(t: Seq<Seq<char>>, v: Seq<Seq<char>>)
    requires
        t.len() <= usize::MAX,
    ensures
        int_parsed_rows(t, v).no_duplicates(),
        forall|k: int|
            0 <= k < int_parsed_rows(t, v).len() ==> #[trigger] int_parsed_rows(t, v)[k] < t.len(),
{
    let p = |i: int| is_multi_int_title(t[i]);
    let q = |i: int| int_single_of(t[i], v[i]) is Some;
    assert forall|i: int| 0 <= i < t.len() implies !(#[trigger] p(i) && q(i)) by {
        if p(i) {
            lemma_int_titles_disjoint(t[i], v[i]);
        }
    }
    lemma_disjoint_selections(t.len() as int, p, q);
}

/// The rows that `extract_enum_characteristics` reports are distinct rows of
/// the table, so they can be removed from it one after another.
pub proof fn lemma_enum_parsed_rows_removable(t: Seq<Seq<char>>, v: Seq<Seq<char>>)
    requires
        t.len() <= usize::MAX,
    ensures
        enum_parsed_rows(t, v).no_duplicates(),
        forall|k: int|
            0 <= k < enum_parsed_rows(t, v).len() ==> #[trigger] enum_parsed_rows(t, v)[k] < t.len(),
{
    let p = |i: int| is_multi_enum_title(t[i]);
    let q = |i: int| enum_single_of(t[i], v[i]) is Some;
    assert forall|i: int| 0 <= i < t.len() implies !(#[trigger] p(i) && q(i)) by {
        if p(i) {
            lemma_enum_titles_disjoint(t[i], v[i]);
        }
    }
    lemma_disjoint_selections(t.len() as int, p, q);
}

/// The rows reported for the technologies, the text characteristics and the
/// rows that are not read are distinct rows of the table.
pub proof fn lemma_single_rows_removable(t: Seq<Seq<char>>, v: Seq<Seq<char>>)
    requires
        t.len() <= usize::MAX,
    ensures
        technology_rows(t).no_duplicates(),
        string_rows(t, v).no_duplicates(),
        unneeded_rows(t).no_duplicates(),
        forall|k: int| 0 <= k < technology_rows(t).len() ==> #[trigger] technology_rows(t)[k] < t.len(),
        forall|k: int| 0 <= k < string_rows(t, v).len() ==> #[trigger] string_rows(t, v)[k] < t.len(),
        forall|k: int| 0 <= k < unneeded_rows(t).len() ==> #[trigger] unneeded_rows(t)[k] < t.len(),
{
    let never = |i: int| false;
    let p1 = |i: int| technology_title_of(t[i]) is Some;
    let p2 = |i: int| string_of(t[i], v[i]) is Some;
    let p3 = |i: int| is_unneeded_title(t[i]);
    lemma_disjoint_selections(t.len() as int, p1, never);
    lemma_disjoint_selections(t.len() as int, p2, never);
    lemma_disjoint_selections(t.len() as int, p3, never);
    lemma_select_none(t.len() as int, never);
    assert(select(t.len() as int, p1) + select(t.len() as int, never) =~= technology_rows(t));
    assert(select(t.len() as int, p2) + select(t.len() as int, never) =~= string_rows(t, v));
    assert(select(t.len() as int, p3) + select(t.len() as int, never) =~= unneeded_rows(t));
}

/// The product that an item of a catalog page gives, from the parts found in
/// it: its link (with its `href`), its title and price nodes (their inner
/// HTML), and its two buttons. The link, title and price and one of the
/// buttons must be there, and neither the title nor the link may come out
/// empty.
pub open spec fn catalog_item_of(
    id: Option<(Seq<char>, Seq<char>, Seq<Option<Seq<char>>>)>,
    title: Option<(Seq<char>, Seq<char>, Seq<Option<Seq<char>>>)>,
    price: Option<(Seq<char>, Seq<char>, Seq<Option<Seq<char>>>)>,
    available: bool,
    unavailable: bool,
) -> Option<(Seq<char>, Seq<char>, bool, Seq<char>)> {
    if id is Some && title is Some && price is Some && (available || unavailable) {
        match first_attribute_of(id) {
            Some(href) => {
                let t = product_title(title.unwrap().0);
                if t.len() > 0 && href.len() > 0 {
                    Some((t, product_price_text(price.unwrap().0), available && !unavailable, href))
                } else {
                    None
                }
            },
            None => None,
        }
    } else {
        None
    }
}

/// The products of the items of a catalog page, in document order, from
/// the parts found in each item.
pub open spec fn catalog_products_from(
    ids: Seq<Option<(Seq<char>, Seq<char>, Seq<Option<Seq<char>>>)>>,
    titles: Seq<Option<(Seq<char>, Seq<char>, Seq<Option<Seq<char>>>)>>,
    prices: Seq<Option<(Seq<char>, Seq<char>, Seq<Option<Seq<char>>>)>>,
    buys: Seq<Option<(Seq<char>, Seq<char>, Seq<Option<Seq<char>>>)>>,
    disabled: Seq<Option<(Seq<char>, Seq<char>, Seq<Option<Seq<char>>>)>>,
) -> Seq<(Seq<char>, Seq<char>, bool, Seq<char>)> {
    collect(
        ids.len() as int,
        |i: int| opt_seq(catalog_item_of(ids[i], titles[i], prices[i], buys[i] is Some, disabled[i] is Some)),
    )
}

/// Parts of the items of a catalog page, one entry per item, agreeing with
/// what the parse of `page` is known to give.
pub open spec fn catalog_parts_found(
    page: Seq<char>,
    ids: Seq<Option<(Seq<char>, Seq<char>, Seq<Option<Seq<char>>>)>>,
    titles: Seq<Option<(Seq<char>, Seq<char>, Seq<Option<Seq<char>>>)>>,
    prices: Seq<Option<(Seq<char>, Seq<char>, Seq<Option<Seq<char>>>)>>,
    buys: Seq<Option<(Seq<char>, Seq<char>, Seq<Option<Seq<char>>>)>>,
    disabled: Seq<Option<(Seq<char>, Seq<char>, Seq<Option<Seq<char>>>)>>,
) -> bool {
    let item = ".js-catalog-item"@;
    &&& ids.map_values(|o: Option<(Seq<char>, Seq<char>, Seq<Option<Seq<char>>>)>| settled_opt(o)) == selected_parts(page, item, "a.product-card__name[href]"@, seq!["href"@])
    &&& titles.map_values(|o: Option<(Seq<char>, Seq<char>, Seq<Option<Seq<char>>>)>| settled_opt(o)) == selected_parts(page, item, ".product-card__title"@, seq![])
    &&& prices.map_values(|o: Option<(Seq<char>, Seq<char>, Seq<Option<Seq<char>>>)>| settled_opt(o)) == selected_parts(page, item, ".price__new"@, seq![])
    &&& buys.map_values(|o: Option<(Seq<char>, Seq<char>, Seq<Option<Seq<char>>>)>| settled_opt(o)) == selected_parts(page, item, ".btn-buy"@, seq![])
    &&& disabled.map_values(|o: Option<(Seq<char>, Seq<char>, Seq<Option<Seq<char>>>)>| settled_opt(o)) == selected_parts(page, item, ".btn-buy.disabled"@, seq![])
    &&& ids.len() == selected_elements(page, item, seq![]).len()
    &&& titles.len() == ids.len()
    &&& prices.len() == ids.len()
    &&& buys.len() == ids.len()
    &&& disabled.len() == ids.len()
}

/// The rows of the characteristics table of a product page: the titles, the
/// colons cut, and the values, each the text of its cell.
pub open spec fn table_columns_of(page: Seq<char>) -> (Seq<Seq<char>>, Seq<Seq<char>>) {
    let titles = selected_elements(page, ".detail__table tr td.detail__table-one"@, seq![]);
    let values = selected_elements(page, ".detail__table tr td.detail__table-two"@, seq![]);
    (
        titles.map_values(|e: (Seq<char>, Seq<Option<Seq<char>>>)| replace_all(e.0, ":"@, ""@)),
        values.map_values(|e: (Seq<char>, Seq<Option<Seq<char>>>)| e.0),
    )
}

/// The rows whose fractional value was read: the title names a fractional
/// characteristic and `read` says that its number parsed.
pub open spec fn float_read_rows(t: Seq<Seq<char>>, v: Seq<Seq<char>>, read: Seq<bool>) -> Seq<usize> {
    select(t.len() as int, |i: int| float_reading_of(t[i], v[i]) is Some && read[i])
}

/// What the last readers of the table give, in the order they run: the text
/// characteristics; the variant characteristics and then the supported
/// technologies of what is left; and the titles and values of the rows that
/// no reader took, once the rows that are not read are dropped too.
pub open spec fn table_rest(t0: Seq<Seq<char>>, v0: Seq<Seq<char>>) -> (
    Seq<StringCharacteristicView>,
    Seq<EnumCharacteristic>,
    Seq<Seq<char>>,
    Seq<Seq<char>>,
) {
    let r1 = string_rows(t0, v0);
    let t1 = without_indexes(t0, r1);
    let v1 = without_indexes(v0, r1);
    let r2 = enum_parsed_rows(t1, v1);
    let t2 = without_indexes(t1, r2);
    let v2 = without_indexes(v1, r2);
    let r3 = technology_rows(t2);
    let t3 = without_indexes(t2, r3);
    let v3 = without_indexes(v2, r3);
    let r4 = unneeded_rows(t3);
    (
        string_characteristics_of(t0, v0),
        enum_characteristics_of(t1, v1) + technology_characteristics_of(t2, v2),
        without_indexes(t3, r4),
        without_indexes(v3, r4),
    )
}

/// The rows that a reader reports can be removed from both columns of the
/// table, and removing them drops exactly those rows.
proof fn lemma_rows_removed_from_columns(t: Seq<Seq<char>>, v: Seq<Seq<char>>, rows: Seq<usize>)
    requires
        t.len() <= v.len() <= usize::MAX,
        rows.no_duplicates(),
        forall|k: int| 0 <= k < rows.len() ==> #[trigger] rows[k] < t.len(),
    ensures
        removals_fit(t.len() as int, largest_first(rows)),
        removals_fit(v.len() as int, largest_first(rows)),
        remove_in_turn(t, largest_first(rows)) == without_indexes(t, rows),
        remove_in_turn(v, largest_first(rows)) == without_indexes(v, rows),
        without_indexes(t, rows).len() <= without_indexes(v, rows).len(),
{
    lemma_distinct_rows_removed(t, rows);
    lemma_distinct_rows_removed(v, rows);
    lemma_shorter_column_stays_shorter(t, v, rows);
}

impl MiShopComCrawler {

    pub fn get_source(&self) -> (res: SourceName)
        ensures
            res == SourceName::MiShopCom,
    {
        SourceName::MiShopCom
    }

    pub fn get_currency(&self) -> (res: CurrencyEnum)
        ensures
            res == CurrencyEnum::RUB,
    {
        CurrencyEnum::RUB
    }

    /// The categories that the shop offers.
    pub fn get_categories(&self) -> (res: Vec<CategorySlug>)
        ensures
            res@ == seq![
                CategorySlug::Smartphone,
                CategorySlug::SmartHome,
                CategorySlug::Headphones,
                CategorySlug::Watches,
            ],
    {
        let mut res: Vec<CategorySlug> = Vec::new();
        res.push(CategorySlug::Smartphone);
        res.push(CategorySlug::SmartHome);
        res.push(CategorySlug::Headphones);
        res.push(CategorySlug::Watches);
        res
    }

    /// The addresses of the catalog pages of a category, with `{page}`
    /// standing for the page number.
    pub fn get_next_page_urls(&self, category: CategorySlug) -> (res: Vec<String>)
        ensures
            res.deep_view() == catalog_sections(category).map_values(
                |u: Seq<char>| catalog_page_url(u),
            ),
    {
        let mut sections: Vec<&str> = Vec::new();
        match category {
            CategorySlug::Smartphone => {
                sections.push("smartphones");
            },
            CategorySlug::SmartHome => {
                sections.push("smart_devices/umnyy-dom");
                sections.push("smart_devices/foto-video");
                sections.push("smart_devices/osveshchenie");
            },
            CategorySlug::Headphones => {
                sections.push("audio");
            },
            CategorySlug::Watches => {
                sections.push("smart_devices/umnye-chasy-i-braslety");
            },
        }
        let ghost secs = catalog_sections(category);
        proof {
            assert(sections@.map_values(|s: &str| s@) =~= secs);
        }
        let mut res: Vec<String> = Vec::new();
        let mut i: usize = 0;
        while i < sections.len()
            invariant
                sections@.map_values(|s: &str| s@) == secs,
                i <= sections.len(),
                res.deep_view() == secs.take(i as int).map_values(|u: Seq<char>| catalog_page_url(u)),
            decreases sections.len() - i,
        {
            let mut url = String::from_str(SITE_BASE);
            url.append("/ru/catalog/");
            url.append(sections[i]);
            url.append("/page/{page}/");
            let ghost prev = res.deep_view();
            proof {
                assert(sections@.map_values(|s: &str| s@)[i as int] == sections[i as int]@);
            }
            res.push(url);
            proof {
                assert(res.deep_view() =~= prev.push(catalog_page_url(secs[i as int])));
                assert(secs.take(i + 1).map_values(|u: Seq<char>| catalog_page_url(u)) =~= secs.take(
                    i as int,
                ).map_values(|u: Seq<char>| catalog_page_url(u)).push(catalog_page_url(secs[i as int])));
            }
            i = i + 1;
        }
        proof {
            assert(secs.take(sections.len() as int) =~= secs);
        }
        res
    }

    /// The address of the page of a product.
    pub fn get_additional_info_url(&self, external_id: &str) -> (res: String)
        ensures
            res@ == SITE_BASE@ + external_id@,
    {
        let mut res = String::from_str(SITE_BASE);
        res.append(external_id);
        res
    }

    /// The description of a product from the inner HTML of its description
    /// node.
    pub fn extract_description(&self, description_html: &str) -> (res: String)
        ensures
            res@ == description_of(
                description_html@,
                regex_capture_texts(DESCRIPTION_PATTERN@, description_html@),
            ),
    {
        extract_description(description_html, DESCRIPTION_PATTERN)
    }

    /// The title of a product as the catalog shows it, without the color
    /// information in parentheses.
    pub fn extract_title(&self, title_html: &str) -> (res: String)
        ensures
            res@ == product_title(title_html@),
    {
        proof {
            reveal_strlit("(");
        }
        if contains_text(title_html, "(") {
            String::from_str(trim_text(first_piece_text(title_html, "(")))
        } else {
            String::from_str(title_html)
        }
    }

    /// The text that the price of a product is read from.
    pub fn extract_price_text(&self, price_html: &str) -> (res: String)
        ensures
            res@ == product_price_text(price_html@),
    {
        proof {
            reveal_strlit("₽");
            reveal_strlit(" ");
        }
        let a = replace_text(price_html, "₽", "");
        let b = replace_text(a.as_str(), " ", "");
        String::from_str(trim_text(b.as_str()))
    }

    /// Finds the fractional characteristics of the table: for each row whose
    /// title names one, its kind and the text its number is read from.
    pub fn extract_float_readings(&self, titles: &Vec<String>, values: &Vec<String>) -> (res: Vec<
        FloatReading,
    >)
        requires
            titles.len() <= values.len(),
        ensures
            res@.map_values(|r: FloatReading| (r.row, r.kind, r.text@, r.in_mhz)) == float_readings_of(
                titles.deep_view(),
                values.deep_view(),
            ),
    {
        let ghost t = titles.deep_view();
        let ghost v = values.deep_view();
        let ghost f = |i: int|
            match float_reading_of(t[i], v[i]) {
                Some(r) => seq![(i as usize, r.0, r.1, r.2)],
                None => seq![],
            };
        let n = titles.len();
        let mut readings: Vec<FloatReading> = Vec::new();
        let mut i: usize = 0;
        proof {
            assert(readings@.map_values(|r: FloatReading| (r.row, r.kind, r.text@, r.in_mhz)) =~= collect(0, f));
        }
        while i < n
            invariant
                n == titles.len(),
                n <= values.len(),
                t == titles.deep_view(),
                v == values.deep_view(),
                f == (|i: int|
                    match float_reading_of(t[i], v[i]) {
                        Some(r) => seq![(i as usize, r.0, r.1, r.2)],
                        None => seq![],
                    }),
                i <= n,
                readings@.map_values(|r: FloatReading| (r.row, r.kind, r.text@, r.in_mhz)) == collect(i as int, f),
            decreases n - i,
        {
            let title = titles[i].as_str();
            let value = values[i].as_str();
            proof {
                assert(title@ == t[i as int]);
                assert(value@ == v[i as int]);
            }
            let ghost prev = readings@;
            if let Some((kind, text, in_mhz)) = float_reading(title, value) {
                readings.push(FloatReading { row: i, kind, text, in_mhz });
                proof {
                    assert(readings@ =~= prev.push(readings@[prev.len() as int]));
                }
            }
            proof {
                assert(readings@.map_values(|r: FloatReading| (r.row, r.kind, r.text@, r.in_mhz)) =~= collect(i + 1, f));
            }
            i = i + 1;
        }
        readings
    }
    /// Reads the whole-number characteristics of the table; returns them and
    /// the rows that were read.
    pub fn extract_int_characteristics(
        &self,
        external_id: &str,
        titles: &Vec<String>,
        values: &Vec<String>,
    ) -> (res: (Vec<IntCharacteristic>, Vec<usize>))
        requires
            titles.len() <= values.len(),
        ensures
            res.0@ == int_characteristics_of(titles.deep_view(), values.deep_view()),
            res.1@ == int_parsed_rows(titles.deep_view(), values.deep_view()),
    {
        let ghost t = titles.deep_view();
        let ghost v = values.deep_view();
        let ghost f1 = |i: int| int_multi_of(t[i], v[i]);
        let ghost p1 = |i: int| is_multi_int_title(t[i]);
        let ghost f2 = |i: int| opt_seq(int_single_of(t[i], v[i]));
        let ghost p2 = |i: int| int_single_of(t[i], v[i]) is Some;
        let n = titles.len();
        let mut characteristics: Vec<IntCharacteristic> = Vec::new();
        let mut parsed_indexes: Vec<usize> = Vec::new();
        let mut i: usize = 0;
        while i < n
            invariant
                n == titles.len(),
                n <= values.len(),
                t == titles.deep_view(),
                v == values.deep_view(),
                f1 == (|i: int| int_multi_of(t[i], v[i])),
                p1 == (|i: int| is_multi_int_title(t[i])),
                i <= n,
                characteristics@ == collect(i as int, f1),
                parsed_indexes@ == select(i as int, p1),
            decreases n - i,
        {
            let title = titles[i].as_str();
            let value = values[i].as_str();
            proof {
                assert(title@ == t[i as int]);
                assert(value@ == v[i as int]);
            }
            let mut found = int_multi_characteristics(title, external_id, value);
            let ghost prev = characteristics@;
            characteristics.append(&mut found);
            if is_multi_int_title_text(title) {
                parsed_indexes.push(i);
            }
            i = i + 1;
        }
        let ghost first = characteristics@;
        let ghost first_rows = parsed_indexes@;
        i = 0;
        proof {
            assert(first + collect(0, f2) =~= first);
            assert(first_rows + select(0, p2) =~= first_rows);
        }
        while i < n
            invariant
                n == titles.len(),
                n <= values.len(),
                t == titles.deep_view(),
                v == values.deep_view(),
                f2 == (|i: int| opt_seq(int_single_of(t[i], v[i]))),
                p2 == (|i: int| int_single_of(t[i], v[i]) is Some),
                i <= n,
                characteristics@ == first + collect(i as int, f2),
                parsed_indexes@ == first_rows + select(i as int, p2),
            decreases n - i,
        {
            let title = titles[i].as_str();
            let value = values[i].as_str();
            proof {
                assert(title@ == t[i as int]);
                assert(value@ == v[i as int]);
            }
            let found = int_single_characteristic(title, external_id, value);
            if let Some(c) = found {
                parsed_indexes.push(i);
                characteristics.push(c);
            }
            proof {
                assert(characteristics@ =~= first + collect(i + 1, f2));
                assert(parsed_indexes@ =~= first_rows + select(i + 1, p2));
            }
            i = i + 1;
        }
        (characteristics, parsed_indexes)
    }

    /// Reads the supported technologies of the table; returns them and the
    /// rows whose title names a technology.
    pub fn extract_technology_characteristics(
        &self,
        external_id: &str,
        titles: &Vec<String>,
        values: &Vec<String>,
    ) -> (res: (Vec<EnumCharacteristic>, Vec<usize>))
        requires
            titles.len() <= values.len(),
        ensures
            res.0@ == technology_characteristics_of(titles.deep_view(), values.deep_view()),
            res.1@ == technology_rows(titles.deep_view()),
    {
        let ghost t = titles.deep_view();
        let ghost v = values.deep_view();
        let ghost f = |i: int| opt_seq(technology_of(t[i], v[i]));
        let ghost p = |i: int| technology_title_of(t[i]) is Some;
        let n = titles.len();
        let mut characteristics: Vec<EnumCharacteristic> = Vec::new();
        let mut parsed_indexes: Vec<usize> = Vec::new();
        let mut i: usize = 0;
        while i < n
            invariant
                n == titles.len(),
                n <= values.len(),
                t == titles.deep_view(),
                v == values.deep_view(),
                f == (|i: int| opt_seq(technology_of(t[i], v[i]))),
                p == (|i: int| technology_title_of(t[i]) is Some),
                i <= n,
                characteristics@ == collect(i as int, f),
                parsed_indexes@ == select(i as int, p),
            decreases n - i,
        {
            let title = titles[i].as_str();
            let value = values[i].as_str();
            proof {
                assert(title@ == t[i as int]);
                assert(value@ == v[i as int]);
            }
            let (known, found) = technology_characteristic(title, external_id, value);
            if known {
                parsed_indexes.push(i);
            }
            if let Some(c) = found {
                characteristics.push(c);
            }
            proof {
                assert(characteristics@ =~= collect(i + 1, f));
            }
            i = i + 1;
        }
        (characteristics, parsed_indexes)
    }

    /// Reads the text characteristics of the table; returns them and the rows
    /// that were read.
    pub fn extract_string_characteristics(
        &self,
        external_id: &str,
        titles: &Vec<String>,
        values: &Vec<String>,
    ) -> (res: (Vec<StringCharacteristic>, Vec<usize>))
        requires
            titles.len() <= values.len(),
        ensures
            res.0@.map_values(|c: StringCharacteristic| c@) == string_characteristics_of(
                titles.deep_view(),
                values.deep_view(),
            ),
            res.1@ == string_rows(titles.deep_view(), values.deep_view()),
    {
        let ghost t = titles.deep_view();
        let ghost v = values.deep_view();
        let ghost f = |i: int| opt_seq(string_of(t[i], v[i]));
        let ghost p = |i: int| string_of(t[i], v[i]) is Some;
        let n = titles.len();
        let mut characteristics: Vec<StringCharacteristic> = Vec::new();
        let mut parsed_indexes: Vec<usize> = Vec::new();
        let mut i: usize = 0;
        proof {
            assert(characteristics@.map_values(|c: StringCharacteristic| c@) =~= collect(0, f));
        }
        while i < n
            invariant
                n == titles.len(),
                n <= values.len(),
                t == titles.deep_view(),
                v == values.deep_view(),
                f == (|i: int| opt_seq(string_of(t[i], v[i]))),
                p == (|i: int| string_of(t[i], v[i]) is Some),
                i <= n,
                characteristics@.map_values(|c: StringCharacteristic| c@) == collect(i as int, f),
                parsed_indexes@ == select(i as int, p),
            decreases n - i,
        {
            let title = titles[i].as_str();
            let value = values[i].as_str();
            proof {
                assert(title@ == t[i as int]);
                assert(value@ == v[i as int]);
            }
            let ghost prev = characteristics@;
            let found = string_characteristic(title, value);
            if let Some(c) = found {
                parsed_indexes.push(i);
                characteristics.push(c);
                proof {
                    assert(characteristics@ =~= prev.push(c));
                }
            }
            proof {
                assert(characteristics@.map_values(|c: StringCharacteristic| c@) =~= collect(
                    i + 1,
                    f,
                ));
            }
            i = i + 1;
        }
        (characteristics, parsed_indexes)
    }

    /// Reads the characteristics of the table whose value is one of a fixed
    /// set of variants; returns them and the rows that were read.
    pub fn extract_enum_characteristics(
        &self,
        external_id: &str,
        titles: &Vec<String>,
        values: &Vec<String>,
    ) -> (res: (Vec<EnumCharacteristic>, Vec<usize>))
        requires
            titles.len() <= values.len(),
        ensures
            res.0@ == enum_characteristics_of(titles.deep_view(), values.deep_view()),
            res.1@ == enum_parsed_rows(titles.deep_view(), values.deep_view()),
    {
        let ghost t = titles.deep_view();
        let ghost v = values.deep_view();
        let ghost f1 = |i: int| enum_multi_of(t[i], v[i]);
        let ghost p1 = |i: int| is_multi_enum_title(t[i]);
        let ghost f2 = |i: int| opt_seq(enum_single_of(t[i], v[i]));
        let ghost p2 = |i: int| enum_single_of(t[i], v[i]) is Some;
        let n = titles.len();
        let mut characteristics: Vec<EnumCharacteristic> = Vec::new();
        let mut parsed_indexes: Vec<usize> = Vec::new();
        let mut i: usize = 0;
        while i < n
            invariant
                n == titles.len(),
                n <= values.len(),
                t == titles.deep_view(),
                v == values.deep_view(),
                f1 == (|i: int| enum_multi_of(t[i], v[i])),
                p1 == (|i: int| is_multi_enum_title(t[i])),
                i <= n,
                characteristics@ == collect(i as int, f1),
                parsed_indexes@ == select(i as int, p1),
            decreases n - i,
        {
            let title = titles[i].as_str();
            let value = values[i].as_str();
            proof {
                assert(title@ == t[i as int]);
                assert(value@ == v[i as int]);
            }
            let context = CharacteristicParsingContext {
                title,
                external_id,
                source: SourceName::MiShopCom,
            };
            let mut found = enum_multi_characteristics(&context, value);
            characteristics.append(&mut found);
            if is_multi_enum_title_text(title) {
                parsed_indexes.push(i);
            }
            i = i + 1;
        }
        let ghost first = characteristics@;
        let ghost first_rows = parsed_indexes@;
        i = 0;
        proof {
            assert(first + collect(0, f2) =~= first);
            assert(first_rows + select(0, p2) =~= first_rows);
        }
        while i < n
            invariant
                n == titles.len(),
                n <= values.len(),
                t == titles.deep_view(),
                v == values.deep_view(),
                f2 == (|i: int| opt_seq(enum_single_of(t[i], v[i]))),
                p2 == (|i: int| enum_single_of(t[i], v[i]) is Some),
                i <= n,
                characteristics@ == first + collect(i as int, f2),
                parsed_indexes@ == first_rows + select(i as int, p2),
            decreases n - i,
        {
            let title = titles[i].as_str();
            let value = values[i].as_str();
            proof {
                assert(title@ == t[i as int]);
                assert(value@ == v[i as int]);
            }
            let context = CharacteristicParsingContext {
                title,
                external_id,
                source: SourceName::MiShopCom,
            };
            let found = enum_single_characteristic(&context, value);
            if let Some(c) = found {
                parsed_indexes.push(i);
                characteristics.push(c);
            }
            proof {
                assert(characteristics@ =~= first + collect(i + 1, f2));
                assert(parsed_indexes@ =~= first_rows + select(i + 1, p2));
            }
            i = i + 1;
        }
        (characteristics, parsed_indexes)
    }

    /// The rows whose title names something that is not read.
    pub fn skip_unneeded_characteristics(&self, titles: &Vec<String>) -> (res: Vec<usize>)
        ensures
            res@ == unneeded_rows(titles.deep_view()),
    {
        let ghost t = titles.deep_view();
        let ghost p = |i: int| is_unneeded_title(t[i]);
        let mut parsed_indexes: Vec<usize> = Vec::new();
        let mut i: usize = 0;
        while i < titles.len()
            invariant
                t == titles.deep_view(),
                p == (|i: int| is_unneeded_title(t[i])),
                i <= titles.len(),
                parsed_indexes@ == select(i as int, p),
            decreases titles.len() - i,
        {
            proof {
                assert(titles[i as int]@ == t[i as int]);
            }
            if is_unneeded_title_text(titles[i].as_str()) {
                parsed_indexes.push(i);
            }
            i = i + 1;
        }
        parsed_indexes
    }

    /// Orders `parsed_indexes` from the largest row down and removes the rows
    /// in that order from both columns, one after another.
    pub fn remove_parsed_indexes(
        &self,
        titles: &mut Vec<String>,
        values: &mut Vec<String>,
        parsed_indexes: &mut Vec<usize>,
    )
        requires
            removals_fit(old(titles).len() as int, largest_first(old(parsed_indexes)@)),
            removals_fit(old(values).len() as int, largest_first(old(parsed_indexes)@)),
        ensures
            final(parsed_indexes)@ == largest_first(old(parsed_indexes)@),
            final(titles).deep_view() == remove_in_turn(old(titles).deep_view(), final(parsed_indexes)@),
            final(values).deep_view() == remove_in_turn(old(values).deep_view(), final(parsed_indexes)@),
            final(titles).len() == old(titles).len() - old(parsed_indexes).len(),
            final(values).len() == old(values).len() - old(parsed_indexes).len(),
    {
        let ghost t0 = titles.deep_view();
        let ghost v0 = values.deep_view();
        let ghost p0 = parsed_indexes@;
        sort_descending(parsed_indexes);
        proof {
            lemma_largest_first_order();
            p0.lemma_sort_by_ensures(|a: usize, b: usize| a >= b);
            vstd::seq_lib::lemma_sorted_unique(parsed_indexes@, largest_first(p0), |a: usize, b: usize| a >= b);
        }
        let ghost d = parsed_indexes@;
        let n = parsed_indexes.len();
        let mut k: usize = 0;
        proof {
            assert(d.skip(0) =~= d);
            vstd::seq_lib::to_multiset_len(d);
            vstd::seq_lib::to_multiset_len(p0);
        }
        while k < n
            invariant
                n == parsed_indexes.len(),
                d == parsed_indexes@,
                removals_fit(t0.len() as int, d),
                removals_fit(v0.len() as int, d),
                k <= n,
                titles.len() == t0.len() - k,
                values.len() == v0.len() - k,
                remove_in_turn(titles.deep_view(), d.skip(k as int)) == remove_in_turn(t0, d),
                remove_in_turn(values.deep_view(), d.skip(k as int)) == remove_in_turn(v0, d),
            decreases n - k,
        {
            let row = parsed_indexes[k];
            proof {
                assert(d[k as int] < t0.len() - k);
                assert(d[k as int] < v0.len() - k);
                assert(d.skip(k as int)[0] == row);
                assert(d.skip(k as int).drop_first() =~= d.skip(k + 1));
            }
            let ghost tb = titles.deep_view();
            let ghost vb = values.deep_view();
            titles.remove(row);
            values.remove(row);
            proof {
                assert(titles.deep_view() =~= tb.remove(row as int));
                assert(values.deep_view() =~= vb.remove(row as int));
            }
            k = k + 1;
        }
        proof {
            assert(d.skip(n as int) =~= seq![]);
        }
    }
    /// The title of a row of the characteristics table, from the text of its
    /// title cell: the colons cut.
    pub fn table_title(&self, cell_text: &str) -> (res: String)
        ensures
            res@ == replace_all(cell_text@, ":"@, ""@),
    {
        proof {
            reveal_strlit(":");
            reveal_strlit("");
        }
        replace_text(cell_text, ":", "")
    }

    /// The product that an item of a catalog page gives, from the parts found
    /// in it.
    fn catalog_item(
        &self,
        id: &Option<SelectedElement>,
        title: &Option<SelectedElement>,
        price: &Option<SelectedElement>,
        available: bool,
        unavailable: bool,
    ) -> (res: Option<ListedProduct>)
        ensures
            match res {
                Some(p) => catalog_item_of(opt_view(*id), opt_view(*title), opt_view(*price), available, unavailable) == Some(p@),
                None => catalog_item_of(opt_view(*id), opt_view(*title), opt_view(*price), available, unavailable) is None,
            },
    {
        if !product_nodes_complete(id.is_some(), title.is_some(), price.is_some(), available, unavailable) {
            return None;
        }
        match (id, title, price) {
            (Some(link), Some(title_node), Some(price_node)) => {
                if link.attributes.len() == 0 {
                    return None;
                }
                proof {
                    assert(link.attributes.deep_view()[0] == link.attributes[0].deep_view());
                }
                match &link.attributes[0] {
                    Some(href) => match self.listed_product(title_node.inner_html.as_str(), href.as_str()) {
                        Some((title, external_id)) => Some(
                            ListedProduct {
                                title,
                                price_text: self.extract_price_text(price_node.inner_html.as_str()),
                                available: available && !unavailable,
                                external_id,
                            },
                        ),
                        None => None,
                    },
                    None => None,
                }
            },
            _ => None,
        }
    }

    /// The products of the items of a catalog page, in document order, from
    /// the parts found in each item: its link, title, price and buttons.
    pub fn listed_products_from(
        &self,
        ids: &Vec<Option<SelectedElement>>,
        titles: &Vec<Option<SelectedElement>>,
        prices: &Vec<Option<SelectedElement>>,
        buys: &Vec<Option<SelectedElement>>,
        disabled: &Vec<Option<SelectedElement>>,
    ) -> (res: Vec<ListedProduct>)
        requires
            titles.len() == ids.len(),
            prices.len() == ids.len(),
            buys.len() == ids.len(),
            disabled.len() == ids.len(),
        ensures
            res@.map_values(|p: ListedProduct| p@) == catalog_products_from(
                parts_view(ids@),
                parts_view(titles@),
                parts_view(prices@),
                parts_view(buys@),
                parts_view(disabled@),
            ),
    {
        let ghost f = |i: int|
            opt_seq(
                catalog_item_of(
                    parts_view(ids@)[i],
                    parts_view(titles@)[i],
                    parts_view(prices@)[i],
                    parts_view(buys@)[i] is Some,
                    parts_view(disabled@)[i] is Some,
                ),
            );
        let mut products: Vec<ListedProduct> = Vec::new();
        let mut i: usize = 0;
        proof {
            assert(products@.map_values(|p: ListedProduct| p@) =~= collect(0, f));
        }
        while i < ids.len()
            invariant
                titles.len() == ids.len(),
                prices.len() == ids.len(),
                buys.len() == ids.len(),
                disabled.len() == ids.len(),
                f == (|i: int|
                    opt_seq(
                        catalog_item_of(
                            parts_view(ids@)[i],
                            parts_view(titles@)[i],
                            parts_view(prices@)[i],
                            parts_view(buys@)[i] is Some,
                            parts_view(disabled@)[i] is Some,
                        ),
                    )),
                i <= ids.len(),
                products@.map_values(|p: ListedProduct| p@) == collect(i as int, f),
            decreases ids.len() - i,
        {
            let ghost prev = products@;
            let found = self.catalog_item(&ids[i], &titles[i], &prices[i], buys[i].is_some(), disabled[i].is_some());
            proof {
                assert(parts_view(ids@)[i as int] == opt_view(ids@[i as int]));
                assert(parts_view(titles@)[i as int] == opt_view(titles@[i as int]));
                assert(parts_view(prices@)[i as int] == opt_view(prices@[i as int]));
                assert(parts_view(buys@)[i as int] == opt_view(buys@[i as int]));
                assert(parts_view(disabled@)[i as int] == opt_view(disabled@[i as int]));
            }
            match found {
                Some(p) => {
                    products.push(p);
                    proof {
                        assert(products@ =~= prev.push(products@.last()));
                    }
                },
                None => {},
            }
            proof {
                assert(products@.map_values(|p: ListedProduct| p@) =~= collect(i + 1, f));
            }
            i = i + 1;
        }
        products
    }

    /// The products of a catalog page, in document order. Each item's parts
    /// are those that the parse of the page gives; their texts and link
    /// addresses are named (`selected_parts`), their inner HTML is not.
    pub fn extract_products(&self, page: &str) -> (res: Vec<ListedProduct>)
        ensures
            exists|ids, titles, prices, buys, disabled|
                #[trigger] catalog_parts_found(page@, ids, titles, prices, buys, disabled)
                    && res@.map_values(|p: ListedProduct| p@) == catalog_products_from(ids, titles, prices, buys, disabled),
    {
        let ids = parts_of_items(page, ".js-catalog-item", "a.product-card__name[href]", Some("href"));
        let titles = parts_of_items(page, ".js-catalog-item", ".product-card__title", None);
        let prices = parts_of_items(page, ".js-catalog-item", ".price__new", None);
        let buys = parts_of_items(page, ".js-catalog-item", ".btn-buy", None);
        let disabled = parts_of_items(page, ".js-catalog-item", ".btn-buy.disabled", None);
        let res = self.listed_products_from(&ids, &titles, &prices, &buys, &disabled);
        proof {
            reveal_strlit("href");
            assert(catalog_parts_found(
                page@,
                parts_view(ids@),
                parts_view(titles@),
                parts_view(prices@),
                parts_view(buys@),
                parts_view(disabled@),
            ));
        }
        res
    }

    /// The description of a product from its product page, put together
    /// from the inner HTML of its description node; `None` where the page
    /// has none.
    pub fn extract_page_description(&self, page: &str) -> (res: Option<String>)
        ensures
            res is None <==> !has_match(page@, ".detail__tab-description"@),
            res matches Some(d) ==> exists|h: Seq<char>|
                #[trigger] description_of(h, regex_capture_texts(DESCRIPTION_PATTERN@, h)) == d@,
    {
        extract_page_description(page, ".detail__tab-description", DESCRIPTION_PATTERN)
    }

    /// Whether a product can be bought, from its product page.
    pub fn parse_page_availability(&self, page: &str) -> (res: Option<bool>)
        ensures
            res == availability_of(
                has_match(page@, ".btn-primary.js-buy"@),
                has_match(page@, "#subscribe-product"@),
            ),
    {
        parse_availability(page, ".btn-primary.js-buy", "#subscribe-product")
    }

    /// The addresses of the images of a product page.
    pub fn extract_page_image_urls(&self, page: &str) -> (res: Vec<String>)
        ensures
            res.deep_view() == image_urls_of(page@, ".detail-modal .detail__slides img"@, "data-lazy"@),
    {
        extract_image_urls(page, ".detail-modal .detail__slides img", "data-lazy")
    }

    /// The two columns of the characteristics table of a product page.
    pub fn table_columns(&self, page: &str) -> (res: (Vec<String>, Vec<String>))
        ensures
            res.0.deep_view() == table_columns_of(page@).0,
            res.1.deep_view() == table_columns_of(page@).1,
    {
        let none: Vec<String> = Vec::new();
        proof {
            assert(none.deep_view() =~= seq![]);
        }
        let title_cells = select_elements(page, ".detail__table tr td.detail__table-one", &none);
        let value_cells = select_elements(page, ".detail__table tr td.detail__table-two", &none);
        let ghost tc = title_cells@.map_values(|e: SelectedElement| settled(e@));
        let ghost vc = value_cells@.map_values(|e: SelectedElement| settled(e@));
        let mut titles: Vec<String> = Vec::new();
        let mut i: usize = 0;
        while i < title_cells.len()
            invariant
                tc == title_cells@.map_values(|e: SelectedElement| settled(e@)),
                i <= title_cells.len(),
                titles.deep_view() == tc.take(i as int).map_values(
                    |e: (Seq<char>, Seq<Option<Seq<char>>>)| replace_all(e.0, ":"@, ""@),
                ),
            decreases title_cells.len() - i,
        {
            proof {
                assert(tc[i as int].0 == title_cells[i as int].text@);
            }
            let title = self.table_title(title_cells[i].text.as_str());
            let ghost prev = titles.deep_view();
            titles.push(title);
            proof {
                assert(titles.deep_view() =~= prev.push(title@));
                assert(tc.take(i + 1).map_values(
                    |e: (Seq<char>, Seq<Option<Seq<char>>>)| replace_all(e.0, ":"@, ""@),
                ) =~= tc.take(i as int).map_values(
                    |e: (Seq<char>, Seq<Option<Seq<char>>>)| replace_all(e.0, ":"@, ""@),
                ).push(title@));
            }
            i = i + 1;
        }
        let mut values: Vec<String> = Vec::new();
        let mut j: usize = 0;
        while j < value_cells.len()
            invariant
                vc == value_cells@.map_values(|e: SelectedElement| settled(e@)),
                j <= value_cells.len(),
                values.deep_view() == vc.take(j as int).map_values(
                    |e: (Seq<char>, Seq<Option<Seq<char>>>)| e.0,
                ),
            decreases value_cells.len() - j,
        {
            proof {
                assert(vc[j as int].0 == value_cells[j as int].text@);
            }
            let value = value_cells[j].text.clone();
            let ghost prev = values.deep_view();
            values.push(value);
            proof {
                assert(values.deep_view() =~= prev.push(value@));
                assert(vc.take(j + 1).map_values(|e: (Seq<char>, Seq<Option<Seq<char>>>)| e.0)
                    =~= vc.take(j as int).map_values(
                    |e: (Seq<char>, Seq<Option<Seq<char>>>)| e.0,
                ).push(value@));
            }
            j = j + 1;
        }
        proof {
            assert(tc.take(title_cells.len() as int) =~= tc);
            assert(vc.take(value_cells.len() as int) =~= vc);
        }
        (titles, values)
    }

    /// The title and the external id of a product of a catalog page, from the
    /// inner HTML of its title node and the address its link points to;
    /// `None` where either comes out empty.
    pub fn listed_product(&self, title_html: &str, href: &str) -> (res: Option<(String, String)>)
        ensures
            match res {
                Some((title, external_id)) => title@ == product_title(title_html@)
                    && external_id@ == href@ && title@.len() > 0 && href@.len() > 0,
                None => product_title(title_html@).len() == 0 || href@.len() == 0,
            },
    {
        let title = self.extract_title(title_html);
        if title.as_str().unicode_len() == 0 || href.unicode_len() == 0 {
            None
        } else {
            Some((title, String::from_str(href)))
        }
    }

    /// Reads the whole-number characteristics of the table and drops the rows
    /// that were read.
    pub fn take_int_characteristics(
        &self,
        external_id: &str,
        titles: &mut Vec<String>,
        values: &mut Vec<String>,
    ) -> (res: Vec<IntCharacteristic>)
        requires
            old(titles).len() <= old(values).len(),
        ensures
            res@ == int_characteristics_of(old(titles).deep_view(), old(values).deep_view()),
            final(titles).deep_view() == without_indexes(
                old(titles).deep_view(),
                int_parsed_rows(old(titles).deep_view(), old(values).deep_view()),
            ),
            final(values).deep_view() == without_indexes(
                old(values).deep_view(),
                int_parsed_rows(old(titles).deep_view(), old(values).deep_view()),
            ),
            final(titles).len() <= final(values).len(),
    {
        let ghost t = titles.deep_view();
        let ghost v = values.deep_view();
        let (characteristics, mut rows) = self.extract_int_characteristics(external_id, titles, values);
        let n = titles.len();
        proof {
            assert(t.len() == n);
            lemma_int_parsed_rows_removable(t, v);
            assert(v.len() == values.len());
            lemma_rows_removed_from_columns(t, v, rows@);
        }
        self.remove_parsed_indexes(titles, values, &mut rows);
        characteristics
    }

    /// Drops the rows whose fractional value was read; `read` tells, row by
    /// row, whether the number of the row's reading parsed.
    pub fn take_float_rows(&self, titles: &mut Vec<String>, values: &mut Vec<String>, read: &Vec<bool>)
        requires
            old(titles).len() <= old(values).len(),
            read.len() == old(titles).len(),
        ensures
            final(titles).deep_view() == without_indexes(
                old(titles).deep_view(),
                float_read_rows(old(titles).deep_view(), old(values).deep_view(), read@),
            ),
            final(values).deep_view() == without_indexes(
                old(values).deep_view(),
                float_read_rows(old(titles).deep_view(), old(values).deep_view(), read@),
            ),
            final(titles).len() <= final(values).len(),
    {
        let ghost t = titles.deep_view();
        let ghost v = values.deep_view();
        let ghost p = |i: int| float_reading_of(t[i], v[i]) is Some && read@[i];
        let n = titles.len();
        let mut rows: Vec<usize> = Vec::new();
        let mut i: usize = 0;
        while i < n
            invariant
                n == titles.len(),
                n <= values.len(),
                n == read.len(),
                t == titles.deep_view(),
                v == values.deep_view(),
                p == (|i: int| float_reading_of(t[i], v[i]) is Some && read@[i]),
                i <= n,
                rows@ == select(i as int, p),
            decreases n - i,
        {
            proof {
                assert(titles[i as int]@ == t[i as int]);
                assert(values[i as int]@ == v[i as int]);
            }
            let reading = float_reading(titles[i].as_str(), values[i].as_str());
            if reading.is_some() && read[i] {
                rows.push(i);
            }
            i = i + 1;
        }
        proof {
            let never = |i: int| false;
            lemma_disjoint_selections(n as int, p, never);
            lemma_select_none(n as int, never);
            assert(select(n as int, p) + select(n as int, never) =~= select(n as int, p));
            assert(v.len() == values.len());
            lemma_rows_removed_from_columns(t, v, rows@);
        }
        self.remove_parsed_indexes(titles, values, &mut rows);
    }

    /// Runs the last readers of the table in turn, each on the rows that the
    /// ones before left: the text characteristics, the variant
    /// characteristics, the supported technologies; then drops the rows that
    /// are not read. What stays in the columns is what no reader took.
    pub fn take_rest_characteristics(
        &self,
        external_id: &str,
        titles: &mut Vec<String>,
        values: &mut Vec<String>,
    ) -> (res: (Vec<StringCharacteristic>, Vec<EnumCharacteristic>))
        requires
            old(titles).len() <= old(values).len(),
        ensures
            res.0@.map_values(|c: StringCharacteristic| c@) == table_rest(
                old(titles).deep_view(),
                old(values).deep_view(),
            ).0,
            res.1@ == table_rest(old(titles).deep_view(), old(values).deep_view()).1,
            final(titles).deep_view() == table_rest(old(titles).deep_view(), old(values).deep_view()).2,
            final(values).deep_view() == table_rest(old(titles).deep_view(), old(values).deep_view()).3,
    {
        let ghost t0 = titles.deep_view();
        let ghost v0 = values.deep_view();
        let (strings, mut rows) = self.extract_string_characteristics(external_id, titles, values);
        let n0 = titles.len();
        proof {
            assert(t0.len() == n0);
            lemma_single_rows_removable(t0, v0);
            assert(v0.len() == values.len());
            lemma_rows_removed_from_columns(t0, v0, rows@);
        }
        self.remove_parsed_indexes(titles, values, &mut rows);
        let ghost t1 = titles.deep_view();
        let ghost v1 = values.deep_view();
        let (mut enums, mut rows) = self.extract_enum_characteristics(external_id, titles, values);
        let n1 = titles.len();
        proof {
            assert(t1.len() == n1);
            lemma_enum_parsed_rows_removable(t1, v1);
            assert(v1.len() == values.len());
            lemma_rows_removed_from_columns(t1, v1, rows@);
        }
        self.remove_parsed_indexes(titles, values, &mut rows);
        let ghost t2 = titles.deep_view();
        let ghost v2 = values.deep_view();
        let (mut technologies, mut rows) = self.extract_technology_characteristics(
            external_id,
            titles,
            values,
        );
        let n2 = titles.len();
        proof {
            assert(t2.len() == n2);
            lemma_single_rows_removable(t2, v2);
            assert(v2.len() == values.len());
            lemma_rows_removed_from_columns(t2, v2, rows@);
        }
        self.remove_parsed_indexes(titles, values, &mut rows);
        let ghost before = enums@;
        enums.append(&mut technologies);
        let ghost t3 = titles.deep_view();
        let ghost v3 = values.deep_view();
        let mut rows = self.skip_unneeded_characteristics(titles);
        let n3 = titles.len();
        proof {
            assert(t3.len() == n3);
            lemma_single_rows_removable(t3, v3);
            assert(v3.len() == values.len());
            lemma_rows_removed_from_columns(t3, v3, rows@);
        }
        self.remove_parsed_indexes(titles, values, &mut rows);
        (strings, enums)
    }
}

} // verus!
