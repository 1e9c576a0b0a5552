//! Readers of characteristic values, and the reading of comma-separated lists
//! of them.
pub mod bool_value_parser;
pub mod float_value_parser;
pub mod int_value_parser;
pub mod string_value_parser;

use vstd::prelude::*;
use crate::db::entity::source::SourceName;
use crate::dto::characteristic::enum_characteristic::{AudioJack, BatteryType, ChargingConnectorType, Country, DisplayType, InternetConnectionTechnology, Material, MediaFormat, MemoryCardSlot, SatelliteNavigation, SimCard, WifiStandard};
use crate::text::{split, split_text};
use string_value_parser::{audio_jack_of, battery_type_of, charging_connector_type_of, country_of, display_type_of, internet_connection_technology_of, material_of, media_format_of, memory_card_slot_of, satellite_navigation_of, sim_card_of, wifi_standard_of, string_audio_jack_value, string_battery_type_value, string_charging_connector_type_value, string_country_value, string_display_type_value, string_internet_connection_technology_value, string_material_value, string_media_format_value, string_memory_card_slot_value, string_satellite_navigation_value, string_sim_card_value, string_wifi_standard_value};
use crate::text::trim;

verus! {

/// Where a characteristic value comes from: the title it stands under, the
/// product it belongs to and the shop.
pub struct CharacteristicParsingContext<'root> {
    pub title: &'root str,
    pub external_id: &'root str,
    pub source: SourceName,
}

/// A reader of one kind of characteristic value from its text.
pub trait ValueParser {
    type Value;

    /// The value that the text reads as, if any.
    spec fn reads(&self, text: Seq<char>) -> Option<Self::Value>;

    fn parse(&self, value: &str) -> (res: Option<Self::Value>)
        ensures
            res == self.reads(value@),
    ;
}

/// Reads one value with `parser`; a text that does not read gives `None`.
pub fn parse_and_capture<P: ValueParser>(
    context: &CharacteristicParsingContext,
    value: &str,
    parser: &P,
) -> (res: Option<P::Value>)
    ensures
        res == parser.reads(value@),
{
    parser.parse(value)
}

/// The values that the comma-separated pieces of `value` read as, in order;
/// the pieces that do not read are skipped.
pub open spec fn multiple_reads<P: ValueParser>(parser: &P, value: Seq<char>) -> Seq<P::Value> {
    split(value, ","@).filter_map(|piece: Seq<char>| parser.reads(piece))
}

/// Reads every comma-separated value of a characteristic with `parser`.
pub fn multiple_parse_and_capture<P: ValueParser>(
    context: &CharacteristicParsingContext,
    value: &str,
    parser: &P,
) -> (res: Vec<P::Value>)
    ensures
        res@ == multiple_reads(parser, value@),
{
    proof {
        reveal_strlit(",");
    }
    let pieces = split_text(value, ",");
    let ghost ps = split(value@, ","@);
    let mut values: Vec<P::Value> = Vec::new();
    let mut i: usize = 0;
    while i < pieces.len()
        invariant
            pieces.deep_view() == ps,
            ps == split(value@, ","@),
            i <= pieces.len(),
            values@ == ps.take(i as int).filter_map(|piece: Seq<char>| parser.reads(piece)),
        decreases pieces.len() - i,
    {
        let parsed = parse_and_capture(context, pieces[i].as_str(), parser);
        proof {
            assert(pieces[i as int]@ == ps[i as int]);
            ps.lemma_filter_map_take_succ(|piece: Seq<char>| parser.reads(piece), i as int);
        }
        if let Some(v) = parsed {
            values.push(v);
        }
        i = i + 1;
    }
    proof {
        assert(ps.take(pieces.len() as int) =~= ps);
    }
    values
}

/// Reads a `SimCard` with `string_sim_card_value`.
pub struct SimCardParser;

impl ValueParser for SimCardParser {
    type Value = SimCard;

    open spec fn reads(&self, text: Seq<char>) -> Option<SimCard> {
        sim_card_of(trim(text))
    }

    fn parse(&self, value: &str) -> (res: Option<SimCard>) {
        string_sim_card_value(value)
    }
}

/// Reads a `MediaFormat` with `string_media_format_value`.
pub struct MediaFormatParser;

impl ValueParser for MediaFormatParser {
    type Value = MediaFormat;

    open spec fn reads(&self, text: Seq<char>) -> Option<MediaFormat> {
        media_format_of(trim(text))
    }

    fn parse(&self, value: &str) -> (res: Option<MediaFormat>) {
        string_media_format_value(value)
    }
}

/// Reads a `InternetConnectionTechnology` with `string_internet_connection_technology_value`.
pub struct InternetConnectionTechnologyParser;

impl ValueParser for InternetConnectionTechnologyParser {
    type Value = InternetConnectionTechnology;

    open spec fn reads(&self, text: Seq<char>) -> Option<InternetConnectionTechnology> {
        internet_connection_technology_of(trim(text))
    }

    fn parse(&self, value: &str) -> (res: Option<InternetConnectionTechnology>) {
        string_internet_connection_technology_value(value)
    }
}

/// Reads a `SatelliteNavigation` with `string_satellite_navigation_value`.
pub struct SatelliteNavigationParser;

impl ValueParser for SatelliteNavigationParser {
    type Value = SatelliteNavigation;

    open spec fn reads(&self, text: Seq<char>) -> Option<SatelliteNavigation> {
        satellite_navigation_of(trim(text))
    }

    fn parse(&self, value: &str) -> (res: Option<SatelliteNavigation>) {
        string_satellite_navigation_value(value)
    }
}

/// Reads a `WifiStandard` with `string_wifi_standard_value`.
pub struct WifiStandardParser;

impl ValueParser for WifiStandardParser {
    type Value = WifiStandard;

    open spec fn reads(&self, text: Seq<char>) -> Option<WifiStandard> {
        wifi_standard_of(trim(text))
    }

    fn parse(&self, value: &str) -> (res: Option<WifiStandard>) {
        string_wifi_standard_value(value)
    }
}

/// Reads a `Material` with `string_material_value`.
pub struct MaterialParser;

impl ValueParser for MaterialParser {
    type Value = Material;

    open spec fn reads(&self, text: Seq<char>) -> Option<Material> {
        material_of(trim(text))
    }

    fn parse(&self, value: &str) -> (res: Option<Material>) {
        string_material_value(value)
    }
}

/// Reads a `ChargingConnectorType` with `string_charging_connector_type_value`.
pub struct ChargingConnectorTypeParser;

impl ValueParser for ChargingConnectorTypeParser {
    type Value = ChargingConnectorType;

    open spec fn reads(&self, text: Seq<char>) -> Option<ChargingConnectorType> {
        charging_connector_type_of(trim(text))
    }

    fn parse(&self, value: &str) -> (res: Option<ChargingConnectorType>) {
        string_charging_connector_type_value(value)
    }
}

/// Reads a `MemoryCardSlot` with `string_memory_card_slot_value`.
pub struct MemoryCardSlotParser;

impl ValueParser for MemoryCardSlotParser {
    type Value = MemoryCardSlot;

    open spec fn reads(&self, text: Seq<char>) -> Option<MemoryCardSlot> {
        memory_card_slot_of(trim(text))
    }

    fn parse(&self, value: &str) -> (res: Option<MemoryCardSlot>) {
        string_memory_card_slot_value(value)
    }
}

/// Reads a `Country` with `string_country_value`.
pub struct CountryParser;

impl ValueParser for CountryParser {
    type Value = Country;

    open spec fn reads(&self, text: Seq<char>) -> Option<Country> {
        country_of(trim(text))
    }

    fn parse(&self, value: &str) -> (res: Option<Country>) {
        string_country_value(value)
    }
}

/// Reads a `AudioJack` with `string_audio_jack_value`.
pub struct AudioJackParser;

impl ValueParser for AudioJackParser {
    type Value = AudioJack;

    open spec fn reads(&self, text: Seq<char>) -> Option<AudioJack> {
        audio_jack_of(trim(text))
    }

    fn parse(&self, value: &str) -> (res: Option<AudioJack>) {
        string_audio_jack_value(value)
    }
}

/// Reads a `BatteryType` with `string_battery_type_value`.
pub struct BatteryTypeParser;

impl ValueParser for BatteryTypeParser {
    type Value = BatteryType;

    open spec fn reads(&self, text: Seq<char>) -> Option<BatteryType> {
        battery_type_of(trim(text))
    }

    fn parse(&self, value: &str) -> (res: Option<BatteryType>) {
        string_battery_type_value(value)
    }
}

/// Reads a `DisplayType` with `string_display_type_value`.
pub struct DisplayTypeParser;

impl ValueParser for DisplayTypeParser {
    type Value = DisplayType;

    open spec fn reads(&self, text: Seq<char>) -> Option<DisplayType> {
        display_type_of(trim(text))
    }

    fn parse(&self, value: &str) -> (res: Option<DisplayType>) {
        string_display_type_value(value)
    }
}

} // verus!
