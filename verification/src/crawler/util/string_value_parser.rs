//! Readers of the characteristics whose value is one of a fixed set of
//! variants: the trimmed text is looked up in a table.
use vstd::prelude::*;
use crate::dto::characteristic::enum_characteristic::{AudioJack, BatteryType, ChargingConnectorType, Country, DisplayType, InternetConnectionTechnology, Material, MediaFormat, MemoryCardSlot, SatelliteNavigation, SimCard, WifiStandard};
use crate::text::{trim, trim_text, text_eq};

verus! {

/// The text of `value` without surrounding white space.
pub fn string_value(value: &str) -> (res: String)
    ensures
        res@ == trim(value@),
{
    String::from_str(trim_text(value))
}

/// The `MediaFormat` that the trimmed text `t` names, if any.
pub open spec fn media_format_of(t: Seq<char>) -> Option<MediaFormat> {
    if t == "MP4"@ {
        Some(MediaFormat::MP4)
    } else if t == "M4V"@ {
        Some(MediaFormat::M4V)
    } else if t == "MKV"@ {
        Some(MediaFormat::MKV)
    } else if t == "XVID"@ {
        Some(MediaFormat::XVID)
    } else if t == "WAV"@ {
        Some(MediaFormat::WAV)
    } else if t == "AAC"@ {
        Some(MediaFormat::AAC)
    } else if t == "MP3"@ {
        Some(MediaFormat::MP3)
    } else if t == "AMR"@ {
        Some(MediaFormat::AMR)
    } else if t == "FLAC"@ {
        Some(MediaFormat::FLAC)
    } else if t == "APE"@ {
        Some(MediaFormat::APE)
    } else if t == "AAC+"@ || t == "AAC +"@ {
        Some(MediaFormat::AAC_plus)
    } else if t == "eAAC+"@ || t == "eAAC +"@ {
        Some(MediaFormat::eAAC_plus)
    } else if t == "AMR-NB"@ || t == "AMR - NB"@ {
        Some(MediaFormat::AMR_NB)
    } else if t == "WB"@ {
        Some(MediaFormat::WB)
    } else if t == "PCM"@ {
        Some(MediaFormat::PCM)
    } else if t == "H.263"@ || t == "H263"@ {
        Some(MediaFormat::H263)
    } else if t == "H.264"@ || t == "H264"@ {
        Some(MediaFormat::H264)
    } else if t == "H.265"@ || t == "HEVC"@ {
        Some(MediaFormat::H265)
    } else if t == "MPEG4"@ {
        Some(MediaFormat::MPEG4)
    } else if t == "ASF"@ {
        Some(MediaFormat::ASF)
    } else if t == "WMV"@ {
        Some(MediaFormat::WMV)
    } else if t == "3GI"@ {
        Some(MediaFormat::_3GI)
    } else if t == "WEBM"@ {
        Some(MediaFormat::WEBM)
    } else if t == "FLV"@ {
        Some(MediaFormat::FLV)
    } else if t == "MIDI"@ {
        Some(MediaFormat::MIDI)
    } else if t == "WAVE"@ {
        Some(MediaFormat::WAVE)
    } else if t == "Opus"@ {
        Some(MediaFormat::Opus)
    } else if t == "VC-1"@ {
        Some(MediaFormat::VC1)
    } else if t == "AMR–NB"@ {
        Some(MediaFormat::AMR_NB)
    } else if t == "DSF"@ {
        Some(MediaFormat::DSF)
    } else if t == "M4A"@ {
        Some(MediaFormat::M4A)
    } else if t == "OGG"@ {
        Some(MediaFormat::OGG)
    } else if t == "WMA"@ {
        Some(MediaFormat::WMA)
    } else if t == "AWB"@ {
        Some(MediaFormat::AWB)
    } else {
        None
    }
}

/// Reads a `MediaFormat` from the text of a characteristic.
pub fn string_media_format_value(value: &str) -> (res: Option<MediaFormat>)
    ensures
        res == media_format_of(trim(value@)),
{
    let t = trim_text(value);
    if text_eq(t, "MP4") {
        Some(MediaFormat::MP4)
    } else if text_eq(t, "M4V") {
        Some(MediaFormat::M4V)
    } else if text_eq(t, "MKV") {
        Some(MediaFormat::MKV)
    } else if text_eq(t, "XVID") {
        Some(MediaFormat::XVID)
    } else if text_eq(t, "WAV") {
        Some(MediaFormat::WAV)
    } else if text_eq(t, "AAC") {
        Some(MediaFormat::AAC)
    } else if text_eq(t, "MP3") {
        Some(MediaFormat::MP3)
    } else if text_eq(t, "AMR") {
        Some(MediaFormat::AMR)
    } else if text_eq(t, "FLAC") {
        Some(MediaFormat::FLAC)
    } else if text_eq(t, "APE") {
        Some(MediaFormat::APE)
    } else if text_eq(t, "AAC+") || text_eq(t, "AAC +") {
        Some(MediaFormat::AAC_plus)
    } else if text_eq(t, "eAAC+") || text_eq(t, "eAAC +") {
        Some(MediaFormat::eAAC_plus)
    } else if text_eq(t, "AMR-NB") || text_eq(t, "AMR - NB") {
        Some(MediaFormat::AMR_NB)
    } else if text_eq(t, "WB") {
        Some(MediaFormat::WB)
    } else if text_eq(t, "PCM") {
        Some(MediaFormat::PCM)
    } else if text_eq(t, "H.263") || text_eq(t, "H263") {
        Some(MediaFormat::H263)
    } else if text_eq(t, "H.264") || text_eq(t, "H264") {
        Some(MediaFormat::H264)
    } else if text_eq(t, "H.265") || text_eq(t, "HEVC") {
        Some(MediaFormat::H265)
    } else if text_eq(t, "MPEG4") {
        Some(MediaFormat::MPEG4)
    } else if text_eq(t, "ASF") {
        Some(MediaFormat::ASF)
    } else if text_eq(t, "WMV") {
        Some(MediaFormat::WMV)
    } else if text_eq(t, "3GI") {
        Some(MediaFormat::_3GI)
    } else if text_eq(t, "WEBM") {
        Some(MediaFormat::WEBM)
    } else if text_eq(t, "FLV") {
        Some(MediaFormat::FLV)
    } else if text_eq(t, "MIDI") {
        Some(MediaFormat::MIDI)
    } else if text_eq(t, "WAVE") {
        Some(MediaFormat::WAVE)
    } else if text_eq(t, "Opus") {
        Some(MediaFormat::Opus)
    } else if text_eq(t, "VC-1") {
        Some(MediaFormat::VC1)
    } else if text_eq(t, "AMR–NB") {
        Some(MediaFormat::AMR_NB)
    } else if text_eq(t, "DSF") {
        Some(MediaFormat::DSF)
    } else if text_eq(t, "M4A") {
        Some(MediaFormat::M4A)
    } else if text_eq(t, "OGG") {
        Some(MediaFormat::OGG)
    } else if text_eq(t, "WMA") {
        Some(MediaFormat::WMA)
    } else if text_eq(t, "AWB") {
        Some(MediaFormat::AWB)
    } else {
        None
    }
}

/// The `InternetConnectionTechnology` that the trimmed text `t` names, if any.
pub open spec fn internet_connection_technology_of(t: Seq<char>) -> Option<InternetConnectionTechnology> {
    if t == "GPRS"@ {
        Some(InternetConnectionTechnology::GPRS)
    } else if t == "EDGE"@ {
        Some(InternetConnectionTechnology::EDGE)
    } else if t == "3G"@ {
        Some(InternetConnectionTechnology::_3G)
    } else if t == "4G"@ {
        Some(InternetConnectionTechnology::_4G)
    } else if t == "5G"@ {
        Some(InternetConnectionTechnology::_5G)
    } else {
        None
    }
}

/// Reads a `InternetConnectionTechnology` from the text of a characteristic.
pub fn string_internet_connection_technology_value(value: &str) -> (res: Option<InternetConnectionTechnology>)
    ensures
        res == internet_connection_technology_of(trim(value@)),
{
    let t = trim_text(value);
    if text_eq(t, "GPRS") {
        Some(InternetConnectionTechnology::GPRS)
    } else if text_eq(t, "EDGE") {
        Some(InternetConnectionTechnology::EDGE)
    } else if text_eq(t, "3G") {
        Some(InternetConnectionTechnology::_3G)
    } else if text_eq(t, "4G") {
        Some(InternetConnectionTechnology::_4G)
    } else if text_eq(t, "5G") {
        Some(InternetConnectionTechnology::_5G)
    } else {
        None
    }
}

/// The `SatelliteNavigation` that the trimmed text `t` names, if any.
pub open spec fn satellite_navigation_of(t: Seq<char>) -> Option<SatelliteNavigation> {
    if t == "GPS"@ {
        Some(SatelliteNavigation::GPS)
    } else if t == "A-GPS"@ {
        Some(SatelliteNavigation::A_GPS)
    } else if t == "ГЛОНАСС"@ {
        Some(SatelliteNavigation::GLONASS)
    } else if t == "Galileo"@ {
        Some(SatelliteNavigation::Galileo)
    } else if t == "BeiDou"@ {
        Some(SatelliteNavigation::BeiDou)
    } else {
        None
    }
}

/// Reads a `SatelliteNavigation` from the text of a characteristic.
pub fn string_satellite_navigation_value(value: &str) -> (res: Option<SatelliteNavigation>)
    ensures
        res == satellite_navigation_of(trim(value@)),
{
    let t = trim_text(value);
    if text_eq(t, "GPS") {
        Some(SatelliteNavigation::GPS)
    } else if text_eq(t, "A-GPS") {
        Some(SatelliteNavigation::A_GPS)
    } else if text_eq(t, "ГЛОНАСС") {
        Some(SatelliteNavigation::GLONASS)
    } else if text_eq(t, "Galileo") {
        Some(SatelliteNavigation::Galileo)
    } else if text_eq(t, "BeiDou") {
        Some(SatelliteNavigation::BeiDou)
    } else {
        None
    }
}

/// The `WifiStandard` that the trimmed text `t` names, if any.
pub open spec fn wifi_standard_of(t: Seq<char>) -> Option<WifiStandard> {
    if t == "n"@ {
        Some(WifiStandard::_4)
    } else if t == "ac"@ {
        Some(WifiStandard::_5)
    } else if t == "ax"@ {
        Some(WifiStandard::_6)
    } else if t == "be"@ {
        Some(WifiStandard::_7)
    } else if t == "a"@ {
        Some(WifiStandard::A)
    } else if t == "b"@ {
        Some(WifiStandard::B)
    } else if t == "g"@ {
        Some(WifiStandard::G)
    } else if t == "gc"@ {
        Some(WifiStandard::GC)
    } else {
        None
    }
}

/// Reads a `WifiStandard` from the text of a characteristic.
pub fn string_wifi_standard_value(value: &str) -> (res: Option<WifiStandard>)
    ensures
        res == wifi_standard_of(trim(value@)),
{
    let t = trim_text(value);
    if text_eq(t, "n") {
        Some(WifiStandard::_4)
    } else if text_eq(t, "ac") {
        Some(WifiStandard::_5)
    } else if text_eq(t, "ax") {
        Some(WifiStandard::_6)
    } else if text_eq(t, "be") {
        Some(WifiStandard::_7)
    } else if text_eq(t, "a") {
        Some(WifiStandard::A)
    } else if text_eq(t, "b") {
        Some(WifiStandard::B)
    } else if text_eq(t, "g") {
        Some(WifiStandard::G)
    } else if text_eq(t, "gc") {
        Some(WifiStandard::GC)
    } else {
        None
    }
}

/// The `Material` that the trimmed text `t` names, if any.
pub open spec fn material_of(t: Seq<char>) -> Option<Material> {
    if t == "Металл"@ {
        Some(Material::Metal)
    } else if t == "Стекло"@ {
        Some(Material::Glass)
    } else if t == "Пластик"@ {
        Some(Material::Plastic)
    } else if t == "Алюминий"@ {
        Some(Material::Aluminum)
    } else if t == "Керамика"@ {
        Some(Material::Ceramics)
    } else {
        None
    }
}

/// Reads a `Material` from the text of a characteristic.
pub fn string_material_value(value: &str) -> (res: Option<Material>)
    ensures
        res == material_of(trim(value@)),
{
    let t = trim_text(value);
    if text_eq(t, "Металл") {
        Some(Material::Metal)
    } else if text_eq(t, "Стекло") {
        Some(Material::Glass)
    } else if text_eq(t, "Пластик") {
        Some(Material::Plastic)
    } else if text_eq(t, "Алюминий") {
        Some(Material::Aluminum)
    } else if text_eq(t, "Керамика") {
        Some(Material::Ceramics)
    } else {
        None
    }
}

/// The `SimCard` that the trimmed text `t` names, if any.
pub open spec fn sim_card_of(t: Seq<char>) -> Option<SimCard> {
    if t == "nano-SIM"@ {
        Some(SimCard::Nano)
    } else if t == "micro-SIM"@ {
        Some(SimCard::Micro)
    } else if t == "mini-SIM"@ {
        Some(SimCard::Mini)
    } else {
        None
    }
}

/// Reads a `SimCard` from the text of a characteristic.
pub fn string_sim_card_value(value: &str) -> (res: Option<SimCard>)
    ensures
        res == sim_card_of(trim(value@)),
{
    let t = trim_text(value);
    if text_eq(t, "nano-SIM") {
        Some(SimCard::Nano)
    } else if text_eq(t, "micro-SIM") {
        Some(SimCard::Micro)
    } else if text_eq(t, "mini-SIM") {
        Some(SimCard::Mini)
    } else {
        None
    }
}

/// The `ChargingConnectorType` that the trimmed text `t` names, if any.
pub open spec fn charging_connector_type_of(t: Seq<char>) -> Option<ChargingConnectorType> {
    if t == "USB Type-C"@ {
        Some(ChargingConnectorType::USBTypeC)
    } else if t == "Micro-USB"@ {
        Some(ChargingConnectorType::MicroUSB)
    } else {
        None
    }
}

/// Reads a `ChargingConnectorType` from the text of a characteristic.
pub fn string_charging_connector_type_value(value: &str) -> (res: Option<ChargingConnectorType>)
    ensures
        res == charging_connector_type_of(trim(value@)),
{
    let t = trim_text(value);
    if text_eq(t, "USB Type-C") {
        Some(ChargingConnectorType::USBTypeC)
    } else if text_eq(t, "Micro-USB") {
        Some(ChargingConnectorType::MicroUSB)
    } else {
        None
    }
}

/// The `Country` that the trimmed text `t` names, if any.
pub open spec fn country_of(t: Seq<char>) -> Option<Country> {
    if t == "Китай"@ {
        Some(Country::China)
    } else {
        None
    }
}

/// Reads a `Country` from the text of a characteristic.
pub fn string_country_value(value: &str) -> (res: Option<Country>)
    ensures
        res == country_of(trim(value@)),
{
    let t = trim_text(value);
    if text_eq(t, "Китай") {
        Some(Country::China)
    } else {
        None
    }
}

/// The `MemoryCardSlot` that the trimmed text `t` names, if any.
pub open spec fn memory_card_slot_of(t: Seq<char>) -> Option<MemoryCardSlot> {
    if t == "Гибридный"@ {
        Some(MemoryCardSlot::Hybrid)
    } else if t == "Отдельный"@ {
        Some(MemoryCardSlot::Separate)
    } else if t == "Отсутствует"@ {
        Some(MemoryCardSlot::Absent)
    } else {
        None
    }
}

/// Reads a `MemoryCardSlot` from the text of a characteristic.
pub fn string_memory_card_slot_value(value: &str) -> (res: Option<MemoryCardSlot>)
    ensures
        res == memory_card_slot_of(trim(value@)),
{
    let t = trim_text(value);
    if text_eq(t, "Гибридный") {
        Some(MemoryCardSlot::Hybrid)
    } else if text_eq(t, "Отдельный") {
        Some(MemoryCardSlot::Separate)
    } else if text_eq(t, "Отсутствует") {
        Some(MemoryCardSlot::Absent)
    } else {
        None
    }
}

/// The `AudioJack` that the trimmed text `t` names, if any.
pub open spec fn audio_jack_of(t: Seq<char>) -> Option<AudioJack> {
    if t == "3.5"@ {
        Some(AudioJack::_3_5mm)
    } else if t == "USB Type-C"@ {
        Some(AudioJack::USBTypeC)
    } else {
        None
    }
}

/// Reads a `AudioJack` from the text of a characteristic.
pub fn string_audio_jack_value(value: &str) -> (res: Option<AudioJack>)
    ensures
        res == audio_jack_of(trim(value@)),
{
    let t = trim_text(value);
    if text_eq(t, "3.5") {
        Some(AudioJack::_3_5mm)
    } else if text_eq(t, "USB Type-C") {
        Some(AudioJack::USBTypeC)
    } else {
        None
    }
}

/// The `BatteryType` that the trimmed text `t` names, if any.
pub open spec fn battery_type_of(t: Seq<char>) -> Option<BatteryType> {
    if t == "Литий-полимерный"@ {
        Some(BatteryType::LithiumPolymer)
    } else if t == "Литий-ионный"@ {
        Some(BatteryType::LithiumIon)
    } else {
        None
    }
}

/// Reads a `BatteryType` from the text of a characteristic.
pub fn string_battery_type_value(value: &str) -> (res: Option<BatteryType>)
    ensures
        res == battery_type_of(trim(value@)),
{
    let t = trim_text(value);
    if text_eq(t, "Литий-полимерный") {
        Some(BatteryType::LithiumPolymer)
    } else if text_eq(t, "Литий-ионный") {
        Some(BatteryType::LithiumIon)
    } else {
        None
    }
}

/// The `DisplayType` that the trimmed text `t` names, if any.
pub open spec fn display_type_of(t: Seq<char>) -> Option<DisplayType> {
    if t == "AMOLED"@ {
        Some(DisplayType::Amoled)
    } else if t == "OLED"@ {
        Some(DisplayType::Oled)
    } else if t == "IPS"@ {
        Some(DisplayType::IPS)
    } else {
        None
    }
}

/// Reads a `DisplayType` from the text of a characteristic.
pub fn string_display_type_value(value: &str) -> (res: Option<DisplayType>)
    ensures
        res == display_type_of(trim(value@)),
{
    let t = trim_text(value);
    if text_eq(t, "AMOLED") {
        Some(DisplayType::Amoled)
    } else if text_eq(t, "OLED") {
        Some(DisplayType::Oled)
    } else if text_eq(t, "IPS") {
        Some(DisplayType::IPS)
    } else {
        None
    }
}

/// Each `MediaFormat` is read from exactly its own texts, and no other text
/// reads as a `MediaFormat`.
pub proof fn lemma_media_format_texts(t: Seq<char>)
    ensures
        media_format_of(t) == Some(MediaFormat::MP4) <==> (t == "MP4"@),
        media_format_of(t) == Some(MediaFormat::M4V) <==> (t == "M4V"@),
        media_format_of(t) == Some(MediaFormat::MKV) <==> (t == "MKV"@),
        media_format_of(t) == Some(MediaFormat::XVID) <==> (t == "XVID"@),
        media_format_of(t) == Some(MediaFormat::WAV) <==> (t == "WAV"@),
        media_format_of(t) == Some(MediaFormat::AAC) <==> (t == "AAC"@),
        media_format_of(t) == Some(MediaFormat::MP3) <==> (t == "MP3"@),
        media_format_of(t) == Some(MediaFormat::AMR) <==> (t == "AMR"@),
        media_format_of(t) == Some(MediaFormat::FLAC) <==> (t == "FLAC"@),
        media_format_of(t) == Some(MediaFormat::APE) <==> (t == "APE"@),
        media_format_of(t) == Some(MediaFormat::AAC_plus) <==> (t == "AAC+"@ || t == "AAC +"@),
        media_format_of(t) == Some(MediaFormat::eAAC_plus) <==> (t == "eAAC+"@ || t == "eAAC +"@),
        media_format_of(t) == Some(MediaFormat::AMR_NB) <==> (t == "AMR-NB"@ || t == "AMR - NB"@ || t == "AMR–NB"@),
        media_format_of(t) == Some(MediaFormat::WB) <==> (t == "WB"@),
        media_format_of(t) == Some(MediaFormat::PCM) <==> (t == "PCM"@),
        media_format_of(t) == Some(MediaFormat::H263) <==> (t == "H.263"@ || t == "H263"@),
        media_format_of(t) == Some(MediaFormat::H264) <==> (t == "H.264"@ || t == "H264"@),
        media_format_of(t) == Some(MediaFormat::H265) <==> (t == "H.265"@ || t == "HEVC"@),
        media_format_of(t) == Some(MediaFormat::MPEG4) <==> (t == "MPEG4"@),
        media_format_of(t) == Some(MediaFormat::ASF) <==> (t == "ASF"@),
        media_format_of(t) == Some(MediaFormat::WMV) <==> (t == "WMV"@),
        media_format_of(t) == Some(MediaFormat::_3GI) <==> (t == "3GI"@),
        media_format_of(t) == Some(MediaFormat::WEBM) <==> (t == "WEBM"@),
        media_format_of(t) == Some(MediaFormat::FLV) <==> (t == "FLV"@),
        media_format_of(t) == Some(MediaFormat::MIDI) <==> (t == "MIDI"@),
        media_format_of(t) == Some(MediaFormat::WAVE) <==> (t == "WAVE"@),
        media_format_of(t) == Some(MediaFormat::Opus) <==> (t == "Opus"@),
        media_format_of(t) == Some(MediaFormat::VC1) <==> (t == "VC-1"@),
        media_format_of(t) == Some(MediaFormat::DSF) <==> (t == "DSF"@),
        media_format_of(t) == Some(MediaFormat::M4A) <==> (t == "M4A"@),
        media_format_of(t) == Some(MediaFormat::OGG) <==> (t == "OGG"@),
        media_format_of(t) == Some(MediaFormat::WMA) <==> (t == "WMA"@),
        media_format_of(t) == Some(MediaFormat::AWB) <==> (t == "AWB"@),
        media_format_of(t) is None <==> !(t == "MP4"@ || t == "M4V"@ || t == "MKV"@ || t == "XVID"@ || t == "WAV"@ || t == "AAC"@ || t == "MP3"@ || t == "AMR"@ || t == "FLAC"@ || t == "APE"@ || t == "AAC+"@ || t == "AAC +"@ || t == "eAAC+"@ || t == "eAAC +"@ || t == "AMR-NB"@ || t == "AMR - NB"@ || t == "WB"@ || t == "PCM"@ || t == "H.263"@ || t == "H263"@ || t == "H.264"@ || t == "H264"@ || t == "H.265"@ || t == "HEVC"@ || t == "MPEG4"@ || t == "ASF"@ || t == "WMV"@ || t == "3GI"@ || t == "WEBM"@ || t == "FLV"@ || t == "MIDI"@ || t == "WAVE"@ || t == "Opus"@ || t == "VC-1"@ || t == "AMR–NB"@ || t == "DSF"@ || t == "M4A"@ || t == "OGG"@ || t == "WMA"@ || t == "AWB"@),
{
    reveal_strlit("MP4");
    reveal_strlit("M4V");
    reveal_strlit("MKV");
    reveal_strlit("XVID");
    reveal_strlit("WAV");
    reveal_strlit("AAC");
    reveal_strlit("MP3");
    reveal_strlit("AMR");
    reveal_strlit("FLAC");
    reveal_strlit("APE");
    reveal_strlit("AAC+");
    reveal_strlit("AAC +");
    reveal_strlit("eAAC+");
    reveal_strlit("eAAC +");
    reveal_strlit("AMR-NB");
    reveal_strlit("AMR - NB");
    reveal_strlit("WB");
    reveal_strlit("PCM");
    reveal_strlit("H.263");
    reveal_strlit("H263");
    reveal_strlit("H.264");
    reveal_strlit("H264");
    reveal_strlit("H.265");
    reveal_strlit("HEVC");
    reveal_strlit("MPEG4");
    reveal_strlit("ASF");
    reveal_strlit("WMV");
    reveal_strlit("3GI");
    reveal_strlit("WEBM");
    reveal_strlit("FLV");
    reveal_strlit("MIDI");
    reveal_strlit("WAVE");
    reveal_strlit("Opus");
    reveal_strlit("VC-1");
    reveal_strlit("AMR–NB");
    reveal_strlit("DSF");
    reveal_strlit("M4A");
    reveal_strlit("OGG");
    reveal_strlit("WMA");
    reveal_strlit("AWB");
    assert("MP4"@[1] != "M4V"@[1]);
    assert("MP4"@[1] != "MKV"@[1]);
    assert("MP4"@.len() != "XVID"@.len());
    assert("MP4"@[0] != "WAV"@[0]);
    assert("MP4"@[0] != "AAC"@[0]);
    assert("MP4"@[2] != "MP3"@[2]);
    assert("MP4"@[0] != "AMR"@[0]);
    assert("MP4"@.len() != "FLAC"@.len());
    assert("MP4"@[0] != "APE"@[0]);
    assert("MP4"@.len() != "AAC+"@.len());
    assert("MP4"@.len() != "AAC +"@.len());
    assert("MP4"@.len() != "eAAC+"@.len());
    assert("MP4"@.len() != "eAAC +"@.len());
    assert("MP4"@.len() != "AMR-NB"@.len());
    assert("MP4"@.len() != "AMR - NB"@.len());
    assert("MP4"@.len() != "AMR–NB"@.len());
    assert("MP4"@.len() != "WB"@.len());
    assert("MP4"@[0] != "PCM"@[0]);
    assert("MP4"@.len() != "H.263"@.len());
    assert("MP4"@.len() != "H263"@.len());
    assert("MP4"@.len() != "H.264"@.len());
    assert("MP4"@.len() != "H264"@.len());
    assert("MP4"@.len() != "H.265"@.len());
    assert("MP4"@.len() != "HEVC"@.len());
    assert("MP4"@.len() != "MPEG4"@.len());
    assert("MP4"@[0] != "ASF"@[0]);
    assert("MP4"@[0] != "WMV"@[0]);
    assert("MP4"@[0] != "3GI"@[0]);
    assert("MP4"@.len() != "WEBM"@.len());
    assert("MP4"@[0] != "FLV"@[0]);
    assert("MP4"@.len() != "MIDI"@.len());
    assert("MP4"@.len() != "WAVE"@.len());
    assert("MP4"@.len() != "Opus"@.len());
    assert("MP4"@.len() != "VC-1"@.len());
    assert("MP4"@[0] != "DSF"@[0]);
    assert("MP4"@[1] != "M4A"@[1]);
    assert("MP4"@[0] != "OGG"@[0]);
    assert("MP4"@[0] != "WMA"@[0]);
    assert("MP4"@[0] != "AWB"@[0]);
    assert("M4V"@[1] != "MKV"@[1]);
    assert("M4V"@.len() != "XVID"@.len());
    assert("M4V"@[0] != "WAV"@[0]);
    assert("M4V"@[0] != "AAC"@[0]);
    assert("M4V"@[1] != "MP3"@[1]);
    assert("M4V"@[0] != "AMR"@[0]);
    assert("M4V"@.len() != "FLAC"@.len());
    assert("M4V"@[0] != "APE"@[0]);
    assert("M4V"@.len() != "AAC+"@.len());
    assert("M4V"@.len() != "AAC +"@.len());
    assert("M4V"@.len() != "eAAC+"@.len());
    assert("M4V"@.len() != "eAAC +"@.len());
    assert("M4V"@.len() != "AMR-NB"@.len());
    assert("M4V"@.len() != "AMR - NB"@.len());
    assert("M4V"@.len() != "AMR–NB"@.len());
    assert("M4V"@.len() != "WB"@.len());
    assert("M4V"@[0] != "PCM"@[0]);
    assert("M4V"@.len() != "H.263"@.len());
    assert("M4V"@.len() != "H263"@.len());
    assert("M4V"@.len() != "H.264"@.len());
    assert("M4V"@.len() != "H264"@.len());
    assert("M4V"@.len() != "H.265"@.len());
    assert("M4V"@.len() != "HEVC"@.len());
    assert("M4V"@.len() != "MPEG4"@.len());
    assert("M4V"@[0] != "ASF"@[0]);
    assert("M4V"@[0] != "WMV"@[0]);
    assert("M4V"@[0] != "3GI"@[0]);
    assert("M4V"@.len() != "WEBM"@.len());
    assert("M4V"@[0] != "FLV"@[0]);
    assert("M4V"@.len() != "MIDI"@.len());
    assert("M4V"@.len() != "WAVE"@.len());
    assert("M4V"@.len() != "Opus"@.len());
    assert("M4V"@.len() != "VC-1"@.len());
    assert("M4V"@[0] != "DSF"@[0]);
    assert("M4V"@[2] != "M4A"@[2]);
    assert("M4V"@[0] != "OGG"@[0]);
    assert("M4V"@[0] != "WMA"@[0]);
    assert("M4V"@[0] != "AWB"@[0]);
    assert("MKV"@.len() != "XVID"@.len());
    assert("MKV"@[0] != "WAV"@[0]);
    assert("MKV"@[0] != "AAC"@[0]);
    assert("MKV"@[1] != "MP3"@[1]);
    assert("MKV"@[0] != "AMR"@[0]);
    assert("MKV"@.len() != "FLAC"@.len());
    assert("MKV"@[0] != "APE"@[0]);
    assert("MKV"@.len() != "AAC+"@.len());
    assert("MKV"@.len() != "AAC +"@.len());
    assert("MKV"@.len() != "eAAC+"@.len());
    assert("MKV"@.len() != "eAAC +"@.len());
    assert("MKV"@.len() != "AMR-NB"@.len());
    assert("MKV"@.len() != "AMR - NB"@.len());
    assert("MKV"@.len() != "AMR–NB"@.len());
    assert("MKV"@.len() != "WB"@.len());
    assert("MKV"@[0] != "PCM"@[0]);
    assert("MKV"@.len() != "H.263"@.len());
    assert("MKV"@.len() != "H263"@.len());
    assert("MKV"@.len() != "H.264"@.len());
    assert("MKV"@.len() != "H264"@.len());
    assert("MKV"@.len() != "H.265"@.len());
    assert("MKV"@.len() != "HEVC"@.len());
    assert("MKV"@.len() != "MPEG4"@.len());
    assert("MKV"@[0] != "ASF"@[0]);
    assert("MKV"@[0] != "WMV"@[0]);
    assert("MKV"@[0] != "3GI"@[0]);
    assert("MKV"@.len() != "WEBM"@.len());
    assert("MKV"@[0] != "FLV"@[0]);
    assert("MKV"@.len() != "MIDI"@.len());
    assert("MKV"@.len() != "WAVE"@.len());
    assert("MKV"@.len() != "Opus"@.len());
    assert("MKV"@.len() != "VC-1"@.len());
    assert("MKV"@[0] != "DSF"@[0]);
    assert("MKV"@[1] != "M4A"@[1]);
    assert("MKV"@[0] != "OGG"@[0]);
    assert("MKV"@[0] != "WMA"@[0]);
    assert("MKV"@[0] != "AWB"@[0]);
    assert("XVID"@.len() != "WAV"@.len());
    assert("XVID"@.len() != "AAC"@.len());
    assert("XVID"@.len() != "MP3"@.len());
    assert("XVID"@.len() != "AMR"@.len());
    assert("XVID"@[0] != "FLAC"@[0]);
    assert("XVID"@.len() != "APE"@.len());
    assert("XVID"@[0] != "AAC+"@[0]);
    assert("XVID"@.len() != "AAC +"@.len());
    assert("XVID"@.len() != "eAAC+"@.len());
    assert("XVID"@.len() != "eAAC +"@.len());
    assert("XVID"@.len() != "AMR-NB"@.len());
    assert("XVID"@.len() != "AMR - NB"@.len());
    assert("XVID"@.len() != "AMR–NB"@.len());
    assert("XVID"@.len() != "WB"@.len());
    assert("XVID"@.len() != "PCM"@.len());
    assert("XVID"@.len() != "H.263"@.len());
    assert("XVID"@[0] != "H263"@[0]);
    assert("XVID"@.len() != "H.264"@.len());
    assert("XVID"@[0] != "H264"@[0]);
    assert("XVID"@.len() != "H.265"@.len());
    assert("XVID"@[0] != "HEVC"@[0]);
    assert("XVID"@.len() != "MPEG4"@.len());
    assert("XVID"@.len() != "ASF"@.len());
    assert("XVID"@.len() != "WMV"@.len());
    assert("XVID"@.len() != "3GI"@.len());
    assert("XVID"@[0] != "WEBM"@[0]);
    assert("XVID"@.len() != "FLV"@.len());
    assert("XVID"@[0] != "MIDI"@[0]);
    assert("XVID"@[0] != "WAVE"@[0]);
    assert("XVID"@[0] != "Opus"@[0]);
    assert("XVID"@[0] != "VC-1"@[0]);
    assert("XVID"@.len() != "DSF"@.len());
    assert("XVID"@.len() != "M4A"@.len());
    assert("XVID"@.len() != "OGG"@.len());
    assert("XVID"@.len() != "WMA"@.len());
    assert("XVID"@.len() != "AWB"@.len());
    assert("WAV"@[0] != "AAC"@[0]);
    assert("WAV"@[0] != "MP3"@[0]);
    assert("WAV"@[0] != "AMR"@[0]);
    assert("WAV"@.len() != "FLAC"@.len());
    assert("WAV"@[0] != "APE"@[0]);
    assert("WAV"@.len() != "AAC+"@.len());
    assert("WAV"@.len() != "AAC +"@.len());
    assert("WAV"@.len() != "eAAC+"@.len());
    assert("WAV"@.len() != "eAAC +"@.len());
    assert("WAV"@.len() != "AMR-NB"@.len());
    assert("WAV"@.len() != "AMR - NB"@.len());
    assert("WAV"@.len() != "AMR–NB"@.len());
    assert("WAV"@.len() != "WB"@.len());
    assert("WAV"@[0] != "PCM"@[0]);
    assert("WAV"@.len() != "H.263"@.len());
    assert("WAV"@.len() != "H263"@.len());
    assert("WAV"@.len() != "H.264"@.len());
    assert("WAV"@.len() != "H264"@.len());
    assert("WAV"@.len() != "H.265"@.len());
    assert("WAV"@.len() != "HEVC"@.len());
    assert("WAV"@.len() != "MPEG4"@.len());
    assert("WAV"@[0] != "ASF"@[0]);
    assert("WAV"@[1] != "WMV"@[1]);
    assert("WAV"@[0] != "3GI"@[0]);
    assert("WAV"@.len() != "WEBM"@.len());
    assert("WAV"@[0] != "FLV"@[0]);
    assert("WAV"@.len() != "MIDI"@.len());
    assert("WAV"@.len() != "WAVE"@.len());
    assert("WAV"@.len() != "Opus"@.len());
    assert("WAV"@.len() != "VC-1"@.len());
    assert("WAV"@[0] != "DSF"@[0]);
    assert("WAV"@[0] != "M4A"@[0]);
    assert("WAV"@[0] != "OGG"@[0]);
    assert("WAV"@[1] != "WMA"@[1]);
    assert("WAV"@[0] != "AWB"@[0]);
    assert("AAC"@[0] != "MP3"@[0]);
    assert("AAC"@[1] != "AMR"@[1]);
    assert("AAC"@.len() != "FLAC"@.len());
    assert("AAC"@[1] != "APE"@[1]);
    assert("AAC"@.len() != "AAC+"@.len());
    assert("AAC"@.len() != "AAC +"@.len());
    assert("AAC"@.len() != "eAAC+"@.len());
    assert("AAC"@.len() != "eAAC +"@.len());
    assert("AAC"@.len() != "AMR-NB"@.len());
    assert("AAC"@.len() != "AMR - NB"@.len());
    assert("AAC"@.len() != "AMR–NB"@.len());
    assert("AAC"@.len() != "WB"@.len());
    assert("AAC"@[0] != "PCM"@[0]);
    assert("AAC"@.len() != "H.263"@.len());
    assert("AAC"@.len() != "H263"@.len());
    assert("AAC"@.len() != "H.264"@.len());
    assert("AAC"@.len() != "H264"@.len());
    assert("AAC"@.len() != "H.265"@.len());
    assert("AAC"@.len() != "HEVC"@.len());
    assert("AAC"@.len() != "MPEG4"@.len());
    assert("AAC"@[1] != "ASF"@[1]);
    assert("AAC"@[0] != "WMV"@[0]);
    assert("AAC"@[0] != "3GI"@[0]);
    assert("AAC"@.len() != "WEBM"@.len());
    assert("AAC"@[0] != "FLV"@[0]);
    assert("AAC"@.len() != "MIDI"@.len());
    assert("AAC"@.len() != "WAVE"@.len());
    assert("AAC"@.len() != "Opus"@.len());
    assert("AAC"@.len() != "VC-1"@.len());
    assert("AAC"@[0] != "DSF"@[0]);
    assert("AAC"@[0] != "M4A"@[0]);
    assert("AAC"@[0] != "OGG"@[0]);
    assert("AAC"@[0] != "WMA"@[0]);
    assert("AAC"@[1] != "AWB"@[1]);
    assert("MP3"@[0] != "AMR"@[0]);
    assert("MP3"@.len() != "FLAC"@.len());
    assert("MP3"@[0] != "APE"@[0]);
    assert("MP3"@.len() != "AAC+"@.len());
    assert("MP3"@.len() != "AAC +"@.len());
    assert("MP3"@.len() != "eAAC+"@.len());
    assert("MP3"@.len() != "eAAC +"@.len());
    assert("MP3"@.len() != "AMR-NB"@.len());
    assert("MP3"@.len() != "AMR - NB"@.len());
    assert("MP3"@.len() != "AMR–NB"@.len());
    assert("MP3"@.len() != "WB"@.len());
    assert("MP3"@[0] != "PCM"@[0]);
    assert("MP3"@.len() != "H.263"@.len());
    assert("MP3"@.len() != "H263"@.len());
    assert("MP3"@.len() != "H.264"@.len());
    assert("MP3"@.len() != "H264"@.len());
    assert("MP3"@.len() != "H.265"@.len());
    assert("MP3"@.len() != "HEVC"@.len());
    assert("MP3"@.len() != "MPEG4"@.len());
    assert("MP3"@[0] != "ASF"@[0]);
    assert("MP3"@[0] != "WMV"@[0]);
    assert("MP3"@[0] != "3GI"@[0]);
    assert("MP3"@.len() != "WEBM"@.len());
    assert("MP3"@[0] != "FLV"@[0]);
    assert("MP3"@.len() != "MIDI"@.len());
    assert("MP3"@.len() != "WAVE"@.len());
    assert("MP3"@.len() != "Opus"@.len());
    assert("MP3"@.len() != "VC-1"@.len());
    assert("MP3"@[0] != "DSF"@[0]);
    assert("MP3"@[1] != "M4A"@[1]);
    assert("MP3"@[0] != "OGG"@[0]);
    assert("MP3"@[0] != "WMA"@[0]);
    assert("MP3"@[0] != "AWB"@[0]);
    assert("AMR"@.len() != "FLAC"@.len());
    assert("AMR"@[1] != "APE"@[1]);
    assert("AMR"@.len() != "AAC+"@.len());
    assert("AMR"@.len() != "AAC +"@.len());
    assert("AMR"@.len() != "eAAC+"@.len());
    assert("AMR"@.len() != "eAAC +"@.len());
    assert("AMR"@.len() != "AMR-NB"@.len());
    assert("AMR"@.len() != "AMR - NB"@.len());
    assert("AMR"@.len() != "AMR–NB"@.len());
    assert("AMR"@.len() != "WB"@.len());
    assert("AMR"@[0] != "PCM"@[0]);
    assert("AMR"@.len() != "H.263"@.len());
    assert("AMR"@.len() != "H263"@.len());
    assert("AMR"@.len() != "H.264"@.len());
    assert("AMR"@.len() != "H264"@.len());
    assert("AMR"@.len() != "H.265"@.len());
    assert("AMR"@.len() != "HEVC"@.len());
    assert("AMR"@.len() != "MPEG4"@.len());
    assert("AMR"@[1] != "ASF"@[1]);
    assert("AMR"@[0] != "WMV"@[0]);
    assert("AMR"@[0] != "3GI"@[0]);
    assert("AMR"@.len() != "WEBM"@.len());
    assert("AMR"@[0] != "FLV"@[0]);
    assert("AMR"@.len() != "MIDI"@.len());
    assert("AMR"@.len() != "WAVE"@.len());
    assert("AMR"@.len() != "Opus"@.len());
    assert("AMR"@.len() != "VC-1"@.len());
    assert("AMR"@[0] != "DSF"@[0]);
    assert("AMR"@[0] != "M4A"@[0]);
    assert("AMR"@[0] != "OGG"@[0]);
    assert("AMR"@[0] != "WMA"@[0]);
    assert("AMR"@[1] != "AWB"@[1]);
    assert("FLAC"@.len() != "APE"@.len());
    assert("FLAC"@[0] != "AAC+"@[0]);
    assert("FLAC"@.len() != "AAC +"@.len());
    assert("FLAC"@.len() != "eAAC+"@.len());
    assert("FLAC"@.len() != "eAAC +"@.len());
    assert("FLAC"@.len() != "AMR-NB"@.len());
    assert("FLAC"@.len() != "AMR - NB"@.len());
    assert("FLAC"@.len() != "AMR–NB"@.len());
    assert("FLAC"@.len() != "WB"@.len());
    assert("FLAC"@.len() != "PCM"@.len());
    assert("FLAC"@.len() != "H.263"@.len());
    assert("FLAC"@[0] != "H263"@[0]);
    assert("FLAC"@.len() != "H.264"@.len());
    assert("FLAC"@[0] != "H264"@[0]);
    assert("FLAC"@.len() != "H.265"@.len());
    assert("FLAC"@[0] != "HEVC"@[0]);
    assert("FLAC"@.len() != "MPEG4"@.len());
    assert("FLAC"@.len() != "ASF"@.len());
    assert("FLAC"@.len() != "WMV"@.len());
    assert("FLAC"@.len() != "3GI"@.len());
    assert("FLAC"@[0] != "WEBM"@[0]);
    assert("FLAC"@.len() != "FLV"@.len());
    assert("FLAC"@[0] != "MIDI"@[0]);
    assert("FLAC"@[0] != "WAVE"@[0]);
    assert("FLAC"@[0] != "Opus"@[0]);
    assert("FLAC"@[0] != "VC-1"@[0]);
    assert("FLAC"@.len() != "DSF"@.len());
    assert("FLAC"@.len() != "M4A"@.len());
    assert("FLAC"@.len() != "OGG"@.len());
    assert("FLAC"@.len() != "WMA"@.len());
    assert("FLAC"@.len() != "AWB"@.len());
    assert("APE"@.len() != "AAC+"@.len());
    assert("APE"@.len() != "AAC +"@.len());
    assert("APE"@.len() != "eAAC+"@.len());
    assert("APE"@.len() != "eAAC +"@.len());
    assert("APE"@.len() != "AMR-NB"@.len());
    assert("APE"@.len() != "AMR - NB"@.len());
    assert("APE"@.len() != "AMR–NB"@.len());
    assert("APE"@.len() != "WB"@.len());
    assert("APE"@[0] != "PCM"@[0]);
    assert("APE"@.len() != "H.263"@.len());
    assert("APE"@.len() != "H263"@.len());
    assert("APE"@.len() != "H.264"@.len());
    assert("APE"@.len() != "H264"@.len());
    assert("APE"@.len() != "H.265"@.len());
    assert("APE"@.len() != "HEVC"@.len());
    assert("APE"@.len() != "MPEG4"@.len());
    assert("APE"@[1] != "ASF"@[1]);
    assert("APE"@[0] != "WMV"@[0]);
    assert("APE"@[0] != "3GI"@[0]);
    assert("APE"@.len() != "WEBM"@.len());
    assert("APE"@[0] != "FLV"@[0]);
    assert("APE"@.len() != "MIDI"@.len());
    assert("APE"@.len() != "WAVE"@.len());
    assert("APE"@.len() != "Opus"@.len());
    assert("APE"@.len() != "VC-1"@.len());
    assert("APE"@[0] != "DSF"@[0]);
    assert("APE"@[0] != "M4A"@[0]);
    assert("APE"@[0] != "OGG"@[0]);
    assert("APE"@[0] != "WMA"@[0]);
    assert("APE"@[1] != "AWB"@[1]);
    assert("AAC+"@.len() != "eAAC+"@.len());
    assert("AAC+"@.len() != "eAAC +"@.len());
    assert("AAC+"@.len() != "AMR-NB"@.len());
    assert("AAC+"@.len() != "AMR - NB"@.len());
    assert("AAC+"@.len() != "AMR–NB"@.len());
    assert("AAC+"@.len() != "WB"@.len());
    assert("AAC+"@.len() != "PCM"@.len());
    assert("AAC+"@.len() != "H.263"@.len());
    assert("AAC+"@[0] != "H263"@[0]);
    assert("AAC+"@.len() != "H.264"@.len());
    assert("AAC+"@[0] != "H264"@[0]);
    assert("AAC+"@.len() != "H.265"@.len());
    assert("AAC+"@[0] != "HEVC"@[0]);
    assert("AAC+"@.len() != "MPEG4"@.len());
    assert("AAC+"@.len() != "ASF"@.len());
    assert("AAC+"@.len() != "WMV"@.len());
    assert("AAC+"@.len() != "3GI"@.len());
    assert("AAC+"@[0] != "WEBM"@[0]);
    assert("AAC+"@.len() != "FLV"@.len());
    assert("AAC+"@[0] != "MIDI"@[0]);
    assert("AAC+"@[0] != "WAVE"@[0]);
    assert("AAC+"@[0] != "Opus"@[0]);
    assert("AAC+"@[0] != "VC-1"@[0]);
    assert("AAC+"@.len() != "DSF"@.len());
    assert("AAC+"@.len() != "M4A"@.len());
    assert("AAC+"@.len() != "OGG"@.len());
    assert("AAC+"@.len() != "WMA"@.len());
    assert("AAC+"@.len() != "AWB"@.len());
    assert("AAC +"@[0] != "eAAC+"@[0]);
    assert("AAC +"@.len() != "eAAC +"@.len());
    assert("AAC +"@.len() != "AMR-NB"@.len());
    assert("AAC +"@.len() != "AMR - NB"@.len());
    assert("AAC +"@.len() != "AMR–NB"@.len());
    assert("AAC +"@.len() != "WB"@.len());
    assert("AAC +"@.len() != "PCM"@.len());
    assert("AAC +"@[0] != "H.263"@[0]);
    assert("AAC +"@.len() != "H263"@.len());
    assert("AAC +"@[0] != "H.264"@[0]);
    assert("AAC +"@.len() != "H264"@.len());
    assert("AAC +"@[0] != "H.265"@[0]);
    assert("AAC +"@.len() != "HEVC"@.len());
    assert("AAC +"@[0] != "MPEG4"@[0]);
    assert("AAC +"@.len() != "ASF"@.len());
    assert("AAC +"@.len() != "WMV"@.len());
    assert("AAC +"@.len() != "3GI"@.len());
    assert("AAC +"@.len() != "WEBM"@.len());
    assert("AAC +"@.len() != "FLV"@.len());
    assert("AAC +"@.len() != "MIDI"@.len());
    assert("AAC +"@.len() != "WAVE"@.len());
    assert("AAC +"@.len() != "Opus"@.len());
    assert("AAC +"@.len() != "VC-1"@.len());
    assert("AAC +"@.len() != "DSF"@.len());
    assert("AAC +"@.len() != "M4A"@.len());
    assert("AAC +"@.len() != "OGG"@.len());
    assert("AAC +"@.len() != "WMA"@.len());
    assert("AAC +"@.len() != "AWB"@.len());
    assert("eAAC+"@.len() != "AMR-NB"@.len());
    assert("eAAC+"@.len() != "AMR - NB"@.len());
    assert("eAAC+"@.len() != "AMR–NB"@.len());
    assert("eAAC+"@.len() != "WB"@.len());
    assert("eAAC+"@.len() != "PCM"@.len());
    assert("eAAC+"@[0] != "H.263"@[0]);
    assert("eAAC+"@.len() != "H263"@.len());
    assert("eAAC+"@[0] != "H.264"@[0]);
    assert("eAAC+"@.len() != "H264"@.len());
    assert("eAAC+"@[0] != "H.265"@[0]);
    assert("eAAC+"@.len() != "HEVC"@.len());
    assert("eAAC+"@[0] != "MPEG4"@[0]);
    assert("eAAC+"@.len() != "ASF"@.len());
    assert("eAAC+"@.len() != "WMV"@.len());
    assert("eAAC+"@.len() != "3GI"@.len());
    assert("eAAC+"@.len() != "WEBM"@.len());
    assert("eAAC+"@.len() != "FLV"@.len());
    assert("eAAC+"@.len() != "MIDI"@.len());
    assert("eAAC+"@.len() != "WAVE"@.len());
    assert("eAAC+"@.len() != "Opus"@.len());
    assert("eAAC+"@.len() != "VC-1"@.len());
    assert("eAAC+"@.len() != "DSF"@.len());
    assert("eAAC+"@.len() != "M4A"@.len());
    assert("eAAC+"@.len() != "OGG"@.len());
    assert("eAAC+"@.len() != "WMA"@.len());
    assert("eAAC+"@.len() != "AWB"@.len());
    assert("eAAC +"@[0] != "AMR-NB"@[0]);
    assert("eAAC +"@.len() != "AMR - NB"@.len());
    assert("eAAC +"@[0] != "AMR–NB"@[0]);
    assert("eAAC +"@.len() != "WB"@.len());
    assert("eAAC +"@.len() != "PCM"@.len());
    assert("eAAC +"@.len() != "H.263"@.len());
    assert("eAAC +"@.len() != "H263"@.len());
    assert("eAAC +"@.len() != "H.264"@.len());
    assert("eAAC +"@.len() != "H264"@.len());
    assert("eAAC +"@.len() != "H.265"@.len());
    assert("eAAC +"@.len() != "HEVC"@.len());
    assert("eAAC +"@.len() != "MPEG4"@.len());
    assert("eAAC +"@.len() != "ASF"@.len());
    assert("eAAC +"@.len() != "WMV"@.len());
    assert("eAAC +"@.len() != "3GI"@.len());
    assert("eAAC +"@.len() != "WEBM"@.len());
    assert("eAAC +"@.len() != "FLV"@.len());
    assert("eAAC +"@.len() != "MIDI"@.len());
    assert("eAAC +"@.len() != "WAVE"@.len());
    assert("eAAC +"@.len() != "Opus"@.len());
    assert("eAAC +"@.len() != "VC-1"@.len());
    assert("eAAC +"@.len() != "DSF"@.len());
    assert("eAAC +"@.len() != "M4A"@.len());
    assert("eAAC +"@.len() != "OGG"@.len());
    assert("eAAC +"@.len() != "WMA"@.len());
    assert("eAAC +"@.len() != "AWB"@.len());
    assert("AMR-NB"@.len() != "WB"@.len());
    assert("AMR-NB"@.len() != "PCM"@.len());
    assert("AMR-NB"@.len() != "H.263"@.len());
    assert("AMR-NB"@.len() != "H263"@.len());
    assert("AMR-NB"@.len() != "H.264"@.len());
    assert("AMR-NB"@.len() != "H264"@.len());
    assert("AMR-NB"@.len() != "H.265"@.len());
    assert("AMR-NB"@.len() != "HEVC"@.len());
    assert("AMR-NB"@.len() != "MPEG4"@.len());
    assert("AMR-NB"@.len() != "ASF"@.len());
    assert("AMR-NB"@.len() != "WMV"@.len());
    assert("AMR-NB"@.len() != "3GI"@.len());
    assert("AMR-NB"@.len() != "WEBM"@.len());
    assert("AMR-NB"@.len() != "FLV"@.len());
    assert("AMR-NB"@.len() != "MIDI"@.len());
    assert("AMR-NB"@.len() != "WAVE"@.len());
    assert("AMR-NB"@.len() != "Opus"@.len());
    assert("AMR-NB"@.len() != "VC-1"@.len());
    assert("AMR-NB"@.len() != "DSF"@.len());
    assert("AMR-NB"@.len() != "M4A"@.len());
    assert("AMR-NB"@.len() != "OGG"@.len());
    assert("AMR-NB"@.len() != "WMA"@.len());
    assert("AMR-NB"@.len() != "AWB"@.len());
    assert("AMR - NB"@.len() != "WB"@.len());
    assert("AMR - NB"@.len() != "PCM"@.len());
    assert("AMR - NB"@.len() != "H.263"@.len());
    assert("AMR - NB"@.len() != "H263"@.len());
    assert("AMR - NB"@.len() != "H.264"@.len());
    assert("AMR - NB"@.len() != "H264"@.len());
    assert("AMR - NB"@.len() != "H.265"@.len());
    assert("AMR - NB"@.len() != "HEVC"@.len());
    assert("AMR - NB"@.len() != "MPEG4"@.len());
    assert("AMR - NB"@.len() != "ASF"@.len());
    assert("AMR - NB"@.len() != "WMV"@.len());
    assert("AMR - NB"@.len() != "3GI"@.len());
    assert("AMR - NB"@.len() != "WEBM"@.len());
    assert("AMR - NB"@.len() != "FLV"@.len());
    assert("AMR - NB"@.len() != "MIDI"@.len());
    assert("AMR - NB"@.len() != "WAVE"@.len());
    assert("AMR - NB"@.len() != "Opus"@.len());
    assert("AMR - NB"@.len() != "VC-1"@.len());
    assert("AMR - NB"@.len() != "DSF"@.len());
    assert("AMR - NB"@.len() != "M4A"@.len());
    assert("AMR - NB"@.len() != "OGG"@.len());
    assert("AMR - NB"@.len() != "WMA"@.len());
    assert("AMR - NB"@.len() != "AWB"@.len());
    assert("AMR–NB"@.len() != "WB"@.len());
    assert("AMR–NB"@.len() != "PCM"@.len());
    assert("AMR–NB"@.len() != "H.263"@.len());
    assert("AMR–NB"@.len() != "H263"@.len());
    assert("AMR–NB"@.len() != "H.264"@.len());
    assert("AMR–NB"@.len() != "H264"@.len());
    assert("AMR–NB"@.len() != "H.265"@.len());
    assert("AMR–NB"@.len() != "HEVC"@.len());
    assert("AMR–NB"@.len() != "MPEG4"@.len());
    assert("AMR–NB"@.len() != "ASF"@.len());
    assert("AMR–NB"@.len() != "WMV"@.len());
    assert("AMR–NB"@.len() != "3GI"@.len());
    assert("AMR–NB"@.len() != "WEBM"@.len());
    assert("AMR–NB"@.len() != "FLV"@.len());
    assert("AMR–NB"@.len() != "MIDI"@.len());
    assert("AMR–NB"@.len() != "WAVE"@.len());
    assert("AMR–NB"@.len() != "Opus"@.len());
    assert("AMR–NB"@.len() != "VC-1"@.len());
    assert("AMR–NB"@.len() != "DSF"@.len());
    assert("AMR–NB"@.len() != "M4A"@.len());
    assert("AMR–NB"@.len() != "OGG"@.len());
    assert("AMR–NB"@.len() != "WMA"@.len());
    assert("AMR–NB"@.len() != "AWB"@.len());
    assert("WB"@.len() != "PCM"@.len());
    assert("WB"@.len() != "H.263"@.len());
    assert("WB"@.len() != "H263"@.len());
    assert("WB"@.len() != "H.264"@.len());
    assert("WB"@.len() != "H264"@.len());
    assert("WB"@.len() != "H.265"@.len());
    assert("WB"@.len() != "HEVC"@.len());
    assert("WB"@.len() != "MPEG4"@.len());
    assert("WB"@.len() != "ASF"@.len());
    assert("WB"@.len() != "WMV"@.len());
    assert("WB"@.len() != "3GI"@.len());
    assert("WB"@.len() != "WEBM"@.len());
    assert("WB"@.len() != "FLV"@.len());
    assert("WB"@.len() != "MIDI"@.len());
    assert("WB"@.len() != "WAVE"@.len());
    assert("WB"@.len() != "Opus"@.len());
    assert("WB"@.len() != "VC-1"@.len());
    assert("WB"@.len() != "DSF"@.len());
    assert("WB"@.len() != "M4A"@.len());
    assert("WB"@.len() != "OGG"@.len());
    assert("WB"@.len() != "WMA"@.len());
    assert("WB"@.len() != "AWB"@.len());
    assert("PCM"@.len() != "H.263"@.len());
    assert("PCM"@.len() != "H263"@.len());
    assert("PCM"@.len() != "H.264"@.len());
    assert("PCM"@.len() != "H264"@.len());
    assert("PCM"@.len() != "H.265"@.len());
    assert("PCM"@.len() != "HEVC"@.len());
    assert("PCM"@.len() != "MPEG4"@.len());
    assert("PCM"@[0] != "ASF"@[0]);
    assert("PCM"@[0] != "WMV"@[0]);
    assert("PCM"@[0] != "3GI"@[0]);
    assert("PCM"@.len() != "WEBM"@.len());
    assert("PCM"@[0] != "FLV"@[0]);
    assert("PCM"@.len() != "MIDI"@.len());
    assert("PCM"@.len() != "WAVE"@.len());
    assert("PCM"@.len() != "Opus"@.len());
    assert("PCM"@.len() != "VC-1"@.len());
    assert("PCM"@[0] != "DSF"@[0]);
    assert("PCM"@[0] != "M4A"@[0]);
    assert("PCM"@[0] != "OGG"@[0]);
    assert("PCM"@[0] != "WMA"@[0]);
    assert("PCM"@[0] != "AWB"@[0]);
    assert("H.263"@[4] != "H.264"@[4]);
    assert("H.263"@.len() != "H264"@.len());
    assert("H.263"@[4] != "H.265"@[4]);
    assert("H.263"@.len() != "HEVC"@.len());
    assert("H.263"@[0] != "MPEG4"@[0]);
    assert("H.263"@.len() != "ASF"@.len());
    assert("H.263"@.len() != "WMV"@.len());
    assert("H.263"@.len() != "3GI"@.len());
    assert("H.263"@.len() != "WEBM"@.len());
    assert("H.263"@.len() != "FLV"@.len());
    assert("H.263"@.len() != "MIDI"@.len());
    assert("H.263"@.len() != "WAVE"@.len());
    assert("H.263"@.len() != "Opus"@.len());
    assert("H.263"@.len() != "VC-1"@.len());
    assert("H.263"@.len() != "DSF"@.len());
    assert("H.263"@.len() != "M4A"@.len());
    assert("H.263"@.len() != "OGG"@.len());
    assert("H.263"@.len() != "WMA"@.len());
    assert("H.263"@.len() != "AWB"@.len());
    assert("H263"@.len() != "H.264"@.len());
    assert("H263"@[3] != "H264"@[3]);
    assert("H263"@.len() != "H.265"@.len());
    assert("H263"@[1] != "HEVC"@[1]);
    assert("H263"@.len() != "MPEG4"@.len());
    assert("H263"@.len() != "ASF"@.len());
    assert("H263"@.len() != "WMV"@.len());
    assert("H263"@.len() != "3GI"@.len());
    assert("H263"@[0] != "WEBM"@[0]);
    assert("H263"@.len() != "FLV"@.len());
    assert("H263"@[0] != "MIDI"@[0]);
    assert("H263"@[0] != "WAVE"@[0]);
    assert("H263"@[0] != "Opus"@[0]);
    assert("H263"@[0] != "VC-1"@[0]);
    assert("H263"@.len() != "DSF"@.len());
    assert("H263"@.len() != "M4A"@.len());
    assert("H263"@.len() != "OGG"@.len());
    assert("H263"@.len() != "WMA"@.len());
    assert("H263"@.len() != "AWB"@.len());
    assert("H.264"@[4] != "H.265"@[4]);
    assert("H.264"@.len() != "HEVC"@.len());
    assert("H.264"@[0] != "MPEG4"@[0]);
    assert("H.264"@.len() != "ASF"@.len());
    assert("H.264"@.len() != "WMV"@.len());
    assert("H.264"@.len() != "3GI"@.len());
    assert("H.264"@.len() != "WEBM"@.len());
    assert("H.264"@.len() != "FLV"@.len());
    assert("H.264"@.len() != "MIDI"@.len());
    assert("H.264"@.len() != "WAVE"@.len());
    assert("H.264"@.len() != "Opus"@.len());
    assert("H.264"@.len() != "VC-1"@.len());
    assert("H.264"@.len() != "DSF"@.len());
    assert("H.264"@.len() != "M4A"@.len());
    assert("H.264"@.len() != "OGG"@.len());
    assert("H.264"@.len() != "WMA"@.len());
    assert("H.264"@.len() != "AWB"@.len());
    assert("H264"@.len() != "H.265"@.len());
    assert("H264"@[1] != "HEVC"@[1]);
    assert("H264"@.len() != "MPEG4"@.len());
    assert("H264"@.len() != "ASF"@.len());
    assert("H264"@.len() != "WMV"@.len());
    assert("H264"@.len() != "3GI"@.len());
    assert("H264"@[0] != "WEBM"@[0]);
    assert("H264"@.len() != "FLV"@.len());
    assert("H264"@[0] != "MIDI"@[0]);
    assert("H264"@[0] != "WAVE"@[0]);
    assert("H264"@[0] != "Opus"@[0]);
    assert("H264"@[0] != "VC-1"@[0]);
    assert("H264"@.len() != "DSF"@.len());
    assert("H264"@.len() != "M4A"@.len());
    assert("H264"@.len() != "OGG"@.len());
    assert("H264"@.len() != "WMA"@.len());
    assert("H264"@.len() != "AWB"@.len());
    assert("H.265"@[0] != "MPEG4"@[0]);
    assert("H.265"@.len() != "ASF"@.len());
    assert("H.265"@.len() != "WMV"@.len());
    assert("H.265"@.len() != "3GI"@.len());
    assert("H.265"@.len() != "WEBM"@.len());
    assert("H.265"@.len() != "FLV"@.len());
    assert("H.265"@.len() != "MIDI"@.len());
    assert("H.265"@.len() != "WAVE"@.len());
    assert("H.265"@.len() != "Opus"@.len());
    assert("H.265"@.len() != "VC-1"@.len());
    assert("H.265"@.len() != "DSF"@.len());
    assert("H.265"@.len() != "M4A"@.len());
    assert("H.265"@.len() != "OGG"@.len());
    assert("H.265"@.len() != "WMA"@.len());
    assert("H.265"@.len() != "AWB"@.len());
    assert("HEVC"@.len() != "MPEG4"@.len());
    assert("HEVC"@.len() != "ASF"@.len());
    assert("HEVC"@.len() != "WMV"@.len());
    assert("HEVC"@.len() != "3GI"@.len());
    assert("HEVC"@[0] != "WEBM"@[0]);
    assert("HEVC"@.len() != "FLV"@.len());
    assert("HEVC"@[0] != "MIDI"@[0]);
    assert("HEVC"@[0] != "WAVE"@[0]);
    assert("HEVC"@[0] != "Opus"@[0]);
    assert("HEVC"@[0] != "VC-1"@[0]);
    assert("HEVC"@.len() != "DSF"@.len());
    assert("HEVC"@.len() != "M4A"@.len());
    assert("HEVC"@.len() != "OGG"@.len());
    assert("HEVC"@.len() != "WMA"@.len());
    assert("HEVC"@.len() != "AWB"@.len());
    assert("MPEG4"@.len() != "ASF"@.len());
    assert("MPEG4"@.len() != "WMV"@.len());
    assert("MPEG4"@.len() != "3GI"@.len());
    assert("MPEG4"@.len() != "WEBM"@.len());
    assert("MPEG4"@.len() != "FLV"@.len());
    assert("MPEG4"@.len() != "MIDI"@.len());
    assert("MPEG4"@.len() != "WAVE"@.len());
    assert("MPEG4"@.len() != "Opus"@.len());
    assert("MPEG4"@.len() != "VC-1"@.len());
    assert("MPEG4"@.len() != "DSF"@.len());
    assert("MPEG4"@.len() != "M4A"@.len());
    assert("MPEG4"@.len() != "OGG"@.len());
    assert("MPEG4"@.len() != "WMA"@.len());
    assert("MPEG4"@.len() != "AWB"@.len());
    assert("ASF"@[0] != "WMV"@[0]);
    assert("ASF"@[0] != "3GI"@[0]);
    assert("ASF"@.len() != "WEBM"@.len());
    assert("ASF"@[0] != "FLV"@[0]);
    assert("ASF"@.len() != "MIDI"@.len());
    assert("ASF"@.len() != "WAVE"@.len());
    assert("ASF"@.len() != "Opus"@.len());
    assert("ASF"@.len() != "VC-1"@.len());
    assert("ASF"@[0] != "DSF"@[0]);
    assert("ASF"@[0] != "M4A"@[0]);
    assert("ASF"@[0] != "OGG"@[0]);
    assert("ASF"@[0] != "WMA"@[0]);
    assert("ASF"@[1] != "AWB"@[1]);
    assert("WMV"@[0] != "3GI"@[0]);
    assert("WMV"@.len() != "WEBM"@.len());
    assert("WMV"@[0] != "FLV"@[0]);
    assert("WMV"@.len() != "MIDI"@.len());
    assert("WMV"@.len() != "WAVE"@.len());
    assert("WMV"@.len() != "Opus"@.len());
    assert("WMV"@.len() != "VC-1"@.len());
    assert("WMV"@[0] != "DSF"@[0]);
    assert("WMV"@[0] != "M4A"@[0]);
    assert("WMV"@[0] != "OGG"@[0]);
    assert("WMV"@[2] != "WMA"@[2]);
    assert("WMV"@[0] != "AWB"@[0]);
    assert("3GI"@.len() != "WEBM"@.len());
    assert("3GI"@[0] != "FLV"@[0]);
    assert("3GI"@.len() != "MIDI"@.len());
    assert("3GI"@.len() != "WAVE"@.len());
    assert("3GI"@.len() != "Opus"@.len());
    assert("3GI"@.len() != "VC-1"@.len());
    assert("3GI"@[0] != "DSF"@[0]);
    assert("3GI"@[0] != "M4A"@[0]);
    assert("3GI"@[0] != "OGG"@[0]);
    assert("3GI"@[0] != "WMA"@[0]);
    assert("3GI"@[0] != "AWB"@[0]);
    assert("WEBM"@.len() != "FLV"@.len());
    assert("WEBM"@[0] != "MIDI"@[0]);
    assert("WEBM"@[1] != "WAVE"@[1]);
    assert("WEBM"@[0] != "Opus"@[0]);
    assert("WEBM"@[0] != "VC-1"@[0]);
    assert("WEBM"@.len() != "DSF"@.len());
    assert("WEBM"@.len() != "M4A"@.len());
    assert("WEBM"@.len() != "OGG"@.len());
    assert("WEBM"@.len() != "WMA"@.len());
    assert("WEBM"@.len() != "AWB"@.len());
    assert("FLV"@.len() != "MIDI"@.len());
    assert("FLV"@.len() != "WAVE"@.len());
    assert("FLV"@.len() != "Opus"@.len());
    assert("FLV"@.len() != "VC-1"@.len());
    assert("FLV"@[0] != "DSF"@[0]);
    assert("FLV"@[0] != "M4A"@[0]);
    assert("FLV"@[0] != "OGG"@[0]);
    assert("FLV"@[0] != "WMA"@[0]);
    assert("FLV"@[0] != "AWB"@[0]);
    assert("MIDI"@[0] != "WAVE"@[0]);
    assert("MIDI"@[0] != "Opus"@[0]);
    assert("MIDI"@[0] != "VC-1"@[0]);
    assert("MIDI"@.len() != "DSF"@.len());
    assert("MIDI"@.len() != "M4A"@.len());
    assert("MIDI"@.len() != "OGG"@.len());
    assert("MIDI"@.len() != "WMA"@.len());
    assert("MIDI"@.len() != "AWB"@.len());
    assert("WAVE"@[0] != "Opus"@[0]);
    assert("WAVE"@[0] != "VC-1"@[0]);
    assert("WAVE"@.len() != "DSF"@.len());
    assert("WAVE"@.len() != "M4A"@.len());
    assert("WAVE"@.len() != "OGG"@.len());
    assert("WAVE"@.len() != "WMA"@.len());
    assert("WAVE"@.len() != "AWB"@.len());
    assert("Opus"@[0] != "VC-1"@[0]);
    assert("Opus"@.len() != "DSF"@.len());
    assert("Opus"@.len() != "M4A"@.len());
    assert("Opus"@.len() != "OGG"@.len());
    assert("Opus"@.len() != "WMA"@.len());
    assert("Opus"@.len() != "AWB"@.len());
    assert("VC-1"@.len() != "DSF"@.len());
    assert("VC-1"@.len() != "M4A"@.len());
    assert("VC-1"@.len() != "OGG"@.len());
    assert("VC-1"@.len() != "WMA"@.len());
    assert("VC-1"@.len() != "AWB"@.len());
    assert("DSF"@[0] != "M4A"@[0]);
    assert("DSF"@[0] != "OGG"@[0]);
    assert("DSF"@[0] != "WMA"@[0]);
    assert("DSF"@[0] != "AWB"@[0]);
    assert("M4A"@[0] != "OGG"@[0]);
    assert("M4A"@[0] != "WMA"@[0]);
    assert("M4A"@[0] != "AWB"@[0]);
    assert("OGG"@[0] != "WMA"@[0]);
    assert("OGG"@[0] != "AWB"@[0]);
    assert("WMA"@[0] != "AWB"@[0]);
}

/// Each `InternetConnectionTechnology` is read from exactly its own texts, and no other text
/// reads as a `InternetConnectionTechnology`.
pub proof fn lemma_internet_connection_technology_texts(t: Seq<char>)
    ensures
        internet_connection_technology_of(t) == Some(InternetConnectionTechnology::GPRS) <==> (t == "GPRS"@),
        internet_connection_technology_of(t) == Some(InternetConnectionTechnology::EDGE) <==> (t == "EDGE"@),
        internet_connection_technology_of(t) == Some(InternetConnectionTechnology::_3G) <==> (t == "3G"@),
        internet_connection_technology_of(t) == Some(InternetConnectionTechnology::_4G) <==> (t == "4G"@),
        internet_connection_technology_of(t) == Some(InternetConnectionTechnology::_5G) <==> (t == "5G"@),
        internet_connection_technology_of(t) is None <==> !(t == "GPRS"@ || t == "EDGE"@ || t == "3G"@ || t == "4G"@ || t == "5G"@),
{
    reveal_strlit("GPRS");
    reveal_strlit("EDGE");
    reveal_strlit("3G");
    reveal_strlit("4G");
    reveal_strlit("5G");
    assert("GPRS"@[0] != "EDGE"@[0]);
    assert("GPRS"@.len() != "3G"@.len());
    assert("GPRS"@.len() != "4G"@.len());
    assert("GPRS"@.len() != "5G"@.len());
    assert("EDGE"@.len() != "3G"@.len());
    assert("EDGE"@.len() != "4G"@.len());
    assert("EDGE"@.len() != "5G"@.len());
    assert("3G"@[0] != "4G"@[0]);
    assert("3G"@[0] != "5G"@[0]);
    assert("4G"@[0] != "5G"@[0]);
}

/// Each `SatelliteNavigation` is read from exactly its own texts, and no other text
/// reads as a `SatelliteNavigation`.
pub proof fn lemma_satellite_navigation_texts(t: Seq<char>)
    ensures
        satellite_navigation_of(t) == Some(SatelliteNavigation::GPS) <==> (t == "GPS"@),
        satellite_navigation_of(t) == Some(SatelliteNavigation::A_GPS) <==> (t == "A-GPS"@),
        satellite_navigation_of(t) == Some(SatelliteNavigation::GLONASS) <==> (t == "ГЛОНАСС"@),
        satellite_navigation_of(t) == Some(SatelliteNavigation::Galileo) <==> (t == "Galileo"@),
        satellite_navigation_of(t) == Some(SatelliteNavigation::BeiDou) <==> (t == "BeiDou"@),
        satellite_navigation_of(t) is None <==> !(t == "GPS"@ || t == "A-GPS"@ || t == "ГЛОНАСС"@ || t == "Galileo"@ || t == "BeiDou"@),
{
    reveal_strlit("GPS");
    reveal_strlit("A-GPS");
    reveal_strlit("ГЛОНАСС");
    reveal_strlit("Galileo");
    reveal_strlit("BeiDou");
    assert("GPS"@.len() != "A-GPS"@.len());
    assert("GPS"@.len() != "ГЛОНАСС"@.len());
    assert("GPS"@.len() != "Galileo"@.len());
    assert("GPS"@.len() != "BeiDou"@.len());
    assert("A-GPS"@.len() != "ГЛОНАСС"@.len());
    assert("A-GPS"@.len() != "Galileo"@.len());
    assert("A-GPS"@.len() != "BeiDou"@.len());
    assert("ГЛОНАСС"@[0] != "Galileo"@[0]);
    assert("ГЛОНАСС"@.len() != "BeiDou"@.len());
    assert("Galileo"@.len() != "BeiDou"@.len());
}

/// Each `WifiStandard` is read from exactly its own texts, and no other text
/// reads as a `WifiStandard`.
pub proof fn lemma_wifi_standard_texts(t: Seq<char>)
    ensures
        wifi_standard_of(t) == Some(WifiStandard::_4) <==> (t == "n"@),
        wifi_standard_of(t) == Some(WifiStandard::_5) <==> (t == "ac"@),
        wifi_standard_of(t) == Some(WifiStandard::_6) <==> (t == "ax"@),
        wifi_standard_of(t) == Some(WifiStandard::_7) <==> (t == "be"@),
        wifi_standard_of(t) == Some(WifiStandard::A) <==> (t == "a"@),
        wifi_standard_of(t) == Some(WifiStandard::B) <==> (t == "b"@),
        wifi_standard_of(t) == Some(WifiStandard::G) <==> (t == "g"@),
        wifi_standard_of(t) == Some(WifiStandard::GC) <==> (t == "gc"@),
        wifi_standard_of(t) is None <==> !(t == "n"@ || t == "ac"@ || t == "ax"@ || t == "be"@ || t == "a"@ || t == "b"@ || t == "g"@ || t == "gc"@),
{
    reveal_strlit("n");
    reveal_strlit("ac");
    reveal_strlit("ax");
    reveal_strlit("be");
    reveal_strlit("a");
    reveal_strlit("b");
    reveal_strlit("g");
    reveal_strlit("gc");
    assert("n"@.len() != "ac"@.len());
    assert("n"@.len() != "ax"@.len());
    assert("n"@.len() != "be"@.len());
    assert("n"@[0] != "a"@[0]);
    assert("n"@[0] != "b"@[0]);
    assert("n"@[0] != "g"@[0]);
    assert("n"@.len() != "gc"@.len());
    assert("ac"@[1] != "ax"@[1]);
    assert("ac"@[0] != "be"@[0]);
    assert("ac"@.len() != "a"@.len());
    assert("ac"@.len() != "b"@.len());
    assert("ac"@.len() != "g"@.len());
    assert("ac"@[0] != "gc"@[0]);
    assert("ax"@[0] != "be"@[0]);
    assert("ax"@.len() != "a"@.len());
    assert("ax"@.len() != "b"@.len());
    assert("ax"@.len() != "g"@.len());
    assert("ax"@[0] != "gc"@[0]);
    assert("be"@.len() != "a"@.len());
    assert("be"@.len() != "b"@.len());
    assert("be"@.len() != "g"@.len());
    assert("be"@[0] != "gc"@[0]);
    assert("a"@[0] != "b"@[0]);
    assert("a"@[0] != "g"@[0]);
    assert("a"@.len() != "gc"@.len());
    assert("b"@[0] != "g"@[0]);
    assert("b"@.len() != "gc"@.len());
    assert("g"@.len() != "gc"@.len());
}

/// Each `Material` is read from exactly its own texts, and no other text
/// reads as a `Material`.
pub proof fn lemma_material_texts(t: Seq<char>)
    ensures
        material_of(t) == Some(Material::Metal) <==> (t == "Металл"@),
        material_of(t) == Some(Material::Glass) <==> (t == "Стекло"@),
        material_of(t) == Some(Material::Plastic) <==> (t == "Пластик"@),
        material_of(t) == Some(Material::Aluminum) <==> (t == "Алюминий"@),
        material_of(t) == Some(Material::Ceramics) <==> (t == "Керамика"@),
        material_of(t) is None <==> !(t == "Металл"@ || t == "Стекло"@ || t == "Пластик"@ || t == "Алюминий"@ || t == "Керамика"@),
{
    reveal_strlit("Металл");
    reveal_strlit("Стекло");
    reveal_strlit("Пластик");
    reveal_strlit("Алюминий");
    reveal_strlit("Керамика");
    assert("Металл"@[0] != "Стекло"@[0]);
    assert("Металл"@.len() != "Пластик"@.len());
    assert("Металл"@.len() != "Алюминий"@.len());
    assert("Металл"@.len() != "Керамика"@.len());
    assert("Стекло"@.len() != "Пластик"@.len());
    assert("Стекло"@.len() != "Алюминий"@.len());
    assert("Стекло"@.len() != "Керамика"@.len());
    assert("Пластик"@.len() != "Алюминий"@.len());
    assert("Пластик"@.len() != "Керамика"@.len());
    assert("Алюминий"@[0] != "Керамика"@[0]);
}

/// Each `SimCard` is read from exactly its own texts, and no other text
/// reads as a `SimCard`.
pub proof fn lemma_sim_card_texts(t: Seq<char>)
    ensures
        sim_card_of(t) == Some(SimCard::Nano) <==> (t == "nano-SIM"@),
        sim_card_of(t) == Some(SimCard::Micro) <==> (t == "micro-SIM"@),
        sim_card_of(t) == Some(SimCard::Mini) <==> (t == "mini-SIM"@),
        sim_card_of(t) is None <==> !(t == "nano-SIM"@ || t == "micro-SIM"@ || t == "mini-SIM"@),
{
    reveal_strlit("nano-SIM");
    reveal_strlit("micro-SIM");
    reveal_strlit("mini-SIM");
    assert("nano-SIM"@.len() != "micro-SIM"@.len());
    assert("nano-SIM"@[0] != "mini-SIM"@[0]);
    assert("micro-SIM"@.len() != "mini-SIM"@.len());
}

/// Each `ChargingConnectorType` is read from exactly its own texts, and no other text
/// reads as a `ChargingConnectorType`.
pub proof fn lemma_charging_connector_type_texts(t: Seq<char>)
    ensures
        charging_connector_type_of(t) == Some(ChargingConnectorType::USBTypeC) <==> (t == "USB Type-C"@),
        charging_connector_type_of(t) == Some(ChargingConnectorType::MicroUSB) <==> (t == "Micro-USB"@),
        charging_connector_type_of(t) is None <==> !(t == "USB Type-C"@ || t == "Micro-USB"@),
{
    reveal_strlit("USB Type-C");
    reveal_strlit("Micro-USB");
    assert("USB Type-C"@.len() != "Micro-USB"@.len());
}

/// Each `Country` is read from exactly its own texts, and no other text
/// reads as a `Country`.
pub proof fn lemma_country_texts(t: Seq<char>)
    ensures
        country_of(t) == Some(Country::China) <==> (t == "Китай"@),
        country_of(t) is None <==> !(t == "Китай"@),
{
    reveal_strlit("Китай");

}

/// Each `MemoryCardSlot` is read from exactly its own texts, and no other text
/// reads as a `MemoryCardSlot`.
pub proof fn lemma_memory_card_slot_texts(t: Seq<char>)
    ensures
        memory_card_slot_of(t) == Some(MemoryCardSlot::Hybrid) <==> (t == "Гибридный"@),
        memory_card_slot_of(t) == Some(MemoryCardSlot::Separate) <==> (t == "Отдельный"@),
        memory_card_slot_of(t) == Some(MemoryCardSlot::Absent) <==> (t == "Отсутствует"@),
        memory_card_slot_of(t) is None <==> !(t == "Гибридный"@ || t == "Отдельный"@ || t == "Отсутствует"@),
{
    reveal_strlit("Гибридный");
    reveal_strlit("Отдельный");
    reveal_strlit("Отсутствует");
    assert("Гибридный"@[0] != "Отдельный"@[0]);
    assert("Гибридный"@.len() != "Отсутствует"@.len());
    assert("Отдельный"@.len() != "Отсутствует"@.len());
}

/// Each `AudioJack` is read from exactly its own texts, and no other text
/// reads as a `AudioJack`.
pub proof fn lemma_audio_jack_texts(t: Seq<char>)
    ensures
        audio_jack_of(t) == Some(AudioJack::_3_5mm) <==> (t == "3.5"@),
        audio_jack_of(t) == Some(AudioJack::USBTypeC) <==> (t == "USB Type-C"@),
        audio_jack_of(t) is None <==> !(t == "3.5"@ || t == "USB Type-C"@),
{
    reveal_strlit("3.5");
    reveal_strlit("USB Type-C");
    assert("3.5"@.len() != "USB Type-C"@.len());
}

/// Each `BatteryType` is read from exactly its own texts, and no other text
/// reads as a `BatteryType`.
pub proof fn lemma_battery_type_texts(t: Seq<char>)
    ensures
        battery_type_of(t) == Some(BatteryType::LithiumPolymer) <==> (t == "Литий-полимерный"@),
        battery_type_of(t) == Some(BatteryType::LithiumIon) <==> (t == "Литий-ионный"@),
        battery_type_of(t) is None <==> !(t == "Литий-полимерный"@ || t == "Литий-ионный"@),
{
    reveal_strlit("Литий-полимерный");
    reveal_strlit("Литий-ионный");
    assert("Литий-полимерный"@.len() != "Литий-ионный"@.len());
}

/// Each `DisplayType` is read from exactly its own texts, and no other text
/// reads as a `DisplayType`.
pub proof fn lemma_display_type_texts(t: Seq<char>)
    ensures
        display_type_of(t) == Some(DisplayType::Amoled) <==> (t == "AMOLED"@),
        display_type_of(t) == Some(DisplayType::Oled) <==> (t == "OLED"@),
        display_type_of(t) == Some(DisplayType::IPS) <==> (t == "IPS"@),
        display_type_of(t) is None <==> !(t == "AMOLED"@ || t == "OLED"@ || t == "IPS"@),
{
    reveal_strlit("AMOLED");
    reveal_strlit("OLED");
    reveal_strlit("IPS");
    assert("AMOLED"@.len() != "OLED"@.len());
    assert("AMOLED"@.len() != "IPS"@.len());
    assert("OLED"@.len() != "IPS"@.len());
}

} // verus!
