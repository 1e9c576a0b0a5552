//! Characteristics whose value is free text.
#![allow(non_camel_case_types)]
use vstd::prelude::*;

verus! {

#[derive(Debug, PartialEq)]
pub enum StringCharacteristic {
    Processor(String),
    VideoProcessor(String),
    AspectRatio(String),
    DisplayResolution(String),
    Contrast(String),
    Model(String),
    ChargingConnectorType(ChargingConnectorType),
    BatteryType(BatteryType),
    SimCard(SimCard),
    Material(Material),
    DisplayType(DisplayType),
    InternetConnectionTechnology(InternetConnectionTechnology),
    SatelliteNavigation(SatelliteNavigation),
    WifiStandard(WifiStandard),
    AudioJack(AudioJack),
    TechnologySupport(Technology),
    ProducingCountry(Country),
    MemoryCardSlot(MemoryCardSlot),
    SupportedMediaFormats(MediaFormat),
}

/// A `StringCharacteristic` with its text taken as a character sequence.
pub enum StringCharacteristicView {
    Processor(Seq<char>),
    VideoProcessor(Seq<char>),
    AspectRatio(Seq<char>),
    DisplayResolution(Seq<char>),
    Contrast(Seq<char>),
    Model(Seq<char>),
    ChargingConnectorType(ChargingConnectorType),
    BatteryType(BatteryType),
    SimCard(SimCard),
    Material(Material),
    DisplayType(DisplayType),
    InternetConnectionTechnology(InternetConnectionTechnology),
    SatelliteNavigation(SatelliteNavigation),
    WifiStandard(WifiStandard),
    AudioJack(AudioJack),
    TechnologySupport(Technology),
    ProducingCountry(Country),
    MemoryCardSlot(MemoryCardSlot),
    SupportedMediaFormats(MediaFormat),
}

impl View for StringCharacteristic {
    type V = StringCharacteristicView;

    open spec fn view(&self) -> StringCharacteristicView {
        match self {
            StringCharacteristic::Processor(s) => StringCharacteristicView::Processor(s@),
            StringCharacteristic::VideoProcessor(s) => StringCharacteristicView::VideoProcessor(s@),
            StringCharacteristic::AspectRatio(s) => StringCharacteristicView::AspectRatio(s@),
            StringCharacteristic::DisplayResolution(s) => StringCharacteristicView::DisplayResolution(s@),
            StringCharacteristic::Contrast(s) => StringCharacteristicView::Contrast(s@),
            StringCharacteristic::Model(s) => StringCharacteristicView::Model(s@),
            StringCharacteristic::ChargingConnectorType(e) => StringCharacteristicView::ChargingConnectorType(*e),
            StringCharacteristic::BatteryType(e) => StringCharacteristicView::BatteryType(*e),
            StringCharacteristic::SimCard(e) => StringCharacteristicView::SimCard(*e),
            StringCharacteristic::Material(e) => StringCharacteristicView::Material(*e),
            StringCharacteristic::DisplayType(e) => StringCharacteristicView::DisplayType(*e),
            StringCharacteristic::InternetConnectionTechnology(e) => StringCharacteristicView::InternetConnectionTechnology(*e),
            StringCharacteristic::SatelliteNavigation(e) => StringCharacteristicView::SatelliteNavigation(*e),
            StringCharacteristic::WifiStandard(e) => StringCharacteristicView::WifiStandard(*e),
            StringCharacteristic::AudioJack(e) => StringCharacteristicView::AudioJack(*e),
            StringCharacteristic::TechnologySupport(e) => StringCharacteristicView::TechnologySupport(*e),
            StringCharacteristic::ProducingCountry(e) => StringCharacteristicView::ProducingCountry(*e),
            StringCharacteristic::MemoryCardSlot(e) => StringCharacteristicView::MemoryCardSlot(*e),
            StringCharacteristic::SupportedMediaFormats(e) => StringCharacteristicView::SupportedMediaFormats(*e),
        }
    }
}

impl StringCharacteristic {
    /// The names of all string characteristics, in declaration order.
    pub open spec fn all_names() -> Seq<Seq<char>> {
        seq!["Processor"@, "VideoProcessor"@, "AspectRatio"@, "DisplayResolution"@, "Contrast"@, "Model"@, "ChargingConnectorType"@, "BatteryType"@, "SimCard"@, "Material"@, "DisplayType"@, "InternetConnectionTechnology"@, "SatelliteNavigation"@, "WifiStandard"@, "AudioJack"@, "TechnologySupport"@, "ProducingCountry"@, "MemoryCardSlot"@, "SupportedMediaFormats"@]
    }

    /// The names of all string characteristics, in declaration order.
    pub fn names() -> (res: Vec<String>)
        ensures
            res.deep_view() == Self::all_names(),
    {
        let mut res: Vec<String> = Vec::new();
        res.push(String::from_str("Processor"));
        res.push(String::from_str("VideoProcessor"));
        res.push(String::from_str("AspectRatio"));
        res.push(String::from_str("DisplayResolution"));
        res.push(String::from_str("Contrast"));
        res.push(String::from_str("Model"));
        res.push(String::from_str("ChargingConnectorType"));
        res.push(String::from_str("BatteryType"));
        res.push(String::from_str("SimCard"));
        res.push(String::from_str("Material"));
        res.push(String::from_str("DisplayType"));
        res.push(String::from_str("InternetConnectionTechnology"));
        res.push(String::from_str("SatelliteNavigation"));
        res.push(String::from_str("WifiStandard"));
        res.push(String::from_str("AudioJack"));
        res.push(String::from_str("TechnologySupport"));
        res.push(String::from_str("ProducingCountry"));
        res.push(String::from_str("MemoryCardSlot"));
        res.push(String::from_str("SupportedMediaFormats"));
        assert(res.deep_view() =~= Self::all_names());
        res
    }
}

#[derive(Debug, Clone, Copy, PartialEq, Eq, Structural)]
pub enum BatteryType {
    LithiumIon,
    LithiumPolymer,
}

#[derive(Debug, Clone, Copy, PartialEq, Eq, Structural)]
pub enum Material {
    Metal,
    Glass,
    Plastic,
    Aluminum,
}

#[derive(Debug, Clone, Copy, PartialEq, Eq, Structural)]
pub enum SimCard {
    FullSize,
    Mini,
    Micro,
    Nano,
    Embedded,
}

#[derive(Debug, Clone, Copy, PartialEq, Eq, Structural)]
pub enum DisplayType {
    Oled,
    Amoled,
    LCD,
    TFT,
    IPS,
    Retina,
}

#[derive(Debug, Clone, Copy, PartialEq, Eq, Structural)]
pub enum InternetConnectionTechnology {
    GPRS,
    EDGE,
    _3G,
    _4G,
    _5G,
}

#[derive(Debug, Clone, Copy, PartialEq, Eq, Structural)]
pub enum SatelliteNavigation {
    GPS,
    A_GPS,
    Galileo,
    BeiDou,
    GLONASS,
}

#[derive(Debug, Clone, Copy, PartialEq, Eq, Structural)]
pub enum WifiStandard {
    _4,
    _5,
    _6,
    _7,
    A,
    B,
    G,
}

#[derive(Debug, Clone, Copy, PartialEq, Eq, Structural)]
pub enum ChargingConnectorType {
    USBTypeC,
    MicroUSB,
}

#[derive(Debug, Clone, Copy, PartialEq, Eq, Structural)]
pub enum AudioJack {
    _3_5mm,
}

#[derive(Debug, Clone, Copy, PartialEq, Eq, Structural)]
pub enum Technology {
    NFC,
    FastCharging,
    InfraredPort,
    WirelessCharger,
    Autofocus,
}

#[derive(Debug, Clone, Copy, PartialEq, Eq, Structural)]
pub enum Country {
    China,
}

#[derive(Debug, Clone, Copy, PartialEq, Eq, Structural)]
pub enum MemoryCardSlot {
    Hybrid,
    Separate,
}

#[derive(Debug, Clone, Copy, PartialEq, Eq, Structural)]
pub enum MediaFormat {
    MP4,
    M4V,
    MKV,
    XVID,
    WAV,
    AAC,
    MP3,
    AMR,
    FLAC,
    APE,
    AAC_plus,
    eAAC_plus,
    AMR_NB,
    WB,
    VC1,
    PCM,
    H263,
    H264,
    H265,
    MPEG4,
    ASF,
    WMV,
    _3GI,
    WEBM,
    FLV,
    MIDI,
    WAVE,
    Opus,
}

} // verus!
