//! Characteristics whose value is one of a fixed set of variants, and the
//! names under which they are stored.
#![allow(non_camel_case_types)]
use vstd::prelude::*;

verus! {

#[derive(Debug, Clone, Copy, PartialEq, Eq, Structural)]
pub enum BatteryType {
    LithiumIon,
    LithiumPolymer,
}

impl BatteryType {
    /// The variant's name, as `{:?}` prints it.
    pub open spec fn variant_name(self) -> Seq<char> {
        match self {
            BatteryType::LithiumIon => "LithiumIon"@,
            BatteryType::LithiumPolymer => "LithiumPolymer"@,
        }
    }

    /// Every variant, in declaration order.
    pub open spec fn all_variants() -> Seq<BatteryType> {
        seq![BatteryType::LithiumIon, BatteryType::LithiumPolymer]
    }

    pub proof fn lemma_all_variants_complete(x: BatteryType)
        ensures
            Self::all_variants().contains(x),
    {
        match x {
            BatteryType::LithiumIon => assert(Self::all_variants()[0] == x),
            BatteryType::LithiumPolymer => assert(Self::all_variants()[1] == x),
        }
    }

    /// The variant's name.
    pub fn as_str(&self) -> (res: &'static str)
        ensures
            res@ == self.variant_name(),
    {
        match self {
            BatteryType::LithiumIon => "LithiumIon",
            BatteryType::LithiumPolymer => "LithiumPolymer",
        }
    }

    /// Every variant, in declaration order.
    pub fn variants() -> (res: Vec<BatteryType>)
        ensures
            res@ == Self::all_variants(),
    {
        let mut res: Vec<BatteryType> = Vec::new();
        res.push(BatteryType::LithiumIon);
        res.push(BatteryType::LithiumPolymer);
        assert(res@ =~= Self::all_variants());
        res
    }
}

#[derive(Debug, Clone, Copy, PartialEq, Eq, Structural)]
pub enum Material {
    Metal,
    Glass,
    Plastic,
    Aluminum,
    Ceramics,
}

impl Material {
    /// The variant's name, as `{:?}` prints it.
    pub open spec fn variant_name(self) -> Seq<char> {
        match self {
            Material::Metal => "Metal"@,
            Material::Glass => "Glass"@,
            Material::Plastic => "Plastic"@,
            Material::Aluminum => "Aluminum"@,
            Material::Ceramics => "Ceramics"@,
        }
    }

    /// Every variant, in declaration order.
    pub open spec fn all_variants() -> Seq<Material> {
        seq![Material::Metal, Material::Glass, Material::Plastic, Material::Aluminum, Material::Ceramics]
    }

    pub proof fn lemma_all_variants_complete(x: Material)
        ensures
            Self::all_variants().contains(x),
    {
        match x {
            Material::Metal => assert(Self::all_variants()[0] == x),
            Material::Glass => assert(Self::all_variants()[1] == x),
            Material::Plastic => assert(Self::all_variants()[2] == x),
            Material::Aluminum => assert(Self::all_variants()[3] == x),
            Material::Ceramics => assert(Self::all_variants()[4] == x),
        }
    }

    /// The variant's name.
    pub fn as_str(&self) -> (res: &'static str)
        ensures
            res@ == self.variant_name(),
    {
        match self {
            Material::Metal => "Metal",
            Material::Glass => "Glass",
            Material::Plastic => "Plastic",
            Material::Aluminum => "Aluminum",
            Material::Ceramics => "Ceramics",
        }
    }

    /// Every variant, in declaration order.
    pub fn variants() -> (res: Vec<Material>)
        ensures
            res@ == Self::all_variants(),
    {
        let mut res: Vec<Material> = Vec::new();
        res.push(Material::Metal);
        res.push(Material::Glass);
        res.push(Material::Plastic);
        res.push(Material::Aluminum);
        res.push(Material::Ceramics);
        assert(res@ =~= Self::all_variants());
        res
    }
}

#[derive(Debug, Clone, Copy, PartialEq, Eq, Structural)]
pub enum SimCard {
    FullSize,
    Mini,
    Micro,
    Nano,
    Embedded,
}

impl SimCard {
    /// The variant's name, as `{:?}` prints it.
    pub open spec fn variant_name(self) -> Seq<char> {
        match self {
            SimCard::FullSize => "FullSize"@,
            SimCard::Mini => "Mini"@,
            SimCard::Micro => "Micro"@,
            SimCard::Nano => "Nano"@,
            SimCard::Embedded => "Embedded"@,
        }
    }

    /// Every variant, in declaration order.
    pub open spec fn all_variants() -> Seq<SimCard> {
        seq![SimCard::FullSize, SimCard::Mini, SimCard::Micro, SimCard::Nano, SimCard::Embedded]
    }

    pub proof fn lemma_all_variants_complete(x: SimCard)
        ensures
            Self::all_variants().contains(x),
    {
        match x {
            SimCard::FullSize => assert(Self::all_variants()[0] == x),
            SimCard::Mini => assert(Self::all_variants()[1] == x),
            SimCard::Micro => assert(Self::all_variants()[2] == x),
            SimCard::Nano => assert(Self::all_variants()[3] == x),
            SimCard::Embedded => assert(Self::all_variants()[4] == x),
        }
    }

    /// The variant's name.
    pub fn as_str(&self) -> (res: &'static str)
        ensures
            res@ == self.variant_name(),
    {
        match self {
            SimCard::FullSize => "FullSize",
            SimCard::Mini => "Mini",
            SimCard::Micro => "Micro",
            SimCard::Nano => "Nano",
            SimCard::Embedded => "Embedded",
        }
    }

    /// Every variant, in declaration order.
    pub fn variants() -> (res: Vec<SimCard>)
        ensures
            res@ == Self::all_variants(),
    {
        let mut res: Vec<SimCard> = Vec::new();
        res.push(SimCard::FullSize);
        res.push(SimCard::Mini);
        res.push(SimCard::Micro);
        res.push(SimCard::Nano);
        res.push(SimCard::Embedded);
        assert(res@ =~= Self::all_variants());
        res
    }
}

#[derive(Debug, Clone, Copy, PartialEq, Eq, Structural)]
pub enum DisplayType {
    Oled,
    Amoled,
    IPS,
}

impl DisplayType {
    /// The variant's name, as `{:?}` prints it.
    pub open spec fn variant_name(self) -> Seq<char> {
        match self {
            DisplayType::Oled => "Oled"@,
            DisplayType::Amoled => "Amoled"@,
            DisplayType::IPS => "IPS"@,
        }
    }

    /// Every variant, in declaration order.
    pub open spec fn all_variants() -> Seq<DisplayType> {
        seq![DisplayType::Oled, DisplayType::Amoled, DisplayType::IPS]
    }

    pub proof fn lemma_all_variants_complete(x: DisplayType)
        ensures
            Self::all_variants().contains(x),
    {
        match x {
            DisplayType::Oled => assert(Self::all_variants()[0] == x),
            DisplayType::Amoled => assert(Self::all_variants()[1] == x),
            DisplayType::IPS => assert(Self::all_variants()[2] == x),
        }
    }

    /// The variant's name.
    pub fn as_str(&self) -> (res: &'static str)
        ensures
            res@ == self.variant_name(),
    {
        match self {
            DisplayType::Oled => "Oled",
            DisplayType::Amoled => "Amoled",
            DisplayType::IPS => "IPS",
        }
    }

    /// Every variant, in declaration order.
    pub fn variants() -> (res: Vec<DisplayType>)
        ensures
            res@ == Self::all_variants(),
    {
        let mut res: Vec<DisplayType> = Vec::new();
        res.push(DisplayType::Oled);
        res.push(DisplayType::Amoled);
        res.push(DisplayType::IPS);
        assert(res@ =~= Self::all_variants());
        res
    }
}

#[derive(Debug, Clone, Copy, PartialEq, Eq, Structural)]
pub enum InternetConnectionTechnology {
    GPRS,
    EDGE,
    _3G,
    _4G,
    _5G,
}

impl InternetConnectionTechnology {
    /// The variant's name, as `{:?}` prints it.
    pub open spec fn variant_name(self) -> Seq<char> {
        match self {
            InternetConnectionTechnology::GPRS => "GPRS"@,
            InternetConnectionTechnology::EDGE => "EDGE"@,
            InternetConnectionTechnology::_3G => "_3G"@,
            InternetConnectionTechnology::_4G => "_4G"@,
            InternetConnectionTechnology::_5G => "_5G"@,
        }
    }

    /// Every variant, in declaration order.
    pub open spec fn all_variants() -> Seq<InternetConnectionTechnology> {
        seq![InternetConnectionTechnology::GPRS, InternetConnectionTechnology::EDGE, InternetConnectionTechnology::_3G, InternetConnectionTechnology::_4G, InternetConnectionTechnology::_5G]
    }

    pub proof fn lemma_all_variants_complete(x: InternetConnectionTechnology)
        ensures
            Self::all_variants().contains(x),
    {
        match x {
            InternetConnectionTechnology::GPRS => assert(Self::all_variants()[0] == x),
            InternetConnectionTechnology::EDGE => assert(Self::all_variants()[1] == x),
            InternetConnectionTechnology::_3G => assert(Self::all_variants()[2] == x),
            InternetConnectionTechnology::_4G => assert(Self::all_variants()[3] == x),
            InternetConnectionTechnology::_5G => assert(Self::all_variants()[4] == x),
        }
    }

    /// The variant's name.
    pub fn as_str(&self) -> (res: &'static str)
        ensures
            res@ == self.variant_name(),
    {
        match self {
            InternetConnectionTechnology::GPRS => "GPRS",
            InternetConnectionTechnology::EDGE => "EDGE",
            InternetConnectionTechnology::_3G => "_3G",
            InternetConnectionTechnology::_4G => "_4G",
            InternetConnectionTechnology::_5G => "_5G",
        }
    }

    /// Every variant, in declaration order.
    pub fn variants() -> (res: Vec<InternetConnectionTechnology>)
        ensures
            res@ == Self::all_variants(),
    {
        let mut res: Vec<InternetConnectionTechnology> = Vec::new();
        res.push(InternetConnectionTechnology::GPRS);
        res.push(InternetConnectionTechnology::EDGE);
        res.push(InternetConnectionTechnology::_3G);
        res.push(InternetConnectionTechnology::_4G);
        res.push(InternetConnectionTechnology::_5G);
        assert(res@ =~= Self::all_variants());
        res
    }
}

#[derive(Debug, Clone, Copy, PartialEq, Eq, Structural)]
pub enum SatelliteNavigation {
    GPS,
    A_GPS,
    Galileo,
    BeiDou,
    GLONASS,
}

impl SatelliteNavigation {
    /// The variant's name, as `{:?}` prints it.
    pub open spec fn variant_name(self) -> Seq<char> {
        match self {
            SatelliteNavigation::GPS => "GPS"@,
            SatelliteNavigation::A_GPS => "A_GPS"@,
            SatelliteNavigation::Galileo => "Galileo"@,
            SatelliteNavigation::BeiDou => "BeiDou"@,
            SatelliteNavigation::GLONASS => "GLONASS"@,
        }
    }

    /// Every variant, in declaration order.
    pub open spec fn all_variants() -> Seq<SatelliteNavigation> {
        seq![SatelliteNavigation::GPS, SatelliteNavigation::A_GPS, SatelliteNavigation::Galileo, SatelliteNavigation::BeiDou, SatelliteNavigation::GLONASS]
    }

    pub proof fn lemma_all_variants_complete(x: SatelliteNavigation)
        ensures
            Self::all_variants().contains(x),
    {
        match x {
            SatelliteNavigation::GPS => assert(Self::all_variants()[0] == x),
            SatelliteNavigation::A_GPS => assert(Self::all_variants()[1] == x),
            SatelliteNavigation::Galileo => assert(Self::all_variants()[2] == x),
            SatelliteNavigation::BeiDou => assert(Self::all_variants()[3] == x),
            SatelliteNavigation::GLONASS => assert(Self::all_variants()[4] == x),
        }
    }

    /// The variant's name.
    pub fn as_str(&self) -> (res: &'static str)
        ensures
            res@ == self.variant_name(),
    {
        match self {
            SatelliteNavigation::GPS => "GPS",
            SatelliteNavigation::A_GPS => "A_GPS",
            SatelliteNavigation::Galileo => "Galileo",
            SatelliteNavigation::BeiDou => "BeiDou",
            SatelliteNavigation::GLONASS => "GLONASS",
        }
    }

    /// Every variant, in declaration order.
    pub fn variants() -> (res: Vec<SatelliteNavigation>)
        ensures
            res@ == Self::all_variants(),
    {
        let mut res: Vec<SatelliteNavigation> = Vec::new();
        res.push(SatelliteNavigation::GPS);
        res.push(SatelliteNavigation::A_GPS);
        res.push(SatelliteNavigation::Galileo);
        res.push(SatelliteNavigation::BeiDou);
        res.push(SatelliteNavigation::GLONASS);
        assert(res@ =~= Self::all_variants());
        res
    }
}

#[derive(Debug, Clone, Copy, PartialEq, Eq, Structural)]
pub enum WifiStandard {
    _4,
    _5,
    _6,
    _7,
    A,
    B,
    G,
    GC,
}

impl WifiStandard {
    /// The variant's name, as `{:?}` prints it.
    pub open spec fn variant_name(self) -> Seq<char> {
        match self {
            WifiStandard::_4 => "_4"@,
            WifiStandard::_5 => "_5"@,
            WifiStandard::_6 => "_6"@,
            WifiStandard::_7 => "_7"@,
            WifiStandard::A => "A"@,
            WifiStandard::B => "B"@,
            WifiStandard::G => "G"@,
            WifiStandard::GC => "GC"@,
        }
    }

    /// Every variant, in declaration order.
    pub open spec fn all_variants() -> Seq<WifiStandard> {
        seq![WifiStandard::_4, WifiStandard::_5, WifiStandard::_6, WifiStandard::_7, WifiStandard::A, WifiStandard::B, WifiStandard::G, WifiStandard::GC]
    }

    pub proof fn lemma_all_variants_complete(x: WifiStandard)
        ensures
            Self::all_variants().contains(x),
    {
        match x {
            WifiStandard::_4 => assert(Self::all_variants()[0] == x),
            WifiStandard::_5 => assert(Self::all_variants()[1] == x),
            WifiStandard::_6 => assert(Self::all_variants()[2] == x),
            WifiStandard::_7 => assert(Self::all_variants()[3] == x),
            WifiStandard::A => assert(Self::all_variants()[4] == x),
            WifiStandard::B => assert(Self::all_variants()[5] == x),
            WifiStandard::G => assert(Self::all_variants()[6] == x),
            WifiStandard::GC => assert(Self::all_variants()[7] == x),
        }
    }

    /// The variant's name.
    pub fn as_str(&self) -> (res: &'static str)
        ensures
            res@ == self.variant_name(),
    {
        match self {
            WifiStandard::_4 => "_4",
            WifiStandard::_5 => "_5",
            WifiStandard::_6 => "_6",
            WifiStandard::_7 => "_7",
            WifiStandard::A => "A",
            WifiStandard::B => "B",
            WifiStandard::G => "G",
            WifiStandard::GC => "GC",
        }
    }

    /// Every variant, in declaration order.
    pub fn variants() -> (res: Vec<WifiStandard>)
        ensures
            res@ == Self::all_variants(),
    {
        let mut res: Vec<WifiStandard> = Vec::new();
        res.push(WifiStandard::_4);
        res.push(WifiStandard::_5);
        res.push(WifiStandard::_6);
        res.push(WifiStandard::_7);
        res.push(WifiStandard::A);
        res.push(WifiStandard::B);
        res.push(WifiStandard::G);
        res.push(WifiStandard::GC);
        assert(res@ =~= Self::all_variants());
        res
    }
}

#[derive(Debug, Clone, Copy, PartialEq, Eq, Structural)]
pub enum ChargingConnectorType {
    USBTypeC,
    MicroUSB,
}

impl ChargingConnectorType {
    /// The variant's name, as `{:?}` prints it.
    pub open spec fn variant_name(self) -> Seq<char> {
        match self {
            ChargingConnectorType::USBTypeC => "USBTypeC"@,
            ChargingConnectorType::MicroUSB => "MicroUSB"@,
        }
    }

    /// Every variant, in declaration order.
    pub open spec fn all_variants() -> Seq<ChargingConnectorType> {
        seq![ChargingConnectorType::USBTypeC, ChargingConnectorType::MicroUSB]
    }

    pub proof fn lemma_all_variants_complete(x: ChargingConnectorType)
        ensures
            Self::all_variants().contains(x),
    {
        match x {
            ChargingConnectorType::USBTypeC => assert(Self::all_variants()[0] == x),
            ChargingConnectorType::MicroUSB => assert(Self::all_variants()[1] == x),
        }
    }

    /// The variant's name.
    pub fn as_str(&self) -> (res: &'static str)
        ensures
            res@ == self.variant_name(),
    {
        match self {
            ChargingConnectorType::USBTypeC => "USBTypeC",
            ChargingConnectorType::MicroUSB => "MicroUSB",
        }
    }

    /// Every variant, in declaration order.
    pub fn variants() -> (res: Vec<ChargingConnectorType>)
        ensures
            res@ == Self::all_variants(),
    {
        let mut res: Vec<ChargingConnectorType> = Vec::new();
        res.push(ChargingConnectorType::USBTypeC);
        res.push(ChargingConnectorType::MicroUSB);
        assert(res@ =~= Self::all_variants());
        res
    }
}

#[derive(Debug, Clone, Copy, PartialEq, Eq, Structural)]
pub enum AudioJack {
    _3_5mm,
    USBTypeC,
}

impl AudioJack {
    /// The variant's name, as `{:?}` prints it.
    pub open spec fn variant_name(self) -> Seq<char> {
        match self {
            AudioJack::_3_5mm => "_3_5mm"@,
            AudioJack::USBTypeC => "USBTypeC"@,
        }
    }

    /// Every variant, in declaration order.
    pub open spec fn all_variants() -> Seq<AudioJack> {
        seq![AudioJack::_3_5mm, AudioJack::USBTypeC]
    }

    pub proof fn lemma_all_variants_complete(x: AudioJack)
        ensures
            Self::all_variants().contains(x),
    {
        match x {
            AudioJack::_3_5mm => assert(Self::all_variants()[0] == x),
            AudioJack::USBTypeC => assert(Self::all_variants()[1] == x),
        }
    }

    /// The variant's name.
    pub fn as_str(&self) -> (res: &'static str)
        ensures
            res@ == self.variant_name(),
    {
        match self {
            AudioJack::_3_5mm => "_3_5mm",
            AudioJack::USBTypeC => "USBTypeC",
        }
    }

    /// Every variant, in declaration order.
    pub fn variants() -> (res: Vec<AudioJack>)
        ensures
            res@ == Self::all_variants(),
    {
        let mut res: Vec<AudioJack> = Vec::new();
        res.push(AudioJack::_3_5mm);
        res.push(AudioJack::USBTypeC);
        assert(res@ =~= Self::all_variants());
        res
    }
}

#[derive(Debug, Clone, Copy, PartialEq, Eq, Structural)]
pub enum Technology {
    NFC,
    FastCharging,
    InfraredPort,
    WirelessCharger,
    Autofocus,
}

impl Technology {
    /// The variant's name, as `{:?}` prints it.
    pub open spec fn variant_name(self) -> Seq<char> {
        match self {
            Technology::NFC => "NFC"@,
            Technology::FastCharging => "FastCharging"@,
            Technology::InfraredPort => "InfraredPort"@,
            Technology::WirelessCharger => "WirelessCharger"@,
            Technology::Autofocus => "Autofocus"@,
        }
    }

    /// Every variant, in declaration order.
    pub open spec fn all_variants() -> Seq<Technology> {
        seq![Technology::NFC, Technology::FastCharging, Technology::InfraredPort, Technology::WirelessCharger, Technology::Autofocus]
    }

    pub proof fn lemma_all_variants_complete(x: Technology)
        ensures
            Self::all_variants().contains(x),
    {
        match x {
            Technology::NFC => assert(Self::all_variants()[0] == x),
            Technology::FastCharging => assert(Self::all_variants()[1] == x),
            Technology::InfraredPort => assert(Self::all_variants()[2] == x),
            Technology::WirelessCharger => assert(Self::all_variants()[3] == x),
            Technology::Autofocus => assert(Self::all_variants()[4] == x),
        }
    }

    /// The variant's name.
    pub fn as_str(&self) -> (res: &'static str)
        ensures
            res@ == self.variant_name(),
    {
        match self {
            Technology::NFC => "NFC",
            Technology::FastCharging => "FastCharging",
            Technology::InfraredPort => "InfraredPort",
            Technology::WirelessCharger => "WirelessCharger",
            Technology::Autofocus => "Autofocus",
        }
    }

    /// Every variant, in declaration order.
    pub fn variants() -> (res: Vec<Technology>)
        ensures
            res@ == Self::all_variants(),
    {
        let mut res: Vec<Technology> = Vec::new();
        res.push(Technology::NFC);
        res.push(Technology::FastCharging);
        res.push(Technology::InfraredPort);
        res.push(Technology::WirelessCharger);
        res.push(Technology::Autofocus);
        assert(res@ =~= Self::all_variants());
        res
    }
}

#[derive(Debug, Clone, Copy, PartialEq, Eq, Structural)]
pub enum Country {
    China,
}

impl Country {
    /// The variant's name, as `{:?}` prints it.
    pub open spec fn variant_name(self) -> Seq<char> {
        match self {
            Country::China => "China"@,
        }
    }

    /// Every variant, in declaration order.
    pub open spec fn all_variants() -> Seq<Country> {
        seq![Country::China]
    }

    pub proof fn lemma_all_variants_complete(x: Country)
        ensures
            Self::all_variants().contains(x),
    {
        match x {
            Country::China => assert(Self::all_variants()[0] == x),
        }
    }

    /// The variant's name.
    pub fn as_str(&self) -> (res: &'static str)
        ensures
            res@ == self.variant_name(),
    {
        match self {
            Country::China => "China",
        }
    }

    /// Every variant, in declaration order.
    pub fn variants() -> (res: Vec<Country>)
        ensures
            res@ == Self::all_variants(),
    {
        let mut res: Vec<Country> = Vec::new();
        res.push(Country::China);
        assert(res@ =~= Self::all_variants());
        res
    }
}

#[derive(Debug, Clone, Copy, PartialEq, Eq, Structural)]
pub enum MemoryCardSlot {
    Hybrid,
    Separate,
    /// No slot; its name, as stored, is `None`.
    Absent,
}

impl MemoryCardSlot {
    /// The variant's name, as `{:?}` prints it.
    pub open spec fn variant_name(self) -> Seq<char> {
        match self {
            MemoryCardSlot::Hybrid => "Hybrid"@,
            MemoryCardSlot::Separate => "Separate"@,
            MemoryCardSlot::Absent => "None"@,
        }
    }

    /// Every variant, in declaration order.
    pub open spec fn all_variants() -> Seq<MemoryCardSlot> {
        seq![MemoryCardSlot::Hybrid, MemoryCardSlot::Separate, MemoryCardSlot::Absent]
    }

    pub proof fn lemma_all_variants_complete(x: MemoryCardSlot)
        ensures
            Self::all_variants().contains(x),
    {
        match x {
            MemoryCardSlot::Hybrid => assert(Self::all_variants()[0] == x),
            MemoryCardSlot::Separate => assert(Self::all_variants()[1] == x),
            MemoryCardSlot::Absent => assert(Self::all_variants()[2] == x),
        }
    }

    /// The variant's name.
    pub fn as_str(&self) -> (res: &'static str)
        ensures
            res@ == self.variant_name(),
    {
        match self {
            MemoryCardSlot::Hybrid => "Hybrid",
            MemoryCardSlot::Separate => "Separate",
            MemoryCardSlot::Absent => "None",
        }
    }

    /// Every variant, in declaration order.
    pub fn variants() -> (res: Vec<MemoryCardSlot>)
        ensures
            res@ == Self::all_variants(),
    {
        let mut res: Vec<MemoryCardSlot> = Vec::new();
        res.push(MemoryCardSlot::Hybrid);
        res.push(MemoryCardSlot::Separate);
        res.push(MemoryCardSlot::Absent);
        assert(res@ =~= Self::all_variants());
        res
    }
}

#[derive(Debug, Clone, Copy, PartialEq, Eq, Structural)]
pub enum MediaFormat {
    MP4,
    M4V,
    MKV,
    XVID,
    WAV,
    AAC,
    MP3,
    AMR,
    FLAC,
    APE,
    AAC_plus,
    eAAC_plus,
    AMR_NB,
    WB,
    VC1,
    PCM,
    H263,
    H264,
    H265,
    MPEG4,
    ASF,
    WMV,
    _3GI,
    WEBM,
    FLV,
    MIDI,
    WAVE,
    Opus,
    DSF,
    M4A,
    OGG,
    WMA,
    AWB,
}

impl MediaFormat {
    /// The variant's name, as `{:?}` prints it.
    pub open spec fn variant_name(self) -> Seq<char> {
        match self {
            MediaFormat::MP4 => "MP4"@,
            MediaFormat::M4V => "M4V"@,
            MediaFormat::MKV => "MKV"@,
            MediaFormat::XVID => "XVID"@,
            MediaFormat::WAV => "WAV"@,
            MediaFormat::AAC => "AAC"@,
            MediaFormat::MP3 => "MP3"@,
            MediaFormat::AMR => "AMR"@,
            MediaFormat::FLAC => "FLAC"@,
            MediaFormat::APE => "APE"@,
            MediaFormat::AAC_plus => "AAC_plus"@,
            MediaFormat::eAAC_plus => "eAAC_plus"@,
            MediaFormat::AMR_NB => "AMR_NB"@,
            MediaFormat::WB => "WB"@,
            MediaFormat::VC1 => "VC1"@,
            MediaFormat::PCM => "PCM"@,
            MediaFormat::H263 => "H263"@,
            MediaFormat::H264 => "H264"@,
            MediaFormat::H265 => "H265"@,
            MediaFormat::MPEG4 => "MPEG4"@,
            MediaFormat::ASF => "ASF"@,
            MediaFormat::WMV => "WMV"@,
            MediaFormat::_3GI => "_3GI"@,
            MediaFormat::WEBM => "WEBM"@,
            MediaFormat::FLV => "FLV"@,
            MediaFormat::MIDI => "MIDI"@,
            MediaFormat::WAVE => "WAVE"@,
            MediaFormat::Opus => "Opus"@,
            MediaFormat::DSF => "DSF"@,
            MediaFormat::M4A => "M4A"@,
            MediaFormat::OGG => "OGG"@,
            MediaFormat::WMA => "WMA"@,
            MediaFormat::AWB => "AWB"@,
        }
    }

    /// Every variant, in declaration order.
    pub open spec fn all_variants() -> Seq<MediaFormat> {
        seq![MediaFormat::MP4, MediaFormat::M4V, MediaFormat::MKV, MediaFormat::XVID, MediaFormat::WAV, MediaFormat::AAC, MediaFormat::MP3, MediaFormat::AMR, MediaFormat::FLAC, MediaFormat::APE, MediaFormat::AAC_plus, MediaFormat::eAAC_plus, MediaFormat::AMR_NB, MediaFormat::WB, MediaFormat::VC1, MediaFormat::PCM, MediaFormat::H263, MediaFormat::H264, MediaFormat::H265, MediaFormat::MPEG4, MediaFormat::ASF, MediaFormat::WMV, MediaFormat::_3GI, MediaFormat::WEBM, MediaFormat::FLV, MediaFormat::MIDI, MediaFormat::WAVE, MediaFormat::Opus, MediaFormat::DSF, MediaFormat::M4A, MediaFormat::OGG, MediaFormat::WMA, MediaFormat::AWB]
    }

    pub proof fn lemma_all_variants_complete(x: MediaFormat)
        ensures
            Self::all_variants().contains(x),
    {
        match x {
            MediaFormat::MP4 => assert(Self::all_variants()[0] == x),
            MediaFormat::M4V => assert(Self::all_variants()[1] == x),
            MediaFormat::MKV => assert(Self::all_variants()[2] == x),
            MediaFormat::XVID => assert(Self::all_variants()[3] == x),
            MediaFormat::WAV => assert(Self::all_variants()[4] == x),
            MediaFormat::AAC => assert(Self::all_variants()[5] == x),
            MediaFormat::MP3 => assert(Self::all_variants()[6] == x),
            MediaFormat::AMR => assert(Self::all_variants()[7] == x),
            MediaFormat::FLAC => assert(Self::all_variants()[8] == x),
            MediaFormat::APE => assert(Self::all_variants()[9] == x),
            MediaFormat::AAC_plus => assert(Self::all_variants()[10] == x),
            MediaFormat::eAAC_plus => assert(Self::all_variants()[11] == x),
            MediaFormat::AMR_NB => assert(Self::all_variants()[12] == x),
            MediaFormat::WB => assert(Self::all_variants()[13] == x),
            MediaFormat::VC1 => assert(Self::all_variants()[14] == x),
            MediaFormat::PCM => assert(Self::all_variants()[15] == x),
            MediaFormat::H263 => assert(Self::all_variants()[16] == x),
            MediaFormat::H264 => assert(Self::all_variants()[17] == x),
            MediaFormat::H265 => assert(Self::all_variants()[18] == x),
            MediaFormat::MPEG4 => assert(Self::all_variants()[19] == x),
            MediaFormat::ASF => assert(Self::all_variants()[20] == x),
            MediaFormat::WMV => assert(Self::all_variants()[21] == x),
            MediaFormat::_3GI => assert(Self::all_variants()[22] == x),
            MediaFormat::WEBM => assert(Self::all_variants()[23] == x),
            MediaFormat::FLV => assert(Self::all_variants()[24] == x),
            MediaFormat::MIDI => assert(Self::all_variants()[25] == x),
            MediaFormat::WAVE => assert(Self::all_variants()[26] == x),
            MediaFormat::Opus => assert(Self::all_variants()[27] == x),
            MediaFormat::DSF => assert(Self::all_variants()[28] == x),
            MediaFormat::M4A => assert(Self::all_variants()[29] == x),
            MediaFormat::OGG => assert(Self::all_variants()[30] == x),
            MediaFormat::WMA => assert(Self::all_variants()[31] == x),
            MediaFormat::AWB => assert(Self::all_variants()[32] == x),
        }
    }

    /// The variant's name.
    pub fn as_str(&self) -> (res: &'static str)
        ensures
            res@ == self.variant_name(),
    {
        match self {
            MediaFormat::MP4 => "MP4",
            MediaFormat::M4V => "M4V",
            MediaFormat::MKV => "MKV",
            MediaFormat::XVID => "XVID",
            MediaFormat::WAV => "WAV",
            MediaFormat::AAC => "AAC",
            MediaFormat::MP3 => "MP3",
            MediaFormat::AMR => "AMR",
            MediaFormat::FLAC => "FLAC",
            MediaFormat::APE => "APE",
            MediaFormat::AAC_plus => "AAC_plus",
            MediaFormat::eAAC_plus => "eAAC_plus",
            MediaFormat::AMR_NB => "AMR_NB",
            MediaFormat::WB => "WB",
            MediaFormat::VC1 => "VC1",
            MediaFormat::PCM => "PCM",
            MediaFormat::H263 => "H263",
            MediaFormat::H264 => "H264",
            MediaFormat::H265 => "H265",
            MediaFormat::MPEG4 => "MPEG4",
            MediaFormat::ASF => "ASF",
            MediaFormat::WMV => "WMV",
            MediaFormat::_3GI => "_3GI",
            MediaFormat::WEBM => "WEBM",
            MediaFormat::FLV => "FLV",
            MediaFormat::MIDI => "MIDI",
            MediaFormat::WAVE => "WAVE",
            MediaFormat::Opus => "Opus",
            MediaFormat::DSF => "DSF",
            MediaFormat::M4A => "M4A",
            MediaFormat::OGG => "OGG",
            MediaFormat::WMA => "WMA",
            MediaFormat::AWB => "AWB",
        }
    }

    /// Every variant, in declaration order.
    pub fn variants() -> (res: Vec<MediaFormat>)
        ensures
            res@ == Self::all_variants(),
    {
        let mut res: Vec<MediaFormat> = Vec::new();
        res.push(MediaFormat::MP4);
        res.push(MediaFormat::M4V);
        res.push(MediaFormat::MKV);
        res.push(MediaFormat::XVID);
        res.push(MediaFormat::WAV);
        res.push(MediaFormat::AAC);
        res.push(MediaFormat::MP3);
        res.push(MediaFormat::AMR);
        res.push(MediaFormat::FLAC);
        res.push(MediaFormat::APE);
        res.push(MediaFormat::AAC_plus);
        res.push(MediaFormat::eAAC_plus);
        res.push(MediaFormat::AMR_NB);
        res.push(MediaFormat::WB);
        res.push(MediaFormat::VC1);
        res.push(MediaFormat::PCM);
        res.push(MediaFormat::H263);
        res.push(MediaFormat::H264);
        res.push(MediaFormat::H265);
        res.push(MediaFormat::MPEG4);
        res.push(MediaFormat::ASF);
        res.push(MediaFormat::WMV);
        res.push(MediaFormat::_3GI);
        res.push(MediaFormat::WEBM);
        res.push(MediaFormat::FLV);
        res.push(MediaFormat::MIDI);
        res.push(MediaFormat::WAVE);
        res.push(MediaFormat::Opus);
        res.push(MediaFormat::DSF);
        res.push(MediaFormat::M4A);
        res.push(MediaFormat::OGG);
        res.push(MediaFormat::WMA);
        res.push(MediaFormat::AWB);
        assert(res@ =~= Self::all_variants());
        res
    }
}

#[derive(Debug, Clone, Copy, PartialEq, Eq, Structural)]
pub enum EnumCharacteristic {
    ChargingConnectorType(ChargingConnectorType),
    BatteryType(BatteryType),
    SimCard(SimCard),
    Material(Material),
    DisplayType(DisplayType),
    InternetConnectionTechnology(InternetConnectionTechnology),
    SatelliteNavigation(SatelliteNavigation),
    WifiStandard(WifiStandard),
    AudioJack(AudioJack),
    TechnologySupport(Technology),
    ProducingCountry(Country),
    MemoryCardSlot(MemoryCardSlot),
    SupportedMediaFormat(MediaFormat),
}

impl EnumCharacteristic {
    /// The name of the characteristic: the variant's name, as `{:?}` prints it.
    pub open spec fn characteristic_name(self) -> Seq<char> {
        match self {
            EnumCharacteristic::ChargingConnectorType(_) => "ChargingConnectorType"@,
            EnumCharacteristic::BatteryType(_) => "BatteryType"@,
            EnumCharacteristic::SimCard(_) => "SimCard"@,
            EnumCharacteristic::Material(_) => "Material"@,
            EnumCharacteristic::DisplayType(_) => "DisplayType"@,
            EnumCharacteristic::InternetConnectionTechnology(_) => "InternetConnectionTechnology"@,
            EnumCharacteristic::SatelliteNavigation(_) => "SatelliteNavigation"@,
            EnumCharacteristic::WifiStandard(_) => "WifiStandard"@,
            EnumCharacteristic::AudioJack(_) => "AudioJack"@,
            EnumCharacteristic::TechnologySupport(_) => "TechnologySupport"@,
            EnumCharacteristic::ProducingCountry(_) => "ProducingCountry"@,
            EnumCharacteristic::MemoryCardSlot(_) => "MemoryCardSlot"@,
            EnumCharacteristic::SupportedMediaFormat(_) => "SupportedMediaFormat"@,
        }
    }

    /// The name of the value that the characteristic holds.
    pub open spec fn value_name(self) -> Seq<char> {
        match self {
            EnumCharacteristic::ChargingConnectorType(e) => e.variant_name(),
            EnumCharacteristic::BatteryType(e) => e.variant_name(),
            EnumCharacteristic::SimCard(e) => e.variant_name(),
            EnumCharacteristic::Material(e) => e.variant_name(),
            EnumCharacteristic::DisplayType(e) => e.variant_name(),
            EnumCharacteristic::InternetConnectionTechnology(e) => e.variant_name(),
            EnumCharacteristic::SatelliteNavigation(e) => e.variant_name(),
            EnumCharacteristic::WifiStandard(e) => e.variant_name(),
            EnumCharacteristic::AudioJack(e) => e.variant_name(),
            EnumCharacteristic::TechnologySupport(e) => e.variant_name(),
            EnumCharacteristic::ProducingCountry(e) => e.variant_name(),
            EnumCharacteristic::MemoryCardSlot(e) => e.variant_name(),
            EnumCharacteristic::SupportedMediaFormat(e) => e.variant_name(),
        }
    }

    /// The key under which the value is stored: `<name>.<value>`.
    pub open spec fn key(self) -> Seq<char> {
        self.characteristic_name() + "."@ + self.value_name()
    }

    /// Every value of every characteristic, characteristic by characteristic in
    /// declaration order, each in the declaration order of its values.
    pub open spec fn all_values() -> Seq<EnumCharacteristic> {
        ChargingConnectorType::all_variants().map_values(|e: ChargingConnectorType| EnumCharacteristic::ChargingConnectorType(e))
            + BatteryType::all_variants().map_values(|e: BatteryType| EnumCharacteristic::BatteryType(e))
            + SimCard::all_variants().map_values(|e: SimCard| EnumCharacteristic::SimCard(e))
            + Material::all_variants().map_values(|e: Material| EnumCharacteristic::Material(e))
            + DisplayType::all_variants().map_values(|e: DisplayType| EnumCharacteristic::DisplayType(e))
            + InternetConnectionTechnology::all_variants().map_values(|e: InternetConnectionTechnology| EnumCharacteristic::InternetConnectionTechnology(e))
            + SatelliteNavigation::all_variants().map_values(|e: SatelliteNavigation| EnumCharacteristic::SatelliteNavigation(e))
            + WifiStandard::all_variants().map_values(|e: WifiStandard| EnumCharacteristic::WifiStandard(e))
            + AudioJack::all_variants().map_values(|e: AudioJack| EnumCharacteristic::AudioJack(e))
            + Technology::all_variants().map_values(|e: Technology| EnumCharacteristic::TechnologySupport(e))
            + Country::all_variants().map_values(|e: Country| EnumCharacteristic::ProducingCountry(e))
            + MemoryCardSlot::all_variants().map_values(|e: MemoryCardSlot| EnumCharacteristic::MemoryCardSlot(e))
            + MediaFormat::all_variants().map_values(|e: MediaFormat| EnumCharacteristic::SupportedMediaFormat(e))
    }

    /// The names of all characteristics, in declaration order.
    pub open spec fn all_names() -> Seq<Seq<char>> {
        seq!["ChargingConnectorType"@, "BatteryType"@, "SimCard"@, "Material"@, "DisplayType"@, "InternetConnectionTechnology"@, "SatelliteNavigation"@, "WifiStandard"@, "AudioJack"@, "TechnologySupport"@, "ProducingCountry"@, "MemoryCardSlot"@, "SupportedMediaFormat"@]
    }

    /// The name of the characteristic: the name of its variant, as `{:?}`
    /// prints it up to the first `(`.
    pub fn name(&self) -> (res: String)
        ensures
            res@ == self.characteristic_name(),
    {
        match self {
            EnumCharacteristic::ChargingConnectorType(_) => String::from_str("ChargingConnectorType"),
            EnumCharacteristic::BatteryType(_) => String::from_str("BatteryType"),
            EnumCharacteristic::SimCard(_) => String::from_str("SimCard"),
            EnumCharacteristic::Material(_) => String::from_str("Material"),
            EnumCharacteristic::DisplayType(_) => String::from_str("DisplayType"),
            EnumCharacteristic::InternetConnectionTechnology(_) => String::from_str("InternetConnectionTechnology"),
            EnumCharacteristic::SatelliteNavigation(_) => String::from_str("SatelliteNavigation"),
            EnumCharacteristic::WifiStandard(_) => String::from_str("WifiStandard"),
            EnumCharacteristic::AudioJack(_) => String::from_str("AudioJack"),
            EnumCharacteristic::TechnologySupport(_) => String::from_str("TechnologySupport"),
            EnumCharacteristic::ProducingCountry(_) => String::from_str("ProducingCountry"),
            EnumCharacteristic::MemoryCardSlot(_) => String::from_str("MemoryCardSlot"),
            EnumCharacteristic::SupportedMediaFormat(_) => String::from_str("SupportedMediaFormat"),
        }
    }

    /// The name of the value, as `{:?}` prints the inner value.
    pub fn value(&self) -> (res: String)
        ensures
            res@ == self.value_name(),
    {
        match self {
            EnumCharacteristic::ChargingConnectorType(e) => String::from_str(e.as_str()),
            EnumCharacteristic::BatteryType(e) => String::from_str(e.as_str()),
            EnumCharacteristic::SimCard(e) => String::from_str(e.as_str()),
            EnumCharacteristic::Material(e) => String::from_str(e.as_str()),
            EnumCharacteristic::DisplayType(e) => String::from_str(e.as_str()),
            EnumCharacteristic::InternetConnectionTechnology(e) => String::from_str(e.as_str()),
            EnumCharacteristic::SatelliteNavigation(e) => String::from_str(e.as_str()),
            EnumCharacteristic::WifiStandard(e) => String::from_str(e.as_str()),
            EnumCharacteristic::AudioJack(e) => String::from_str(e.as_str()),
            EnumCharacteristic::TechnologySupport(e) => String::from_str(e.as_str()),
            EnumCharacteristic::ProducingCountry(e) => String::from_str(e.as_str()),
            EnumCharacteristic::MemoryCardSlot(e) => String::from_str(e.as_str()),
            EnumCharacteristic::SupportedMediaFormat(e) => String::from_str(e.as_str()),
        }
    }

    /// The key under which the value is stored: `<name>.<value>`.
    pub fn full_name(&self) -> (res: String)
        ensures
            res@ == self.key(),
    {
        let mut res = self.name();
        res.append(".");
        let value = self.value();
        res.append(value.as_str());
        res
    }

    /// Every value of every characteristic, in the order of `all_values`.
    pub fn values() -> (res: Vec<EnumCharacteristic>)
        ensures
            res@ == Self::all_values(),
    {
        let mut res: Vec<EnumCharacteristic> = Vec::new();
        let ghost before = res@;
        let items = ChargingConnectorType::variants();
        for x in it: items
            invariant
                items@ == ChargingConnectorType::all_variants(),
                res@ == before + ChargingConnectorType::all_variants().take(it.index() as int).map_values(|e: ChargingConnectorType| EnumCharacteristic::ChargingConnectorType(e)),
        {
            proof {
                assert(ChargingConnectorType::all_variants().take(it.index() + 1) =~= ChargingConnectorType::all_variants().take(it.index() as int).push(x));
            }
            res.push(EnumCharacteristic::ChargingConnectorType(x));
            proof {
                assert(res@ =~= before + ChargingConnectorType::all_variants().take(it.index() + 1).map_values(|e: ChargingConnectorType| EnumCharacteristic::ChargingConnectorType(e)));
            }
        }
        assert(ChargingConnectorType::all_variants().take(ChargingConnectorType::all_variants().len() as int) =~= ChargingConnectorType::all_variants());
        let ghost before = res@;
        let items = BatteryType::variants();
        for x in it: items
            invariant
                items@ == BatteryType::all_variants(),
                res@ == before + BatteryType::all_variants().take(it.index() as int).map_values(|e: BatteryType| EnumCharacteristic::BatteryType(e)),
        {
            proof {
                assert(BatteryType::all_variants().take(it.index() + 1) =~= BatteryType::all_variants().take(it.index() as int).push(x));
            }
            res.push(EnumCharacteristic::BatteryType(x));
            proof {
                assert(res@ =~= before + BatteryType::all_variants().take(it.index() + 1).map_values(|e: BatteryType| EnumCharacteristic::BatteryType(e)));
            }
        }
        assert(BatteryType::all_variants().take(BatteryType::all_variants().len() as int) =~= BatteryType::all_variants());
        let ghost before = res@;
        let items = SimCard::variants();
        for x in it: items
            invariant
                items@ == SimCard::all_variants(),
                res@ == before + SimCard::all_variants().take(it.index() as int).map_values(|e: SimCard| EnumCharacteristic::SimCard(e)),
        {
            proof {
                assert(SimCard::all_variants().take(it.index() + 1) =~= SimCard::all_variants().take(it.index() as int).push(x));
            }
            res.push(EnumCharacteristic::SimCard(x));
            proof {
                assert(res@ =~= before + SimCard::all_variants().take(it.index() + 1).map_values(|e: SimCard| EnumCharacteristic::SimCard(e)));
            }
        }
        assert(SimCard::all_variants().take(SimCard::all_variants().len() as int) =~= SimCard::all_variants());
        let ghost before = res@;
        let items = Material::variants();
        for x in it: items
            invariant
                items@ == Material::all_variants(),
                res@ == before + Material::all_variants().take(it.index() as int).map_values(|e: Material| EnumCharacteristic::Material(e)),
        {
            proof {
                assert(Material::all_variants().take(it.index() + 1) =~= Material::all_variants().take(it.index() as int).push(x));
            }
            res.push(EnumCharacteristic::Material(x));
            proof {
                assert(res@ =~= before + Material::all_variants().take(it.index() + 1).map_values(|e: Material| EnumCharacteristic::Material(e)));
            }
        }
        assert(Material::all_variants().take(Material::all_variants().len() as int) =~= Material::all_variants());
        let ghost before = res@;
        let items = DisplayType::variants();
        for x in it: items
            invariant
                items@ == DisplayType::all_variants(),
                res@ == before + DisplayType::all_variants().take(it.index() as int).map_values(|e: DisplayType| EnumCharacteristic::DisplayType(e)),
        {
            proof {
                assert(DisplayType::all_variants().take(it.index() + 1) =~= DisplayType::all_variants().take(it.index() as int).push(x));
            }
            res.push(EnumCharacteristic::DisplayType(x));
            proof {
                assert(res@ =~= before + DisplayType::all_variants().take(it.index() + 1).map_values(|e: DisplayType| EnumCharacteristic::DisplayType(e)));
            }
        }
        assert(DisplayType::all_variants().take(DisplayType::all_variants().len() as int) =~= DisplayType::all_variants());
        let ghost before = res@;
        let items = InternetConnectionTechnology::variants();
        for x in it: items
            invariant
                items@ == InternetConnectionTechnology::all_variants(),
                res@ == before + InternetConnectionTechnology::all_variants().take(it.index() as int).map_values(|e: InternetConnectionTechnology| EnumCharacteristic::InternetConnectionTechnology(e)),
        {
            proof {
                assert(InternetConnectionTechnology::all_variants().take(it.index() + 1) =~= InternetConnectionTechnology::all_variants().take(it.index() as int).push(x));
            }
            res.push(EnumCharacteristic::InternetConnectionTechnology(x));
            proof {
                assert(res@ =~= before + InternetConnectionTechnology::all_variants().take(it.index() + 1).map_values(|e: InternetConnectionTechnology| EnumCharacteristic::InternetConnectionTechnology(e)));
            }
        }
        assert(InternetConnectionTechnology::all_variants().take(InternetConnectionTechnology::all_variants().len() as int) =~= InternetConnectionTechnology::all_variants());
        let ghost before = res@;
        let items = SatelliteNavigation::variants();
        for x in it: items
            invariant
                items@ == SatelliteNavigation::all_variants(),
                res@ == before + SatelliteNavigation::all_variants().take(it.index() as int).map_values(|e: SatelliteNavigation| EnumCharacteristic::SatelliteNavigation(e)),
        {
            proof {
                assert(SatelliteNavigation::all_variants().take(it.index() + 1) =~= SatelliteNavigation::all_variants().take(it.index() as int).push(x));
            }
            res.push(EnumCharacteristic::SatelliteNavigation(x));
            proof {
                assert(res@ =~= before + SatelliteNavigation::all_variants().take(it.index() + 1).map_values(|e: SatelliteNavigation| EnumCharacteristic::SatelliteNavigation(e)));
            }
        }
        assert(SatelliteNavigation::all_variants().take(SatelliteNavigation::all_variants().len() as int) =~= SatelliteNavigation::all_variants());
        let ghost before = res@;
        let items = WifiStandard::variants();
        for x in it: items
            invariant
                items@ == WifiStandard::all_variants(),
                res@ == before + WifiStandard::all_variants().take(it.index() as int).map_values(|e: WifiStandard| EnumCharacteristic::WifiStandard(e)),
        {
            proof {
                assert(WifiStandard::all_variants().take(it.index() + 1) =~= WifiStandard::all_variants().take(it.index() as int).push(x));
            }
            res.push(EnumCharacteristic::WifiStandard(x));
            proof {
                assert(res@ =~= before + WifiStandard::all_variants().take(it.index() + 1).map_values(|e: WifiStandard| EnumCharacteristic::WifiStandard(e)));
            }
        }
        assert(WifiStandard::all_variants().take(WifiStandard::all_variants().len() as int) =~= WifiStandard::all_variants());
        let ghost before = res@;
        let items = AudioJack::variants();
        for x in it: items
            invariant
                items@ == AudioJack::all_variants(),
                res@ == before + AudioJack::all_variants().take(it.index() as int).map_values(|e: AudioJack| EnumCharacteristic::AudioJack(e)),
        {
            proof {
                assert(AudioJack::all_variants().take(it.index() + 1) =~= AudioJack::all_variants().take(it.index() as int).push(x));
            }
            res.push(EnumCharacteristic::AudioJack(x));
            proof {
                assert(res@ =~= before + AudioJack::all_variants().take(it.index() + 1).map_values(|e: AudioJack| EnumCharacteristic::AudioJack(e)));
            }
        }
        assert(AudioJack::all_variants().take(AudioJack::all_variants().len() as int) =~= AudioJack::all_variants());
        let ghost before = res@;
        let items = Technology::variants();
        for x in it: items
            invariant
                items@ == Technology::all_variants(),
                res@ == before + Technology::all_variants().take(it.index() as int).map_values(|e: Technology| EnumCharacteristic::TechnologySupport(e)),
        {
            proof {
                assert(Technology::all_variants().take(it.index() + 1) =~= Technology::all_variants().take(it.index() as int).push(x));
            }
            res.push(EnumCharacteristic::TechnologySupport(x));
            proof {
                assert(res@ =~= before + Technology::all_variants().take(it.index() + 1).map_values(|e: Technology| EnumCharacteristic::TechnologySupport(e)));
            }
        }
        assert(Technology::all_variants().take(Technology::all_variants().len() as int) =~= Technology::all_variants());
        let ghost before = res@;
        let items = Country::variants();
        for x in it: items
            invariant
                items@ == Country::all_variants(),
                res@ == before + Country::all_variants().take(it.index() as int).map_values(|e: Country| EnumCharacteristic::ProducingCountry(e)),
        {
            proof {
                assert(Country::all_variants().take(it.index() + 1) =~= Country::all_variants().take(it.index() as int).push(x));
            }
            res.push(EnumCharacteristic::ProducingCountry(x));
            proof {
                assert(res@ =~= before + Country::all_variants().take(it.index() + 1).map_values(|e: Country| EnumCharacteristic::ProducingCountry(e)));
            }
        }
        assert(Country::all_variants().take(Country::all_variants().len() as int) =~= Country::all_variants());
        let ghost before = res@;
        let items = MemoryCardSlot::variants();
        for x in it: items
            invariant
                items@ == MemoryCardSlot::all_variants(),
                res@ == before + MemoryCardSlot::all_variants().take(it.index() as int).map_values(|e: MemoryCardSlot| EnumCharacteristic::MemoryCardSlot(e)),
        {
            proof {
                assert(MemoryCardSlot::all_variants().take(it.index() + 1) =~= MemoryCardSlot::all_variants().take(it.index() as int).push(x));
            }
            res.push(EnumCharacteristic::MemoryCardSlot(x));
            proof {
                assert(res@ =~= before + MemoryCardSlot::all_variants().take(it.index() + 1).map_values(|e: MemoryCardSlot| EnumCharacteristic::MemoryCardSlot(e)));
            }
        }
        assert(MemoryCardSlot::all_variants().take(MemoryCardSlot::all_variants().len() as int) =~= MemoryCardSlot::all_variants());
        let ghost before = res@;
        let items = MediaFormat::variants();
        for x in it: items
            invariant
                items@ == MediaFormat::all_variants(),
                res@ == before + MediaFormat::all_variants().take(it.index() as int).map_values(|e: MediaFormat| EnumCharacteristic::SupportedMediaFormat(e)),
        {
            proof {
                assert(MediaFormat::all_variants().take(it.index() + 1) =~= MediaFormat::all_variants().take(it.index() as int).push(x));
            }
            res.push(EnumCharacteristic::SupportedMediaFormat(x));
            proof {
                assert(res@ =~= before + MediaFormat::all_variants().take(it.index() + 1).map_values(|e: MediaFormat| EnumCharacteristic::SupportedMediaFormat(e)));
            }
        }
        assert(MediaFormat::all_variants().take(MediaFormat::all_variants().len() as int) =~= MediaFormat::all_variants());
        assert(res@ =~= Self::all_values());
        res
    }

    /// The text form of the characteristic, as `{:?}` prints it: its name,
    /// then its value in parentheses.
    pub open spec fn text_form(self) -> Seq<char> {
        self.characteristic_name() + "("@ + self.value_name() + ")"@
    }

    /// The text form of the characteristic: `<name>(<value>)`.
    pub fn to_text(&self) -> (res: String)
        ensures
            res@ == self.text_form(),
    {
        let mut res = self.name();
        res.append("(");
        let value = self.value();
        res.append(value.as_str());
        res.append(")");
        res
    }

    /// The names of all characteristics, in declaration order.
    pub fn names() -> (res: Vec<String>)
        ensures
            res.deep_view() == Self::all_names(),
    {
        let mut res: Vec<String> = Vec::new();
        res.push(String::from_str("ChargingConnectorType"));
        res.push(String::from_str("BatteryType"));
        res.push(String::from_str("SimCard"));
        res.push(String::from_str("Material"));
        res.push(String::from_str("DisplayType"));
        res.push(String::from_str("InternetConnectionTechnology"));
        res.push(String::from_str("SatelliteNavigation"));
        res.push(String::from_str("WifiStandard"));
        res.push(String::from_str("AudioJack"));
        res.push(String::from_str("TechnologySupport"));
        res.push(String::from_str("ProducingCountry"));
        res.push(String::from_str("MemoryCardSlot"));
        res.push(String::from_str("SupportedMediaFormat"));
        assert(res.deep_view() =~= Self::all_names());
        res
    }
}

/// The name of a characteristic is its text form up to the first `(`, and
/// its value what stands between that `(` and the closing `)`: `name`,
/// `value` and `to_text` agree.
pub proof fn lemma_text_form_parts(e: EnumCharacteristic)
    ensures
        e.text_form().take(e.characteristic_name().len() as int) == e.characteristic_name(),
        e.text_form()[e.characteristic_name().len() as int] == '(',
        forall|i: int| 0 <= i < e.characteristic_name().len() ==> e.text_form()[i] != '(',
        e.text_form().subrange(e.characteristic_name().len() as int + 1, e.text_form().len() - 1) == e.value_name(),
        e.text_form().last() == ')',
{
    reveal_strlit("(");
    reveal_strlit(")");
    match e {
        EnumCharacteristic::ChargingConnectorType(_) => {
            reveal_strlit("ChargingConnectorType");
        },
        EnumCharacteristic::BatteryType(_) => {
            reveal_strlit("BatteryType");
        },
        EnumCharacteristic::SimCard(_) => {
            reveal_strlit("SimCard");
        },
        EnumCharacteristic::Material(_) => {
            reveal_strlit("Material");
        },
        EnumCharacteristic::DisplayType(_) => {
            reveal_strlit("DisplayType");
        },
        EnumCharacteristic::InternetConnectionTechnology(_) => {
            reveal_strlit("InternetConnectionTechnology");
        },
        EnumCharacteristic::SatelliteNavigation(_) => {
            reveal_strlit("SatelliteNavigation");
        },
        EnumCharacteristic::WifiStandard(_) => {
            reveal_strlit("WifiStandard");
        },
        EnumCharacteristic::AudioJack(_) => {
            reveal_strlit("AudioJack");
        },
        EnumCharacteristic::TechnologySupport(_) => {
            reveal_strlit("TechnologySupport");
        },
        EnumCharacteristic::ProducingCountry(_) => {
            reveal_strlit("ProducingCountry");
        },
        EnumCharacteristic::MemoryCardSlot(_) => {
            reveal_strlit("MemoryCardSlot");
        },
        EnumCharacteristic::SupportedMediaFormat(_) => {
            reveal_strlit("SupportedMediaFormat");
        },
    }
    let n = e.characteristic_name();
    let t = e.text_form();
    assert(t.take(n.len() as int) =~= n);
    assert(t.subrange(n.len() as int + 1, t.len() - 1) =~= e.value_name());
    assert forall|i: int| 0 <= i < n.len() implies t[i] != '(' by {
        assert(t[i] == n[i]);
    }
}

/// Every value of every characteristic is among `all_values`: a value that
/// a parser produces always has a stored key.
pub proof fn lemma_all_values_complete(e: EnumCharacteristic)
    ensures
        EnumCharacteristic::all_values().contains(e),
{
    broadcast use vstd::seq_lib::lemma_seq_concat_contains_all_elements;

    match e {
        EnumCharacteristic::ChargingConnectorType(x) => {
            ChargingConnectorType::lemma_all_variants_complete(x);
            let i = choose|i: int| 0 <= i < ChargingConnectorType::all_variants().len() && ChargingConnectorType::all_variants()[i] == x;
            let g = ChargingConnectorType::all_variants().map_values(|e: ChargingConnectorType| EnumCharacteristic::ChargingConnectorType(e));
            assert(g[i] == e);
            assert(g.contains(e));
        },
        EnumCharacteristic::BatteryType(x) => {
            BatteryType::lemma_all_variants_complete(x);
            let i = choose|i: int| 0 <= i < BatteryType::all_variants().len() && BatteryType::all_variants()[i] == x;
            let g = BatteryType::all_variants().map_values(|e: BatteryType| EnumCharacteristic::BatteryType(e));
            assert(g[i] == e);
            assert(g.contains(e));
        },
        EnumCharacteristic::SimCard(x) => {
            SimCard::lemma_all_variants_complete(x);
            let i = choose|i: int| 0 <= i < SimCard::all_variants().len() && SimCard::all_variants()[i] == x;
            let g = SimCard::all_variants().map_values(|e: SimCard| EnumCharacteristic::SimCard(e));
            assert(g[i] == e);
            assert(g.contains(e));
        },
        EnumCharacteristic::Material(x) => {
            Material::lemma_all_variants_complete(x);
            let i = choose|i: int| 0 <= i < Material::all_variants().len() && Material::all_variants()[i] == x;
            let g = Material::all_variants().map_values(|e: Material| EnumCharacteristic::Material(e));
            assert(g[i] == e);
            assert(g.contains(e));
        },
        EnumCharacteristic::DisplayType(x) => {
            DisplayType::lemma_all_variants_complete(x);
            let i = choose|i: int| 0 <= i < DisplayType::all_variants().len() && DisplayType::all_variants()[i] == x;
            let g = DisplayType::all_variants().map_values(|e: DisplayType| EnumCharacteristic::DisplayType(e));
            assert(g[i] == e);
            assert(g.contains(e));
        },
        EnumCharacteristic::InternetConnectionTechnology(x) => {
            InternetConnectionTechnology::lemma_all_variants_complete(x);
            let i = choose|i: int| 0 <= i < InternetConnectionTechnology::all_variants().len() && InternetConnectionTechnology::all_variants()[i] == x;
            let g = InternetConnectionTechnology::all_variants().map_values(|e: InternetConnectionTechnology| EnumCharacteristic::InternetConnectionTechnology(e));
            assert(g[i] == e);
            assert(g.contains(e));
        },
        EnumCharacteristic::SatelliteNavigation(x) => {
            SatelliteNavigation::lemma_all_variants_complete(x);
            let i = choose|i: int| 0 <= i < SatelliteNavigation::all_variants().len() && SatelliteNavigation::all_variants()[i] == x;
            let g = SatelliteNavigation::all_variants().map_values(|e: SatelliteNavigation| EnumCharacteristic::SatelliteNavigation(e));
            assert(g[i] == e);
            assert(g.contains(e));
        },
        EnumCharacteristic::WifiStandard(x) => {
            WifiStandard::lemma_all_variants_complete(x);
            let i = choose|i: int| 0 <= i < WifiStandard::all_variants().len() && WifiStandard::all_variants()[i] == x;
            let g = WifiStandard::all_variants().map_values(|e: WifiStandard| EnumCharacteristic::WifiStandard(e));
            assert(g[i] == e);
            assert(g.contains(e));
        },
        EnumCharacteristic::AudioJack(x) => {
            AudioJack::lemma_all_variants_complete(x);
            let i = choose|i: int| 0 <= i < AudioJack::all_variants().len() && AudioJack::all_variants()[i] == x;
            let g = AudioJack::all_variants().map_values(|e: AudioJack| EnumCharacteristic::AudioJack(e));
            assert(g[i] == e);
            assert(g.contains(e));
        },
        EnumCharacteristic::TechnologySupport(x) => {
            Technology::lemma_all_variants_complete(x);
            let i = choose|i: int| 0 <= i < Technology::all_variants().len() && Technology::all_variants()[i] == x;
            let g = Technology::all_variants().map_values(|e: Technology| EnumCharacteristic::TechnologySupport(e));
            assert(g[i] == e);
            assert(g.contains(e));
        },
        EnumCharacteristic::ProducingCountry(x) => {
            Country::lemma_all_variants_complete(x);
            let i = choose|i: int| 0 <= i < Country::all_variants().len() && Country::all_variants()[i] == x;
            let g = Country::all_variants().map_values(|e: Country| EnumCharacteristic::ProducingCountry(e));
            assert(g[i] == e);
            assert(g.contains(e));
        },
        EnumCharacteristic::MemoryCardSlot(x) => {
            MemoryCardSlot::lemma_all_variants_complete(x);
            let i = choose|i: int| 0 <= i < MemoryCardSlot::all_variants().len() && MemoryCardSlot::all_variants()[i] == x;
            let g = MemoryCardSlot::all_variants().map_values(|e: MemoryCardSlot| EnumCharacteristic::MemoryCardSlot(e));
            assert(g[i] == e);
            assert(g.contains(e));
        },
        EnumCharacteristic::SupportedMediaFormat(x) => {
            MediaFormat::lemma_all_variants_complete(x);
            let i = choose|i: int| 0 <= i < MediaFormat::all_variants().len() && MediaFormat::all_variants()[i] == x;
            let g = MediaFormat::all_variants().map_values(|e: MediaFormat| EnumCharacteristic::SupportedMediaFormat(e));
            assert(g[i] == e);
            assert(g.contains(e));
        },
    }
}

} // verus!