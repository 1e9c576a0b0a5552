//! Characteristics whose value is a whole number.
#![allow(non_camel_case_types)]
use vstd::prelude::*;

verus! {

#[derive(Debug, Clone, Copy, PartialEq, Eq, Structural)]
pub enum IntCharacteristic {
    BatteryCapacity_mA_h(i32),
    NumberOfProcessorCores(i32),
    BuiltInMemory_GB(i32),
    Ram_GB(i32),
    FrontCamera_MP(i32),
    VideoResolution_Pix(i32),
    AmountOfSimCards(i32),
    PPI(i32),
    Fps(i32),
    Brightness_cd_m2(i32),
    UpdateFrequency_Hz(i32),
    Camera_mp(i32),
    LTEDiapason(i32),
    GSMDiapason(i32),
    UMTSDiapason(i32),
    Warranty_month(i32),
    MaxMemoryCardSize_GB(i32),
}

impl IntCharacteristic {
    /// The position of the characteristic's kind in declaration order.
    pub open spec fn kind_index(self) -> int {
        match self {
            IntCharacteristic::BatteryCapacity_mA_h(_) => 0,
            IntCharacteristic::NumberOfProcessorCores(_) => 1,
            IntCharacteristic::BuiltInMemory_GB(_) => 2,
            IntCharacteristic::Ram_GB(_) => 3,
            IntCharacteristic::FrontCamera_MP(_) => 4,
            IntCharacteristic::VideoResolution_Pix(_) => 5,
            IntCharacteristic::AmountOfSimCards(_) => 6,
            IntCharacteristic::PPI(_) => 7,
            IntCharacteristic::Fps(_) => 8,
            IntCharacteristic::Brightness_cd_m2(_) => 9,
            IntCharacteristic::UpdateFrequency_Hz(_) => 10,
            IntCharacteristic::Camera_mp(_) => 11,
            IntCharacteristic::LTEDiapason(_) => 12,
            IntCharacteristic::GSMDiapason(_) => 13,
            IntCharacteristic::UMTSDiapason(_) => 14,
            IntCharacteristic::Warranty_month(_) => 15,
            IntCharacteristic::MaxMemoryCardSize_GB(_) => 16,
        }
    }

    /// The names of all whole-number characteristics, in declaration order.
    pub open spec fn all_names() -> Seq<Seq<char>> {
        seq!["BatteryCapacity_mA_h"@, "NumberOfProcessorCores"@, "BuiltInMemory_GB"@, "Ram_GB"@, "FrontCamera_MP"@, "VideoResolution_Pix"@, "AmountOfSimCards"@, "PPI"@, "Fps"@, "Brightness_cd_m2"@, "UpdateFrequency_Hz"@, "Camera_mp"@, "LTEDiapason"@, "GSMDiapason"@, "UMTSDiapason"@, "Warranty_month"@, "MaxMemoryCardSize_GB"@]
    }

    /// The names of all whole-number characteristics, in declaration order.
    pub fn names() -> (res: Vec<String>)
        ensures
            res.deep_view() == Self::all_names(),
    {
        let mut res: Vec<String> = Vec::new();
        res.push(String::from_str("BatteryCapacity_mA_h"));
        res.push(String::from_str("NumberOfProcessorCores"));
        res.push(String::from_str("BuiltInMemory_GB"));
        res.push(String::from_str("Ram_GB"));
        res.push(String::from_str("FrontCamera_MP"));
        res.push(String::from_str("VideoResolution_Pix"));
        res.push(String::from_str("AmountOfSimCards"));
        res.push(String::from_str("PPI"));
        res.push(String::from_str("Fps"));
        res.push(String::from_str("Brightness_cd_m2"));
        res.push(String::from_str("UpdateFrequency_Hz"));
        res.push(String::from_str("Camera_mp"));
        res.push(String::from_str("LTEDiapason"));
        res.push(String::from_str("GSMDiapason"));
        res.push(String::from_str("UMTSDiapason"));
        res.push(String::from_str("Warranty_month"));
        res.push(String::from_str("MaxMemoryCardSize_GB"));
        assert(res.deep_view() =~= Self::all_names());
        res
    }
}

} // verus!
