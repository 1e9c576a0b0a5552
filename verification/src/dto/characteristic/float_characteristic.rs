//! The kinds of characteristics whose value is a fractional number. The
//! numbers themselves are read outside this library; here each kind has its
//! name and its presentation.
#![allow(non_camel_case_types)]
use vstd::prelude::*;
use crate::my_enum::CharacteristicVisualisationType;

verus! {

#[derive(Debug, Clone, Copy, PartialEq, Eq, Structural)]
pub enum FloatCharacteristicKind {
    Width_mm,
    Height_mm,
    Thickness_mm,
    ScreenDiagonal,
    BluetoothVersion,
    CPUFrequency_Ghz,
    Weight_gr,
    MIUIVersion,
    AndroidVersion,
    Aperture,
}

impl FloatCharacteristicKind {
    /// The name of the characteristic.
    pub open spec fn kind_name(self) -> Seq<char> {
        match self {
            FloatCharacteristicKind::Width_mm => "Width_mm"@,
            FloatCharacteristicKind::Height_mm => "Height_mm"@,
            FloatCharacteristicKind::Thickness_mm => "Thickness_mm"@,
            FloatCharacteristicKind::ScreenDiagonal => "ScreenDiagonal"@,
            FloatCharacteristicKind::BluetoothVersion => "BluetoothVersion"@,
            FloatCharacteristicKind::CPUFrequency_Ghz => "CPUFrequency_Ghz"@,
            FloatCharacteristicKind::Weight_gr => "Weight_gr"@,
            FloatCharacteristicKind::MIUIVersion => "MIUIVersion"@,
            FloatCharacteristicKind::AndroidVersion => "AndroidVersion"@,
            FloatCharacteristicKind::Aperture => "Aperture"@,
        }
    }

    /// Every kind, in declaration order.
    pub open spec fn all_kinds() -> Seq<FloatCharacteristicKind> {
        seq![
            FloatCharacteristicKind::Width_mm,
            FloatCharacteristicKind::Height_mm,
            FloatCharacteristicKind::Thickness_mm,
            FloatCharacteristicKind::ScreenDiagonal,
            FloatCharacteristicKind::BluetoothVersion,
            FloatCharacteristicKind::CPUFrequency_Ghz,
            FloatCharacteristicKind::Weight_gr,
            FloatCharacteristicKind::MIUIVersion,
            FloatCharacteristicKind::AndroidVersion,
            FloatCharacteristicKind::Aperture,
        ]
    }

    /// Sizes and weights are offered as a range, the others as a choice of
    /// values.
    pub open spec fn visualisation(self) -> CharacteristicVisualisationType {
        match self {
            FloatCharacteristicKind::Width_mm => CharacteristicVisualisationType::Range,
            FloatCharacteristicKind::Height_mm => CharacteristicVisualisationType::Range,
            FloatCharacteristicKind::Thickness_mm => CharacteristicVisualisationType::Range,
            FloatCharacteristicKind::Weight_gr => CharacteristicVisualisationType::Range,
            _ => CharacteristicVisualisationType::MultiSelector,
        }
    }

    /// Every kind, in declaration order.
    pub fn kinds() -> (res: Vec<FloatCharacteristicKind>)
        ensures
            res@ == Self::all_kinds(),
    {
        let mut res: Vec<FloatCharacteristicKind> = Vec::new();
        res.push(FloatCharacteristicKind::Width_mm);
        res.push(FloatCharacteristicKind::Height_mm);
        res.push(FloatCharacteristicKind::Thickness_mm);
        res.push(FloatCharacteristicKind::ScreenDiagonal);
        res.push(FloatCharacteristicKind::BluetoothVersion);
        res.push(FloatCharacteristicKind::CPUFrequency_Ghz);
        res.push(FloatCharacteristicKind::Weight_gr);
        res.push(FloatCharacteristicKind::MIUIVersion);
        res.push(FloatCharacteristicKind::AndroidVersion);
        res.push(FloatCharacteristicKind::Aperture);
        assert(res@ =~= Self::all_kinds());
        res
    }

    /// The name of the characteristic.
    pub fn name(&self) -> (res: String)
        ensures
            res@ == self.kind_name(),
    {
        match self {
            FloatCharacteristicKind::Width_mm => String::from_str("Width_mm"),
            FloatCharacteristicKind::Height_mm => String::from_str("Height_mm"),
            FloatCharacteristicKind::Thickness_mm => String::from_str("Thickness_mm"),
            FloatCharacteristicKind::ScreenDiagonal => String::from_str("ScreenDiagonal"),
            FloatCharacteristicKind::BluetoothVersion => String::from_str("BluetoothVersion"),
            FloatCharacteristicKind::CPUFrequency_Ghz => String::from_str("CPUFrequency_Ghz"),
            FloatCharacteristicKind::Weight_gr => String::from_str("Weight_gr"),
            FloatCharacteristicKind::MIUIVersion => String::from_str("MIUIVersion"),
            FloatCharacteristicKind::AndroidVersion => String::from_str("AndroidVersion"),
            FloatCharacteristicKind::Aperture => String::from_str("Aperture"),
        }
    }
}

/// How a fractional characteristic is offered as a filter.
pub fn get_float_char_vis_type(char: FloatCharacteristicKind) -> (res:
    CharacteristicVisualisationType)
    ensures
        res == char.visualisation(),
{
    match char {
        FloatCharacteristicKind::Width_mm => CharacteristicVisualisationType::Range,
        FloatCharacteristicKind::Height_mm => CharacteristicVisualisationType::Range,
        FloatCharacteristicKind::Thickness_mm => CharacteristicVisualisationType::Range,
        FloatCharacteristicKind::ScreenDiagonal => CharacteristicVisualisationType::MultiSelector,
        FloatCharacteristicKind::BluetoothVersion => CharacteristicVisualisationType::MultiSelector,
        FloatCharacteristicKind::CPUFrequency_Ghz => CharacteristicVisualisationType::MultiSelector,
        FloatCharacteristicKind::Weight_gr => CharacteristicVisualisationType::Range,
        FloatCharacteristicKind::MIUIVersion => CharacteristicVisualisationType::MultiSelector,
        FloatCharacteristicKind::AndroidVersion => CharacteristicVisualisationType::MultiSelector,
        FloatCharacteristicKind::Aperture => CharacteristicVisualisationType::MultiSelector,
    }
}

} // verus!
