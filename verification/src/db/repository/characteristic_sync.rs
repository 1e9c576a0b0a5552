//! What the characteristics sync writes: the characteristics with their
//! presentation, and the key of every value of every characteristic whose
//! value is one of a fixed set of variants.
use vstd::prelude::*;
use crate::dto::characteristic::enum_characteristic::{EnumCharacteristic, lemma_all_values_complete};
use crate::dto::characteristic::int_characteristic::IntCharacteristic;
use crate::my_enum::CharacteristicVisualisationType;

verus! {

/// How a whole-number characteristic is offered as a filter: always as a
/// choice of values.
pub fn get_int_char_vis_type(char: IntCharacteristic) -> (res: CharacteristicVisualisationType)
    ensures
        res == CharacteristicVisualisationType::MultiSelector,
{
    match char {
        IntCharacteristic::BatteryCapacity_mA_h(_) => CharacteristicVisualisationType::MultiSelector,
        IntCharacteristic::NumberOfProcessorCores(_) => CharacteristicVisualisationType::MultiSelector,
        IntCharacteristic::BuiltInMemory_GB(_) => CharacteristicVisualisationType::MultiSelector,
        IntCharacteristic::Ram_GB(_) => CharacteristicVisualisationType::MultiSelector,
        IntCharacteristic::FrontCamera_MP(_) => CharacteristicVisualisationType::MultiSelector,
        IntCharacteristic::VideoResolution_Pix(_) => CharacteristicVisualisationType::MultiSelector,
        IntCharacteristic::AmountOfSimCards(_) => CharacteristicVisualisationType::MultiSelector,
        IntCharacteristic::PPI(_) => CharacteristicVisualisationType::MultiSelector,
        IntCharacteristic::Fps(_) => CharacteristicVisualisationType::MultiSelector,
        IntCharacteristic::Brightness_cd_m2(_) => CharacteristicVisualisationType::MultiSelector,
        IntCharacteristic::UpdateFrequency_Hz(_) => CharacteristicVisualisationType::MultiSelector,
        IntCharacteristic::Camera_mp(_) => CharacteristicVisualisationType::MultiSelector,
        IntCharacteristic::LTEDiapason(_) => CharacteristicVisualisationType::MultiSelector,
        IntCharacteristic::GSMDiapason(_) => CharacteristicVisualisationType::MultiSelector,
        IntCharacteristic::UMTSDiapason(_) => CharacteristicVisualisationType::MultiSelector,
        IntCharacteristic::Warranty_month(_) => CharacteristicVisualisationType::MultiSelector,
        IntCharacteristic::MaxMemoryCardSize_GB(_) => CharacteristicVisualisationType::MultiSelector,
    }
}

/// The keys of all values that the sync stores, characteristic by
/// characteristic.
pub open spec fn all_value_keys() -> Seq<Seq<char>> {
    EnumCharacteristic::all_values().map_values(|e: EnumCharacteristic| e.key())
}

/// The keys of all values of all characteristics whose value is one of a
/// fixed set of variants, as the sync stores them.
pub fn enum_value_keys() -> (res: Vec<String>)
    ensures
        res.deep_view() == all_value_keys(),
{
    let values = EnumCharacteristic::values();
    let ghost all = EnumCharacteristic::all_values();
    let mut res: Vec<String> = Vec::new();
    let mut i: usize = 0;
    while i < values.len()
        invariant
            values@ == all,
            i <= values.len(),
            res.deep_view() == all.take(i as int).map_values(|e: EnumCharacteristic| e.key()),
        decreases values.len() - i,
    {
        let key = values[i].full_name();
        let ghost prev = res.deep_view();
        res.push(key);
        proof {
            assert(res.deep_view() =~= prev.push(all[i as int].key()));
            assert(all.take(i + 1).map_values(|e: EnumCharacteristic| e.key()) =~= all.take(
                i as int,
            ).map_values(|e: EnumCharacteristic| e.key()).push(all[i as int].key()));
        }
        i = i + 1;
    }
    proof {
        assert(all.take(values.len() as int) =~= all);
    }
    res
}

/// Every value that a characteristic can hold has its key among the stored
/// keys: after the sync, looking a value up by `full_name` finds it.
pub proof fn lemma_every_value_key_stored(e: EnumCharacteristic)
    ensures
        all_value_keys().contains(e.key()),
{
    lemma_all_values_complete(e);
    let i = choose|i: int|
        0 <= i < EnumCharacteristic::all_values().len() && EnumCharacteristic::all_values()[i] == e;
    assert(all_value_keys()[i] == e.key());
}

} // verus!
