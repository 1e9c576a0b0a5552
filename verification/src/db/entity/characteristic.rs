//! The stored records of characteristics and of their values.
use vstd::prelude::*;
use crate::my_enum::{CharacteristicValueType, CharacteristicVisualisationType};

verus! {

pub struct Characteristic {
    pub id: i16,
    pub slug: String,
    pub enabled: bool,
    pub visualisation_type: CharacteristicVisualisationType,
    pub value_type: CharacteristicValueType,
}

pub struct NewCharacteristic {
    pub id: i16,
    pub slug: String,
    pub enabled: bool,
    pub visualisation_type: CharacteristicVisualisationType,
    pub value_type: CharacteristicValueType,
}

pub struct CategoryCharacteristic {
    pub id: i32,
    pub category_id: i32,
    pub characteristic_id: i32,
}

pub struct ProductCharacteristic {
    pub id: i32,
    pub product_id: i32,
    pub characteristic_id: i32,
    pub value_id: i32,
}

pub struct NewProductCharacteristic {
    pub product_id: i32,
    pub characteristic_id: i16,
    pub value_id: i32,
}

pub struct ProductCharacteristicBoolValue {
    pub id: i32,
    pub value: bool,
}

pub struct ProductCharacteristicEnumValue {
    pub id: i32,
    pub value: i16,
}

pub struct ProductCharacteristicFloatValue {
    pub id: i32,
    pub value: i16,
}

pub struct ProductCharacteristicIntValue {
    pub id: i32,
    pub value: i32,
}

pub struct NewProductCharacteristicIntValue {
    pub value: i32,
}

pub struct ProductCharacteristicStringValue {
    pub id: i32,
    pub value: String,
}

} // verus!
