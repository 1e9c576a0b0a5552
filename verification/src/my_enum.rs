//! Enumerations shared by the crawlers and the store.
use vstd::prelude::*;

verus! {

#[derive(Debug, Clone, Copy, PartialEq, Eq, Structural)]
pub enum CurrencyEnum {
    RUB,
    UAH,
    USD,
    EUR,
}

/// The kind of value that a characteristic holds.
#[derive(Debug, Clone, Copy, PartialEq, Eq, Structural)]
pub enum CharacteristicValueType {
    Float,
    Int,
    String,
    Enum,
}

/// How a characteristic is offered as a filter.
#[derive(Debug, Clone, Copy, PartialEq, Eq, Structural)]
pub enum CharacteristicVisualisationType {
    Range,
    MultiSelector,
}

} // verus!
