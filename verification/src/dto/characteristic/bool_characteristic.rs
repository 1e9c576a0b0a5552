//! Characteristics whose value is yes or no.
use vstd::prelude::*;

verus! {

#[derive(Debug, Clone, Copy, PartialEq, Eq, Structural)]
pub enum BoolCharacteristic {
    HasFastCharging(bool),
    HasNFC(bool),
    DisplayIsSensor(bool),
    CanShootVideo(bool),
}

} // verus!
