pub mod bool_characteristic;
pub mod enum_characteristic;
pub mod float_characteristic;
pub mod int_characteristic;
pub mod string_characteristic;
