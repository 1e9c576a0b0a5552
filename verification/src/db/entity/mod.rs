pub mod category;
pub mod characteristic;
pub mod source;
