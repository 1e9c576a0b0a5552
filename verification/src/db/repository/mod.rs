pub mod category;
pub mod characteristic_sync;
pub mod product;
