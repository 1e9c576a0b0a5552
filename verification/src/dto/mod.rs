pub mod characteristic;
