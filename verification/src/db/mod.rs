pub mod entity;
pub mod repository;
