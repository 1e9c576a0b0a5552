pub mod text;
pub mod number;
pub mod dto;
pub mod crawler;
pub mod db;
pub mod pattern;
pub mod document;
pub mod my_enum;
pub mod inflection;
pub mod parser;
pub mod messages;
