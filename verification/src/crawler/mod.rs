pub mod columns;
pub mod crawler;
pub mod media_format;
pub mod mi_shop_com;
pub mod samsung_shop_com_ua;
pub mod util;
