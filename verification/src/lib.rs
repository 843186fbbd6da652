//! A gacha recruitment simulator: rate tables, student pools and verified draws.
pub mod banner;
pub mod catalog;
pub mod draw;
pub mod gacha;
pub mod i18n;
pub mod random;
pub mod student;
