pub mod i18n;
pub mod sessions;
pub mod shared;
pub mod terminal;
pub mod windows;
