pub mod app_db_viewer;
pub mod config;
pub mod i18n;
pub mod repositories;
pub mod state;
pub mod text;
pub mod types;
