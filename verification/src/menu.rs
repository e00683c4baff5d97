//! The application menu.

pub mod app_menu;
