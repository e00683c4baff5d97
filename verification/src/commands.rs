//! What each command of the application decides, apart from the input and
//! output that it does.

pub mod auth;
pub mod controllers;
pub mod editor_state;
pub mod explorer;
pub mod filesystem;
pub mod project;
pub mod refresh;
pub mod release_controller;
pub mod select_controller;
