//! What the application remembers between commands.

pub mod app_state;
