//! The plain data that the application passes around.

pub mod artifact;
pub mod controller;
pub mod file_tree;
pub mod flash;
pub mod nats;
pub mod project;
pub mod status;
