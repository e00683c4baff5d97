//! The collaborating components of a build session.

pub mod line_framing;
pub mod process_stream;
pub mod text;
pub mod process_store;
pub mod pipeline;
pub mod events;
pub mod run_model;
pub mod runner;
pub mod run_laws;
pub mod stream_laws;
pub mod account;
pub mod esp_idf;
pub mod transport;
pub mod run;
