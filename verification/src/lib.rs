//! Supervision of an external embedded build toolchain: one exclusive process
//! slot, line-oriented capture of its two output streams, and fail-fast
//! pipelines of stages whose progress is reported as ordered events.
//!
//! The library decides and its caller acts. Nothing here starts a process,
//! reads a pipe or touches a file: the caller does that and reports what
//! happened, and the library answers with the next state and with the events
//! for the user interface. What it answers is specified over mathematical
//! values and proved.
//!
//! - [`services::process_store`] holds the slot that admits one process at a
//!   time.
//! - [`services::line_framing`] and [`services::process_stream`] turn the
//!   bytes of two streams into numbered lines, with the laws of their order
//!   in [`services::stream_laws`].
//! - [`services::pipeline`], [`services::run_model`] and
//!   [`services::runner`] run the stages of a pipeline one after the other
//!   and stop at the first that fails, with the laws of every run in
//!   [`services::run_laws`] and a driver for whole runs in
//!   [`services::run`].
//! - [`services::transport`], [`services::esp_idf`] and
//!   [`services::account`] hold what the application says to its window, to
//!   the toolchain and to the account service.
//! - [`commands`], [`menu`], [`models`], [`state`] and [`utils`] hold the
//!   decisions of the single commands and the data they pass around.

pub mod commands;
pub mod menu;
pub mod models;
pub mod services;
pub mod state;
pub mod utils;
pub mod views;
