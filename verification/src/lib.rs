//! The decisions of a C-compatible boundary around an OCR engine.
//!
//! A host hands in image bytes and receives text, or a null handle together
//! with a message in a last-error slot. This crate holds everything such a
//! boundary decides: which calls are rejected, when the engine is built, what
//! is recorded on each failure path and which texts may cross the boundary.
//! The caller performs the outside work (building the engine, running the
//! inference, waiting, trapping faults) and reports each outcome as an event.
//!
//! - [`call`] holds the exchange itself, [`guarantees`] what holds of it.
//! - [`engine`] holds the slot in which the engine is built once.
//! - [`last_error`] holds the slot with the latest message, [`message`] the
//!   wording of each message.
//! - [`encoding`] says which texts can cross the boundary, [`report`] how a
//!   text that cannot is reported.

pub mod call;
pub mod encoding;
pub mod engine;
pub mod guarantees;
pub mod last_error;
pub mod message;
pub mod report;

pub use crate::call::{solve_captcha, CallAction, CallEvent};
pub use crate::engine::{get_ocr, EngineAccess, EngineSlot};
pub use crate::last_error::{get_last_error, set_error, ErrorSlot};
