//! Notification dispatch: a command's outcome, or a message given by the
//! caller, is handed to one of three delivery backends.
//!
//! The library decides and computes; it performs no input or output itself.
//! Each backend is described as requests to perform and replies to interpret,
//! so that a thin driver can carry them out.
//!
//! - `startup` and `backend` choose a backend and read its configuration from
//!   a `document`.
//! - `delivery` leads one delivery step by step; `exchange` holds what passes
//!   between a delivery and its driver.
//! - `command` reports how a command ended, and `dispatch` decides what is
//!   sent about it.
//! - `text` and `pairs` are the building blocks; `error` names what can go wrong.

pub mod backend;
pub mod command;
pub mod delivery;
pub mod dispatch;
pub mod document;
pub mod error;
pub mod exchange;
pub mod pairs;
pub mod startup;
pub mod text;
