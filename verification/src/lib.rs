//! Control logic for a Bluetooth standing desk.
//!
//! The library decides and the caller acts. Nothing here touches a radio, a
//! clock, a lock or a file: the caller scans, connects, reads, writes and
//! waits, and hands the library what came of it.
//!
//! - `codec`: the bytes of the motion commands and of the position reports.
//! - `directory`: which of the peripherals that a scan has seen are desks.
//! - `session`: binding a peripheral, and its reads and writes.
//! - `controller`: the seek that brings the desk to a target height;
//!   `seek_laws` holds what is proved of it.
//! - `handle`: the slot that holds the one connected desk.
//! - `config`, `form`: the saved positions and the form that adds one.
//! - `error`: what can go wrong; `text`: questions asked of names.

pub mod codec;
pub mod config;
pub mod controller;
pub mod directory;
pub mod error;
pub mod form;
pub mod handle;
pub mod seek_laws;
pub mod session;
pub mod text;
