//! The interaction core of a keyboard-driven terminal file manager.
//!
//! The crate holds the domain model and the modal state machine, and performs no
//! input or output of its own: filesystem work is handed to the host as requests
//! and comes back as replies, key presses arrive as plain values, and every
//! window describes what it wants shown as data for the host to render.

pub mod controller;
pub mod entry;
pub mod file_manager;
pub mod input;
pub mod message;
pub mod screen;
pub mod string_ring_buffer;
pub mod table_cursor;
pub mod windows;
