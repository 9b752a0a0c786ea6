//! A Wayland surface and event coordinator, written without I/O.
//!
//! The coordinator owns the records of every top-level window, layer
//! surface, popup and session-lock surface, and decides which protocol
//! requests are issued and which events reach the user interface. It never
//! talks to a compositor itself: protocol events come in as plain values, and
//! the requests it decides on leave as plain values for a thin shell to
//! perform.

pub mod application;
pub mod clipboard;
pub mod commands;
pub mod devices;
pub mod event;
pub mod event_loop;
pub mod executor;
pub mod geometry;
pub mod handlers;
pub mod id;
pub mod input;
pub mod laws;
pub mod wellformed;
pub mod pointer;
pub mod popup_tree;
pub mod request;
pub mod sctk_event;
pub mod seat;
pub mod settings;
pub mod shell;
pub mod state;
pub mod surface;
pub mod table;
pub mod wayland;
pub mod window;
