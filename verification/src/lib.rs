//! Core of a floating window manager for the X Window System.
//!
//! The library is the decision core: it tracks every managed client window,
//! keeps a focus-ordered stack, resolves raw input events into move, resize
//! and focus interactions, and keeps the externally published session hints
//! consistent with its own state.  All display-protocol side effects are
//! returned as [`command::Command`] values for a thin transport layer to
//! perform, so every decision the manager makes is verified here.

pub mod actions;
pub mod atoms;
pub mod client;
pub mod command;
pub mod config;
pub mod event;
pub mod ewmh;
pub mod input;
pub mod layout;
pub mod wm;
pub mod workspace;
