//! Decision layer of a bridge between an immediate-mode UI library and a
//! game engine's frame loop.
//!
//! The bridge keeps one shared UI context, created lazily on first use and
//! guarded against nested borrows, and runs a fixed sequence of steps for
//! each entry point of a frame: opening the UI-building pass, closing it,
//! and rendering. This crate holds the decisions — how the shared slot is
//! obtained, and which steps make up each entry point, in what order — as
//! verified functions over plain values. A host performs the steps against
//! the real windowing and UI libraries.

pub mod access;
pub mod frame;
