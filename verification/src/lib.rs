//! A collapsible tree view widget core for an immediate-mode GUI.
//!
//! Every frame the caller replays the tree as a sequence of
//! `dir` / `leaf` / `close_dir` calls; the builder resolves visibility,
//! indentation, selection, drag state and drop targets in a single pass,
//! and records the geometry the frontend needs to paint rows, connector
//! lines and drop markers. Only a small persistent state (selection,
//! per-directory open flags, drag state) survives between frames.
//!
//! Geometry is modelled in whole pixels (`i64`); the painting frontend
//! converts to its own coordinate types.

pub mod builder;
pub mod geom;
pub mod node;
pub mod state;
