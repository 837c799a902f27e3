//! A minimal full-screen terminal text editor core.
//!
//! The library is split along the editor's seams: [`state`] owns the
//! in-memory document and cursor, [`render`] paints the terminal grid,
//! [`control`] decides file access, [`events`] dispatches input events,
//! and [`text`] holds the line/content conversions they share.

pub mod control;
pub mod events;
pub mod render;
pub mod state;
pub mod text;
