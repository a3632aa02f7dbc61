//! A minimal terminal text editor core: caret navigation over a toroidal
//! viewport, the frame drawn on each pass, a buffered terminal command queue,
//! and the session state machine that pairs raw-mode acquisition with release.

pub mod geometry;
pub mod input;
pub mod terminal;
pub mod editor;
pub mod lemmas;
