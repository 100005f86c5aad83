//! Keyboard-driven pointer control: a screen is divided into a grid of
//! labelled cells, typed hint characters select a cell (and a sub-cell inside
//! it), and commands click, drag or scroll at the selection. Sequences of such
//! selections can be recorded as macros and replayed.
//!
//! The library holds the decisions: which cell a key selects, where the
//! pointer goes, which mode comes next, and how key repeat for scrolling is
//! scheduled. Performing pointer actions and drawing is left to the caller.

pub mod backend;
pub mod grid;
pub mod keyboard;
pub mod macro_store;
pub mod mode;
pub mod pixels;
pub mod scroll;
