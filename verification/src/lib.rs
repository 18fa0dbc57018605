//! The core of a small text editor: a line-oriented buffer with a cursor,
//! the set of open documents, and the geometry that keeps the cursor in view.

pub mod editor;
pub mod files;
pub mod text_zone;
pub mod timer;
pub mod vue;
