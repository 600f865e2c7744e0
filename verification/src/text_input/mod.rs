//! The text of a text input as grapheme clusters, the cursor over it, and
//! the editing operations that change both.

pub mod cursor;
pub mod editor;
pub mod value;
