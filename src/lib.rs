//! A terminal file viewer's core: a read-only document of text lines, a
//! cursor that moves over it, a viewport that scrolls to keep the cursor in
//! sight, and the renderer that turns all of it into one terminal frame.
pub mod document;
pub mod cursor;
pub mod ansi;
pub mod contents;
pub mod output;
pub mod editor;
