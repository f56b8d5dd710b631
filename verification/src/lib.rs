//! The core of a modal text editor for the terminal.
//!
//! A document is a sequence of logical lines; its cursor stands on a line at
//! a display column, so that it lands correctly around glyphs that take two
//! terminal cells. The modules, leaves first:
//!
//! - [`width`]: the display width of characters and strings;
//! - [`text`]: strings and character vectors, file text and lines;
//! - [`line`]: the character boundary of a column, and edits within a line;
//! - [`wrap`]: soft wrap of one line, and the gutter of line numbers;
//! - [`layout`]: display rows of a document and the display position of its
//!   cursor;
//! - [`cursor`], [`mode`]: positions, modes, keys and requests;
//! - [`dir`]: the entry listing of a directory;
//! - [`normal`], [`write_path`], [`open`]: the editing, save-as and open
//!   modes;
//! - [`editor`]: the mode controller.
//!
//! The library reads no keys, draws nothing and touches no files. A key
//! handler returns a [`mode::Request`] for what has to be done outside, and
//! the caller reports back what came of it.

pub mod cursor;
pub mod dir;
pub mod editor;
pub mod layout;
pub mod line;
pub mod mode;
pub mod normal;
pub mod open;
pub mod text;
pub mod width;
pub mod wrap;
pub mod write_path;
