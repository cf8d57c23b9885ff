//! The text and rendering engine of a small terminal text editor: grapheme-aware
//! lines, the document buffer, commands decoded from input events, and the view
//! that scrolls a window onto the document and decides what to draw.

pub mod buffer;
pub mod command;
pub mod editor;
pub mod geometry;
pub mod line;
pub mod view;

pub use buffer::Buffer;
pub use command::{Command, DecodeError, Direction, InputEvent, Key, Modifiers};
pub use editor::Editor;
pub use geometry::{Location, Position, Size};
pub use line::{GraphemeWidth, Line};
pub use view::View;
