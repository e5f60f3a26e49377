//! Core logic of a small code editor: the line-number column beside the
//! text, text search for the find dialog, and the editor window's state
//! machine (dialogs, file operations, status and error messages).

pub mod editor;
pub mod frame;
pub mod lines;
pub mod search;
pub mod text;

pub use editor::CodeShare;
pub use lines::{get_line_num_str, get_num_digits};
