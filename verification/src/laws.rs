//! What holds of the library whatever the text, the row, the layout and the
//! file are: laws that are proved from what the functions promise.

pub mod cast;
pub mod chunks;
pub mod file;
pub mod row;
pub mod text;
