//! What the library does with a whole file.

pub mod chunks;
pub mod csv_file_service;
pub mod error;
