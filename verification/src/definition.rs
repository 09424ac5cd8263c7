//! The layouts of the statements that the library knows.

pub mod cast;
pub mod column;
pub mod error;
pub mod csv_definition;
pub mod registry;
