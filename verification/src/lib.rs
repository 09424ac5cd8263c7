//! Recognises which known statement layout a delimited-text file follows and
//! turns its rows into expenses.
//!
//! The caller reads the file: it hands over the rows as text cells, each with
//! the number its text reads as, and gets back the layouts that fit or the
//! expenses that the rows hold.

pub mod date;
pub mod definition;
pub mod laws;
pub mod model;
pub mod number;
pub mod record;
pub mod service;
pub mod text;
