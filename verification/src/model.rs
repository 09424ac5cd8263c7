//! What the library hands back: expenses, and the status of an answer.

pub mod expense;
pub mod response;
