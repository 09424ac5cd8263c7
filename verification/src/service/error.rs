//! What can go wrong with a whole file.

use crate::definition::error::ParseError;
use vstd::prelude::*;

verus! {

/// A row that the reader could not make out.
#[derive(Debug, Clone, PartialEq, Eq)]
pub struct FormatError {
    /// Where the row stands in the file, counted from zero.
    pub row: usize,
    /// The reader's complaint.
    pub message: String,
}

/// Why a file could not be turned into expenses.
#[derive(Debug, Clone, PartialEq, Eq)]
pub enum ParseFileError {
    /// No layout stands under the key.
    DefinitionNotFound,
    /// The reader could not make out a row.
    Format(FormatError),
    /// A row does not give an expense under the layout.
    Record { row: usize, error: ParseError },
}

/// Why a file could not be turned into expenses.
pub enum ParseFileErrorView {
    DefinitionNotFound,
    Format { row: int, message: Seq<char> },
    Record { row: int, error: ParseError },
}

impl View for ParseFileError {
    type V = ParseFileErrorView;

    open spec fn view(&self) -> ParseFileErrorView {
        match self {
            ParseFileError::DefinitionNotFound => ParseFileErrorView::DefinitionNotFound,
            ParseFileError::Format(e) => ParseFileErrorView::Format {
                row: e.row as int,
                message: e.message@,
            },
            ParseFileError::Record { row, error } => ParseFileErrorView::Record {
                row: *row as int,
                error: *error,
            },
        }
    }
}

} // verus!
