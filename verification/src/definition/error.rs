//! What can go wrong with a cell or a row.

use crate::definition::column::CsvColumnRole;
use vstd::prelude::*;

verus! {

impl CsvColumnRole {
    /// The role's name, as it stands in messages.
    pub open spec fn spec_name(self) -> Seq<char> {
        match self {
            CsvColumnRole::Date => "Date"@,
            CsvColumnRole::Description => "Description"@,
            CsvColumnRole::Amount => "Amount"@,
            CsvColumnRole::Tag => "Tag"@,
            CsvColumnRole::Currency => "Currency"@,
            CsvColumnRole::CreditAmount => "CreditAmount"@,
            CsvColumnRole::CreditDebit => "CreditDebit"@,
        }
    }

    /// The role's name, as it stands in messages.
    pub fn name(&self) -> (r: &'static str)
        ensures
            r@ == self.spec_name(),
    {
        match self {
            CsvColumnRole::Date => "Date",
            CsvColumnRole::Description => "Description",
            CsvColumnRole::Amount => "Amount",
            CsvColumnRole::Tag => "Tag",
            CsvColumnRole::Currency => "Currency",
            CsvColumnRole::CreditAmount => "CreditAmount",
            CsvColumnRole::CreditDebit => "CreditDebit",
        }
    }
}

/// Why a text could not be read as its column's data type.
#[derive(Debug, Clone, Copy, PartialEq, Eq, Structural)]
pub enum CastError {
    /// The text is no number.
    NotANumber,
    /// The text is a number too large to hold: an infinity.
    Infinite,
    /// The text is no date under the column's pattern.
    NotADate,
}

impl CastError {
    pub open spec fn message(self) -> Seq<char> {
        match self {
            CastError::NotANumber => "the value is not a number"@,
            CastError::Infinite => "the value is an infinite number"@,
            CastError::NotADate => "the value is not a date in the expected format"@,
        }
    }

    pub fn to_string(&self) -> (r: String)
        ensures
            r@ == self.message(),
    {
        match self {
            CastError::NotANumber => String::from_str("the value is not a number"),
            CastError::Infinite => String::from_str("the value is an infinite number"),
            CastError::NotADate => String::from_str(
                "the value is not a date in the expected format",
            ),
        }
    }
}

/// Why a row could not be turned into an expense.
#[derive(Debug, Clone, Copy, PartialEq, Eq, Structural)]
pub enum ParseError {
    /// The row is too short to hold a required column.
    MissingColumn(CsvColumnRole),
    /// The cell of a required column is empty.
    EmptyColumn(CsvColumnRole),
    /// The cell of a required column cannot be read as the column's data type.
    Cast(CsvColumnRole, CastError),
    /// The amount came out as a NaN: the layout names an optional amount and
    /// nothing that fills it in.
    NanAmount,
    /// The row is in the currency that calls for the second amount, and the
    /// layout names no second amount column.
    NoSecondAmount,
    /// The layout gives a role a data type that the role cannot take.
    Unhandled(CsvColumnRole),
}

impl ParseError {
    /// The row lacks what a required column asks for.
    pub open spec fn is_required_field_error(self) -> bool {
        self is MissingColumn || self is EmptyColumn
    }

    /// The fault lies with the layout, not with the row.
    pub open spec fn is_layout_fault(self) -> bool {
        self is NanAmount || self is NoSecondAmount || self is Unhandled
    }

    pub open spec fn message(self) -> Seq<char> {
        match self {
            ParseError::MissingColumn(role) => "Missing column in CSV record for required role "@
                + role.spec_name(),
            ParseError::EmptyColumn(role) => "Column value is an empty string for required role "@
                + role.spec_name(),
            ParseError::Cast(role, error) => "Column value cannot be read for required role "@
                + role.spec_name() + ": "@ + error.message(),
            ParseError::NanAmount => "Amount encountered as NaN, something went horribly wrong"@,
            ParseError::NoSecondAmount =>
                "Currency is present in record but does not have second amount column definition to override with!"@,
            ParseError::Unhandled(role) =>
                "A role defined in expected columns was received, but there is no handling defined for it: "@
                + role.spec_name(),
        }
    }

    /// Whether the row lacks what a required column asks for.
    pub fn required_field_error(&self) -> (r: bool)
        ensures
            r == self.is_required_field_error(),
    {
        match self {
            ParseError::MissingColumn(_) => true,
            ParseError::EmptyColumn(_) => true,
            _ => false,
        }
    }

    /// Whether the fault lies with the layout, not with the row.
    pub fn layout_fault(&self) -> (r: bool)
        ensures
            r == self.is_layout_fault(),
    {
        match self {
            ParseError::NanAmount => true,
            ParseError::NoSecondAmount => true,
            ParseError::Unhandled(_) => true,
            _ => false,
        }
    }

    pub fn to_string(&self) -> (r: String)
        ensures
            r@ == self.message(),
    {
        match self {
            ParseError::MissingColumn(role) => {
                let mut s = String::from_str("Missing column in CSV record for required role ");
                s.append(role.name());
                s
            },
            ParseError::EmptyColumn(role) => {
                let mut s = String::from_str("Column value is an empty string for required role ");
                s.append(role.name());
                s
            },
            ParseError::Cast(role, error) => {
                let mut s = String::from_str("Column value cannot be read for required role ");
                s.append(role.name());
                s.append(": ");
                s.append(error.to_string().as_str());
                s
            },
            ParseError::NanAmount => String::from_str(
                "Amount encountered as NaN, something went horribly wrong",
            ),
            ParseError::NoSecondAmount => String::from_str(
                "Currency is present in record but does not have second amount column definition to override with!",
            ),
            ParseError::Unhandled(role) => {
                let mut s = String::from_str(
                    "A role defined in expected columns was received, but there is no handling defined for it: ",
                );
                s.append(role.name());
                s
            },
        }
    }
}

} // verus!
