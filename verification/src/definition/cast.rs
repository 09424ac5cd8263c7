//! Reading one cell: fetching its text and casting it to the column's data
//! type.

use crate::date::date_reading;
use crate::date::read_date;
use crate::date::DateTime;
use crate::definition::column::ColumnSpec;
use crate::definition::column::CsvColumnDataType;
use crate::definition::column::CsvColumnInfo;
use crate::definition::column::CsvColumnRole;
use crate::definition::column::DataType;
use crate::definition::error::CastError;
use crate::definition::error::ParseError;
use crate::number::is_infinite_bits;
use crate::number::negated_bits;
use crate::number::Amount;
use crate::number::NAN_BITS;
use crate::record::CellView;
use crate::record::CsvRecord;
use crate::text::normalize;
use crate::text::normalized;
use vstd::prelude::*;

verus! {

/// A text read as its column's data type.
#[derive(Debug, Clone)]
pub enum ParsedValue {
    String(String),
    Float(Amount),
    Date(DateTime),
}

/// A text read as its column's data type.
pub enum ParsedValueView {
    String(Seq<char>),
    Float(Amount),
    Date(DateTime),
}

impl View for ParsedValue {
    type V = ParsedValueView;

    open spec fn view(&self) -> ParsedValueView {
        match self {
            ParsedValue::String(s) => ParsedValueView::String(s@),
            ParsedValue::Float(a) => ParsedValueView::Float(*a),
            ParsedValue::Date(d) => ParsedValueView::Date(*d),
        }
    }
}

/// The text of a column's cell with its whitespace collapsed.
///
/// A cell that the row is too short for is an error in a required column and
/// `None` in an optional one; an empty cell is an error in a required column
/// and an empty text in an optional one.
pub open spec fn fetched(role: CsvColumnRole, record: Seq<CellView>, column: ColumnSpec) -> Result<
    Option<Seq<char>>,
    ParseError,
> {
    if column.position < record.len() {
        let value = normalized(record[column.position as int].text);
        if column.required && value.len() == 0 {
            Err(ParseError::EmptyColumn(role))
        } else {
            Ok(Some(value))
        }
    } else if column.required {
        Err(ParseError::MissingColumn(role))
    } else {
        Ok(None)
    }
}

/// What a fetched text holds.
pub open spec fn fetched_view(r: Result<Option<String>, ParseError>) -> Result<
    Option<Seq<char>>,
    ParseError,
> {
    match r {
        Ok(Some(s)) => Ok(Some(s@)),
        Ok(None) => Ok(None),
        Err(e) => Err(e),
    }
}

impl CsvColumnRole {
    /// Fetches the cell of a column and collapses its whitespace.
    pub fn get_and_normalize(
        role_type: CsvColumnRole,
        string_record: &CsvRecord,
        column_info: &CsvColumnInfo,
    ) -> (r: Result<Option<String>, ParseError>)
        ensures
            fetched_view(r) == fetched(role_type, string_record@, column_info@),
    {
        fetch(role_type, string_record, column_info.get_index(), column_info.is_required())
    }
}

/// Fetches the cell at `index`, as a required or an optional one.
pub(crate) fn fetch(role: CsvColumnRole, record: &CsvRecord, index: u8, required: bool) -> (r:
    Result<Option<String>, ParseError>)
    ensures
        forall|column: ColumnSpec|
            column.position == index && column.required == required ==> fetched_view(r)
                == #[trigger] fetched(role, record@, column),
{
    match record.get(index as usize) {
        Some(text) => {
            let value = normalize(text);
            if required && value.as_str().is_empty() {
                Err(ParseError::EmptyColumn(role))
            } else {
                Ok(Some(value))
            }
        },
        None => {
            if required {
                Err(ParseError::MissingColumn(role))
            } else {
                Ok(None)
            }
        },
    }
}

/// The text read as a column's data type.
///
/// - Text is taken as it stands.
/// - A number is the one that the caller read out of the text, with its sign
///   flipped where the column says so. No number, or an infinite one, is an
///   error. The empty text of an optional column reads as the NaN that stands
///   for "no value".
/// - A date is the day that the column's pattern gives, at midnight.
pub open spec fn cast(
    value: Seq<char>,
    number: Option<u64>,
    data_type: DataType,
    required: bool,
) -> Result<ParsedValueView, CastError> {
    match data_type {
        DataType::Text => Ok(ParsedValueView::String(value)),
        DataType::Float { standard } => {
            if !required && value.len() == 0 {
                Ok(ParsedValueView::Float(Amount { bits: NAN_BITS, divisions: 0 }))
            } else {
                match number {
                    None => Err(CastError::NotANumber),
                    Some(bits) => {
                        if is_infinite_bits(bits) {
                            Err(CastError::Infinite)
                        } else if standard {
                            Ok(ParsedValueView::Float(Amount { bits, divisions: 0 }))
                        } else {
                            Ok(
                                ParsedValueView::Float(
                                    Amount { bits: negated_bits(bits), divisions: 0 },
                                ),
                            )
                        }
                    },
                }
            }
        },
        DataType::Date { format } => date_value(date_reading(value, format)),
    }
}

/// The date that a day read out of a text stands for: midnight of that day;
/// an error where no day was read.
pub open spec fn date_value(reading: Option<(i32, u32, u32)>) -> Result<
    ParsedValueView,
    CastError,
> {
    match reading {
        None => Err(CastError::NotADate),
        Some(day) => Ok(ParsedValueView::Date(DateTime::spec_midnight(day.0, day.1, day.2))),
    }
}

/// What a cast value holds.
pub open spec fn cast_view(r: Result<ParsedValue, CastError>) -> Result<
    ParsedValueView,
    CastError,
> {
    match r {
        Ok(v) => Ok(v@),
        Err(e) => Err(e),
    }
}

/// Turns the day that was read out of a text into a date at midnight; no day
/// is an error.
pub fn cast_date(reading: Option<(i32, u32, u32)>) -> (r: Result<ParsedValue, CastError>)
    ensures
        cast_view(r) == date_value(reading),
{
    match reading {
        None => Err(CastError::NotADate),
        Some(day) => Ok(ParsedValue::Date(DateTime::midnight(day.0, day.1, day.2))),
    }
}

/// Casts a text to a data type, for a required or an optional column.
pub(crate) fn cast_as(
    value: &str,
    number: Option<u64>,
    data_type: CsvColumnDataType,
    required: bool,
) -> (r: Result<ParsedValue, CastError>)
    ensures
        cast_view(r) == cast(value@, number, data_type@, required),
        r matches Ok(ParsedValue::Date(d)) ==> d.well_formed() && d.is_midnight(),
{
    match data_type {
        CsvColumnDataType::String => Ok(ParsedValue::String(String::from_str(value))),
        CsvColumnDataType::Float(standard) => {
            if !required && value.is_empty() {
                Ok(ParsedValue::Float(Amount::no_value()))
            } else {
                match number {
                    None => Err(CastError::NotANumber),
                    Some(bits) => {
                        let amount = Amount::from_bits(bits);
                        if amount.is_infinite() {
                            Err(CastError::Infinite)
                        } else if *standard {
                            Ok(ParsedValue::Float(amount))
                        } else {
                            Ok(ParsedValue::Float(amount.negated()))
                        }
                    },
                }
            }
        },
        CsvColumnDataType::DateObject(format) => cast_date(read_date(value, format)),
    }
}

/// Casts the text of a cell to its column's data type. `number` is the number
/// that the caller read out of the text.
pub fn cast_raw_value(value: &str, number: Option<u64>, column_info: &CsvColumnInfo) -> (r: Result<
    ParsedValue,
    CastError,
>)
    ensures
        cast_view(r) == cast(value@, number, column_info@.data_type, column_info@.required),
        r matches Ok(ParsedValue::Date(d)) ==> d.well_formed() && d.is_midnight(),
{
    cast_as(value, number, column_info.get_data_type(), column_info.is_required())
}

/// Whether the text of a filled cell can be read as the data type. `number` is
/// the number that the caller read out of the text.
pub fn attempt_to_cast(raw_data: &str, number: Option<u64>, col_data_type: CsvColumnDataType) -> (r:
    bool)
    ensures
        r == cast(raw_data@, number, col_data_type@, true).is_ok(),
{
    cast_as(raw_data, number, col_data_type, true).is_ok()
}

} // verus!
