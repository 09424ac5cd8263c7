//! What holds of casting the text of a cell.

use crate::definition::cast::ParsedValueView;
use crate::definition::cast::cast;
use crate::definition::column::DataType;
use crate::definition::error::CastError;
use crate::number::Amount;
use crate::number::is_infinite_bits;
use vstd::prelude::*;

verus! {

/// Text cast as text is the text itself: casting what a cast gave gives the
/// same again, whatever number was read out of either.
pub proof fn text_cast_round_trips(
    value: Seq<char>,
    number: Option<u64>,
    number_again: Option<u64>,
    required: bool,
)
    ensures
        cast(value, number, DataType::Text, required) == Ok::<ParsedValueView, CastError>(
            ParsedValueView::String(value),
        ),
        cast(
            cast(value, number, DataType::Text, required)->Ok_0->String_0,
            number_again,
            DataType::Text,
            required,
        ) == cast(value, number, DataType::Text, required),
{
}

/// The cell of a number column is filled: it belongs to a required column or
/// holds text.
pub open spec fn filled(value: Seq<char>, required: bool) -> bool {
    required || value.len() > 0
}

/// A filled cell that reads as a number casts to that number in a column that
/// keeps the sign, and to the negated number in a column that flips it. An
/// infinite number is refused by both.
pub proof fn sign_laws(value: Seq<char>, bits: u64, required: bool)
    requires
        filled(value, required),
    ensures
        cast(value, Some(bits), DataType::Float { standard: true }, required) == (if
            is_infinite_bits(bits) {
            Err::<ParsedValueView, CastError>(CastError::Infinite)
        } else {
            Ok::<ParsedValueView, CastError>(ParsedValueView::Float(Amount { bits, divisions: 0 }))
        }),
        cast(value, Some(bits), DataType::Float { standard: false }, required) == (if
            is_infinite_bits(bits) {
            Err::<ParsedValueView, CastError>(CastError::Infinite)
        } else {
            Ok::<ParsedValueView, CastError>(
                ParsedValueView::Float((Amount { bits, divisions: 0 }).spec_negated()),
            )
        }),
{
}

/// A number column takes every number but the two infinities: a filled cell
/// casts if and only if it reads as a number that is not infinite.
pub proof fn overflow_law(value: Seq<char>, number: Option<u64>, standard: bool, required: bool)
    requires
        filled(value, required),
    ensures
        cast(value, number, DataType::Float { standard }, required).is_ok() <==> (number is Some
            && !is_infinite_bits(number->0)),
        number is Some && is_infinite_bits(number->0) ==> cast(
            value,
            number,
            DataType::Float { standard },
            required,
        ) == Err::<ParsedValueView, CastError>(CastError::Infinite),
{
}

} // verus!
