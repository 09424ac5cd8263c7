//! What holds of checking a row against a layout and of turning it into an
//! expense.

use crate::date::date_reading;
use crate::definition::column::ColumnSpec;
use crate::definition::column::CsvColumnRole;
use crate::definition::csv_definition::DefinitionView;
use crate::definition::csv_definition::column_passes;
use crate::definition::csv_definition::handled;
use crate::definition::csv_definition::parsed;
use crate::definition::csv_definition::parsed_from;
use crate::definition::csv_definition::validates;
use crate::definition::error::ParseError;
use crate::model::expense::ExpenseView;
use crate::record::CellView;
use crate::service::csv_file_service::follows;
use crate::text::normalized;
use vstd::prelude::*;

verus! {

/// The cell of a column is missing from a row or empty.
pub open spec fn missing_or_empty(record: Seq<CellView>, column: ColumnSpec) -> bool {
    column.position >= record.len() || normalized(record[column.position as int].text).len() == 0
}

/// From `start` on, parsing ends in an error if a primary column at or after
/// `start` is required and its cell is missing or empty.
proof fn required_column_stops_parsing(
    record: Seq<CellView>,
    definition: DefinitionView,
    at: int,
    start: int,
    expense: ExpenseView,
)
    requires
        0 <= start <= at < definition.primary.len(),
        definition.primary[at].1.required,
        missing_or_empty(record, definition.primary[at].1),
    ensures
        parsed_from(record, definition, start, expense).is_err(),
    decreases at - start,
{
    if start < at {
        match handled(
            definition.primary[start].0,
            expense,
            record,
            definition.primary[start].1,
            definition.auxiliary,
        ) {
            Err(_) => {},
            Ok(next) => {
                required_column_stops_parsing(record, definition, at, start + 1, next);
            },
        }
    }
}

/// A row that leaves the cell of a required primary column out or empty does
/// not follow the layout and gives no expense.
pub proof fn required_primary_column_must_be_filled(
    record: Seq<CellView>,
    definition: DefinitionView,
    at: int,
)
    requires
        0 <= at < definition.primary.len(),
        definition.primary[at].1.required,
        missing_or_empty(record, definition.primary[at].1),
    ensures
        !validates(record, definition),
        parsed(record, definition).is_err(),
{
    assert(!column_passes(record, definition.primary[at].1));
    required_column_stops_parsing(record, definition, at, 0, ExpenseView::empty());
}

/// A row that leaves the cell of a required auxiliary column out or empty does
/// not follow the layout.
pub proof fn required_auxiliary_column_must_be_filled(
    record: Seq<CellView>,
    definition: DefinitionView,
    role: CsvColumnRole,
)
    requires
        definition.auxiliary.contains_key(role),
        definition.auxiliary[role].required,
        missing_or_empty(record, definition.auxiliary[role]),
    ensures
        !validates(record, definition),
{
    assert(!column_passes(record, definition.auxiliary[role]));
}

/// The layout without the primary column at `at`.
pub open spec fn without_column(definition: DefinitionView, at: int) -> DefinitionView {
    DefinitionView { primary: definition.primary.remove(at), ..definition }
}

/// Handling a column leaves every expense as it is.
pub open spec fn leaves_untouched(
    record: Seq<CellView>,
    definition: DefinitionView,
    at: int,
) -> bool {
    forall|expense: ExpenseView|
        #[trigger] handled(
            definition.primary[at].0,
            expense,
            record,
            definition.primary[at].1,
            definition.auxiliary,
        ) == Ok::<ExpenseView, ParseError>(expense)
}

/// A column whose handling leaves every expense as it is can be taken out of
/// the layout without a change to what the rest gives.
proof fn untouched_column_can_go(
    record: Seq<CellView>,
    definition: DefinitionView,
    at: int,
    start: int,
    expense: ExpenseView,
)
    requires
        0 <= at < definition.primary.len(),
        0 <= start <= definition.primary.len(),
        leaves_untouched(record, definition, at),
    ensures
        parsed_from(record, definition, start, expense) == parsed_from(
            record,
            without_column(definition, at),
            if start <= at {
                start
            } else {
                start - 1
            },
            expense,
        ),
    decreases definition.primary.len() - start,
{
    let shorter = without_column(definition, at);
    if start < definition.primary.len() {
        if start == at {
            untouched_column_can_go(record, definition, at, start + 1, expense);
        } else {
            let here = if start < at {
                start
            } else {
                start - 1
            };
            assert(shorter.primary[here] == definition.primary[start]);
            match handled(
                definition.primary[start].0,
                expense,
                record,
                definition.primary[start].1,
                definition.auxiliary,
            ) {
                Err(_) => {},
                Ok(next) => {
                    untouched_column_can_go(record, definition, at, start + 1, next);
                },
            }
        }
    }
}

/// A row that leaves the cell of an optional column out or empty follows the
/// layout if and only if it follows the layout without that column.
pub proof fn optional_primary_column_may_be_left_out(
    record: Seq<CellView>,
    definition: DefinitionView,
    at: int,
)
    requires
        0 <= at < definition.primary.len(),
        !definition.primary[at].1.required,
        missing_or_empty(record, definition.primary[at].1),
    ensures
        column_passes(record, definition.primary[at].1),
        validates(record, definition) <==> validates(record, without_column(definition, at)),
{
    let shorter = without_column(definition, at);
    if validates(record, definition) {
        assert forall|i: int| 0 <= i < shorter.primary.len() implies column_passes(
            record,
            (#[trigger] shorter.primary[i]).1,
        ) by {
            if i < at {
                assert(shorter.primary[i] == definition.primary[i]);
            } else {
                assert(shorter.primary[i] == definition.primary[i + 1]);
            }
        }
    }
    if validates(record, shorter) {
        assert forall|i: int| 0 <= i < definition.primary.len() implies column_passes(
            record,
            (#[trigger] definition.primary[i]).1,
        ) by {
            if i < at {
                assert(shorter.primary[i] == definition.primary[i]);
            } else if i > at {
                assert(shorter.primary[i - 1] == definition.primary[i]);
            }
        }
    }
}

/// A row that is too short for an optional primary column gives what it gives
/// under the layout without that column: the role is left out of the expense.
pub proof fn missing_optional_column_is_left_out(
    record: Seq<CellView>,
    definition: DefinitionView,
    at: int,
)
    requires
        0 <= at < definition.primary.len(),
        !definition.primary[at].1.required,
        definition.primary[at].1.position >= record.len(),
    ensures
        leaves_untouched(record, definition, at),
        parsed(record, definition) == parsed(record, without_column(definition, at)),
{
    untouched_column_can_go(record, definition, at, 0, ExpenseView::empty());
}

/// A row with an empty cell in an optional primary column of text gives, for a
/// tag and for a currency, what it gives under the layout without that column.
pub proof fn empty_optional_text_is_left_out(
    record: Seq<CellView>,
    definition: DefinitionView,
    at: int,
)
    requires
        0 <= at < definition.primary.len(),
        !definition.primary[at].1.required,
        definition.primary[at].1.data_type is Text,
        definition.primary[at].0 is Tag || definition.primary[at].0 is Currency,
        missing_or_empty(record, definition.primary[at].1),
    ensures
        leaves_untouched(record, definition, at),
        parsed(record, definition) == parsed(record, without_column(definition, at)),
{
    reveal_strlit("$");
    assert("$"@.len() == 1);
    untouched_column_can_go(record, definition, at, 0, ExpenseView::empty());
}

/// What handling an optional primary column with an empty cell does to an
/// expense, role by role: a description becomes empty; a date stays unless
/// the empty text reads as a date under the column's pattern.
pub proof fn empty_optional_cell_by_role(
    role: CsvColumnRole,
    expense: ExpenseView,
    record: Seq<CellView>,
    column: ColumnSpec,
    auxiliary: Map<CsvColumnRole, ColumnSpec>,
)
    requires
        !column.required,
        column.position < record.len(),
        normalized(record[column.position as int].text).len() == 0,
    ensures
        role is Description && column.data_type is Text ==> handled(
            role,
            expense,
            record,
            column,
            auxiliary,
        ) == Ok::<ExpenseView, ParseError>(ExpenseView { description: Seq::empty(), ..expense }),
        role is Date && column.data_type is Date && date_reading(
            Seq::empty(),
            column.data_type->format,
        ) is None ==> handled(role, expense, record, column, auxiliary) == Ok::<
            ExpenseView,
            ParseError,
        >(expense),
{
    assert(normalized(record[column.position as int].text) =~= Seq::empty());
}

/// What holds of every expense that a row gives: its identity is empty, its
/// date is a midnight, its amount is no NaN, and no tag stands twice among its
/// tags.
pub open spec fn sound(expense: ExpenseView) -> bool {
    &&& expense.id.len() == 0
    &&& expense.date.is_midnight()
    &&& !expense.amount.nan()
    &&& expense.tags.no_duplicates()
}

/// Handling the primary columns from `start` on keeps a sound expense sound.
proof fn handling_keeps_sound(
    record: Seq<CellView>,
    definition: DefinitionView,
    start: int,
    expense: ExpenseView,
)
    requires
        0 <= start,
        sound(expense),
    ensures
        parsed_from(record, definition, start, expense) matches Ok(last) ==> sound(last),
    decreases definition.primary.len() - start,
{
    if start < definition.primary.len() {
        match handled(
            definition.primary[start].0,
            expense,
            record,
            definition.primary[start].1,
            definition.auxiliary,
        ) {
            Err(_) => {},
            Ok(next) => {
                handling_keeps_sound(record, definition, start + 1, next);
            },
        }
    }
}

/// The expense that a row gives has no identity yet, a date at midnight, an
/// amount that is no NaN, and no tag twice.
pub proof fn parsed_expense_is_sound(record: Seq<CellView>, definition: DefinitionView)
    ensures
        parsed(record, definition) matches Ok(expense) ==> sound(expense),
{
    handling_keeps_sound(record, definition, 0, ExpenseView::empty());
}

/// From `start` on, a row that follows the layout gives an expense, or an
/// error that is a fault of the layout.
proof fn row_that_follows_is_handled(
    record: Seq<CellView>,
    definition: DefinitionView,
    start: int,
    expense: ExpenseView,
)
    requires
        0 <= start,
        validates(record, definition),
    ensures
        parsed_from(record, definition, start, expense) matches Err(e) ==> e.is_layout_fault(),
    decreases definition.primary.len() - start,
{
    if start < definition.primary.len() {
        let role = definition.primary[start].0;
        let column = definition.primary[start].1;
        assert(column_passes(record, column));
        match handled(role, expense, record, column, definition.auxiliary) {
            Err(e) => {
                assert(e.is_layout_fault());
            },
            Ok(next) => {
                row_that_follows_is_handled(record, definition, start + 1, next);
            },
        }
    }
}

/// A row that follows a layout gives an expense under it, unless the layout
/// is at fault: no such row fails for a cell that is missing, empty or not
/// castable.
pub proof fn row_that_follows_gives_an_expense(record: Seq<CellView>, definition: DefinitionView)
    requires
        validates(record, definition),
    ensures
        parsed(record, definition) matches Err(e) ==> e.is_layout_fault(),
{
    row_that_follows_is_handled(record, definition, 0, ExpenseView::empty());
}

} // verus!
