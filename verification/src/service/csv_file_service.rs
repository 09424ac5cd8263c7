//! Whole files: finding the layouts that a file follows, and turning a file
//! into expenses under one layout.
//!
//! A file comes as the list of its rows in order, as the caller's reader gave
//! them: a row that the reader could make out, or the reader's complaint about
//! one that it could not.

use crate::definition::column::assoc;
use crate::definition::column::assoc_finds_last;
use crate::definition::column::assoc_skips_other_keys;
use crate::definition::csv_definition::parsed;
use crate::definition::csv_definition::validates;
use crate::definition::csv_definition::CsvDefinition;
use crate::definition::csv_definition::DefinitionView;
use crate::definition::registry::definitions_view;
use crate::definition::registry::CsvDefinitionKey;
use crate::model::expense::Expense;
use crate::model::expense::ExpenseView;
use crate::record::CellView;
use crate::record::CsvRecord;
use crate::service::chunks::cut_bounds;
use crate::service::chunks::cut_end;
use crate::service::chunks::cut_start;
use crate::service::chunks::expenses_view;
use crate::service::chunks::outcome_view;
use crate::service::error::FormatError;
use crate::service::error::ParseFileError;
use crate::service::error::ParseFileErrorView;
use vstd::prelude::*;

verus! {

/// The rows of a file, by what they hold.
pub open spec fn rows_view(rows: Seq<Result<CsvRecord, String>>) -> Seq<
    Result<Seq<CellView>, Seq<char>>,
> {
    Seq::new(
        rows.len(),
        |i: int|
            match rows[i] {
                Ok(record) => Ok(record@),
                Err(message) => Err(message@),
            },
    )
}

/// The reader made out every row.
pub open spec fn well_formed(rows: Seq<Result<Seq<CellView>, Seq<char>>>) -> bool {
    forall|i: int| 0 <= i < rows.len() ==> (#[trigger] rows[i]).is_ok()
}

/// The row at `at` is the first that the reader could not make out.
pub open spec fn first_malformed(rows: Seq<Result<Seq<CellView>, Seq<char>>>, at: int) -> bool {
    &&& 0 <= at < rows.len()
    &&& rows[at].is_err()
    &&& forall|i: int| 0 <= i < at ==> (#[trigger] rows[i]).is_ok()
}

/// The rows that the reader made out.
pub open spec fn records(rows: Seq<Result<Seq<CellView>, Seq<char>>>) -> Seq<Seq<CellView>> {
    Seq::new(rows.len(), |i: int| rows[i]->Ok_0)
}

/// The number of rows at the head of a file that hold titles.
pub open spec fn header_rows(definition: DefinitionView) -> int {
    if definition.has_headers {
        1
    } else {
        0
    }
}

/// A file follows a layout: it has a row after the titles, and every row
/// after the titles follows the layout.
pub open spec fn follows(rows: Seq<Seq<CellView>>, definition: DefinitionView) -> bool {
    &&& rows.len() > header_rows(definition)
    &&& forall|i: int|
        header_rows(definition) <= i < rows.len() ==> validates(#[trigger] rows[i], definition)
}

/// The keys of the layouts that a file follows, in the order of the list.
pub open spec fn matching_keys(
    rows: Seq<Seq<CellView>>,
    definitions: Seq<(CsvDefinitionKey, DefinitionView)>,
) -> Seq<CsvDefinitionKey>
    decreases definitions.len(),
{
    if definitions.len() == 0 {
        Seq::empty()
    } else {
        let before = matching_keys(rows, definitions.drop_last());
        if follows(rows, definitions.last().1) {
            before.push(definitions.last().0)
        } else {
            before
        }
    }
}

/// The rows that were made out, by what they hold.
pub open spec fn records_view(records: Seq<&CsvRecord>) -> Seq<Seq<CellView>> {
    Seq::new(records.len(), |i: int| records[i]@)
}

/// Takes the rows out of the reader's results, up to the first that the reader
/// could not make out.
pub(crate) fn collect_records(rows: &Vec<Result<CsvRecord, String>>) -> (r: Result<
    Vec<&CsvRecord>,
    FormatError,
>)
    ensures
        match r {
            Ok(list) => well_formed(rows_view(rows@)) && records_view(list@) == records(
                rows_view(rows@),
            ),
            Err(e) => first_malformed(rows_view(rows@), e.row as int) && rows_view(
                rows@,
            )[e.row as int] == Err::<Seq<CellView>, Seq<char>>(e.message@),
        },
{
    let mut list: Vec<&CsvRecord> = Vec::new();
    let mut i: usize = 0;
    while i < rows.len()
        invariant
            i <= rows@.len(),
            list@.len() == i,
            forall|j: int| 0 <= j < i ==> (#[trigger] rows_view(rows@)[j]).is_ok(),
            forall|j: int| 0 <= j < i ==> (#[trigger] list@[j])@ == rows_view(rows@)[j]->Ok_0,
        decreases rows@.len() - i,
    {
        match &rows[i] {
            Ok(record) => {
                list.push(record);
            },
            Err(message) => {
                return Err(FormatError { row: i, message: message.clone() });
            },
        }
        i += 1;
    }
    assert(records_view(list@) =~= records(rows_view(rows@)));
    Ok(list)
}

/// Whether a file follows a layout.
pub(crate) fn definition_matches(rows: &Vec<&CsvRecord>, definition: &CsvDefinition) -> (r: bool)
    ensures
        r == follows(records_view(rows@), definition@),
{
    let start: usize = if definition.has_header() {
        1
    } else {
        0
    };
    if rows.len() <= start {
        return false;
    }
    let mut i: usize = start;
    while i < rows.len()
        invariant
            start <= i <= rows@.len(),
            start == header_rows(definition@),
            forall|j: int|
                start <= j < i ==> validates(#[trigger] records_view(rows@)[j], definition@),
        decreases rows@.len() - i,
    {
        if !definition.validate_against_record(rows[i]) {
            assert(!validates(records_view(rows@)[i as int], definition@));
            return false;
        }
        i += 1;
    }
    true
}

/// The layouts from `start` up to `end`, both cut down to the length of the
/// list.
pub open spec fn chunk_of(
    definitions: Seq<(CsvDefinitionKey, DefinitionView)>,
    start: int,
    end: int,
) -> Seq<(CsvDefinitionKey, DefinitionView)> {
    definitions.subrange(
        cut_start(definitions.len() as int, start, end),
        cut_end(definitions.len() as int, end),
    )
}

/// Finds, among the layouts from `start` up to `end`, those that a file
/// follows: the work of one worker.
///
/// A row that the reader could not make out is an error. Otherwise the answer
/// holds the key of every layout of the chunk that the file follows, in the
/// order of the list.
pub fn find_definitions_in_chunk(
    rows: &Vec<Result<CsvRecord, String>>,
    csv_definitions: &Vec<(CsvDefinitionKey, CsvDefinition)>,
    start: usize,
    end: usize,
) -> (r: Result<Vec<CsvDefinitionKey>, FormatError>)
    ensures
        match r {
            Ok(keys) => well_formed(rows_view(rows@)) && keys@ == matching_keys(
                records(rows_view(rows@)),
                chunk_of(definitions_view(csv_definitions@), start as int, end as int),
            ),
            Err(e) => first_malformed(rows_view(rows@), e.row as int) && rows_view(
                rows@,
            )[e.row as int] == Err::<Seq<CellView>, Seq<char>>(e.message@),
        },
{
    let list = match collect_records(rows) {
        Ok(list) => list,
        Err(e) => {
            return Err(e);
        },
    };
    let (from, to) = cut_bounds(csv_definitions.len(), start, end);
    let ghost chunk = chunk_of(definitions_view(csv_definitions@), start as int, end as int);
    let mut matched_definition_keys: Vec<CsvDefinitionKey> = Vec::new();
    let mut i: usize = from;
    while i < to
        invariant
            from <= i <= to <= csv_definitions@.len(),
            chunk == definitions_view(csv_definitions@).subrange(from as int, to as int),
            matched_definition_keys@ == matching_keys(records_view(list@), chunk.take(i - from)),
        decreases to - i,
    {
        proof {
            assert(chunk.take(i - from + 1).drop_last() == chunk.take(i - from));
            assert(chunk.take(i - from + 1).last() == definitions_view(csv_definitions@)[i as int]);
        }
        if definition_matches(&list, &csv_definitions[i].1) {
            matched_definition_keys.push(csv_definitions[i].0);
        }
        i += 1;
    }
    proof {
        assert(chunk.take(to - from) == chunk);
    }
    Ok(matched_definition_keys)
}

/// Finds the layouts that a file follows.
///
/// A row that the reader could not make out is an error, whatever the layouts
/// are. Otherwise the answer holds the key of every layout that the file
/// follows, in the order of the list of layouts, and is `None` where the file
/// follows none.
pub fn open_csv_file_and_find_definitions(
    rows: &Vec<Result<CsvRecord, String>>,
    csv_definitions: &Vec<(CsvDefinitionKey, CsvDefinition)>,
) -> (r: Result<Option<Vec<CsvDefinitionKey>>, FormatError>)
    ensures
        match r {
            Ok(None) => well_formed(rows_view(rows@)) && matching_keys(
                records(rows_view(rows@)),
                definitions_view(csv_definitions@),
            ).len() == 0,
            Ok(Some(keys)) => well_formed(rows_view(rows@)) && keys@.len() > 0 && keys@
                == matching_keys(records(rows_view(rows@)), definitions_view(csv_definitions@)),
            Err(e) => first_malformed(rows_view(rows@), e.row as int) && rows_view(
                rows@,
            )[e.row as int] == Err::<Seq<CellView>, Seq<char>>(e.message@),
        },
{
    let ghost all = definitions_view(csv_definitions@);
    assert(chunk_of(all, 0, all.len() as int) == all);
    match find_definitions_in_chunk(rows, csv_definitions, 0, csv_definitions.len()) {
        Err(e) => Err(e),
        Ok(matched_definition_keys) => {
            if matched_definition_keys.is_empty() {
                Ok(None)
            } else {
                Ok(Some(matched_definition_keys))
            }
        },
    }
}

/// The layout that the list names last under `key`.
pub fn find_definition(
    csv_definitions: &Vec<(CsvDefinitionKey, CsvDefinition)>,
    key: CsvDefinitionKey,
) -> (r: Option<&CsvDefinition>)
    ensures
        match r {
            Some(definition) => assoc(csv_definitions@).contains_key(key) && assoc(
                csv_definitions@,
            )[key] == definition@,
            None => !assoc(csv_definitions@).contains_key(key),
        },
{
    let mut i: usize = csv_definitions.len();
    while i > 0
        invariant
            i <= csv_definitions@.len(),
            forall|j: int| i <= j < csv_definitions@.len() ==> csv_definitions@[j].0 != key,
        decreases i,
    {
        i -= 1;
        if csv_definitions[i].0 == key {
            proof {
                assoc_finds_last(csv_definitions@, i as int, key);
            }
            return Some(&csv_definitions[i].1);
        }
    }
    proof {
        assoc_skips_other_keys(csv_definitions@, 0, key);
    }
    None
}

/// The outcome after the row at `at` is taken, given the expenses of the rows
/// before it.
///
/// A row that the reader could not make out is an error, the title row too.
/// The title row gives no expense; every other row gives one, or the error
/// that keeps it from giving one.
pub open spec fn row_taken(
    rows: Seq<Result<Seq<CellView>, Seq<char>>>,
    definition: DefinitionView,
    expenses: Seq<ExpenseView>,
    at: int,
) -> Result<Seq<ExpenseView>, ParseFileErrorView> {
    match rows[at] {
        Err(message) => Err(ParseFileErrorView::Format { row: at, message }),
        Ok(record) => {
            if at < header_rows(definition) {
                Ok(expenses)
            } else {
                match parsed(record, definition) {
                    Err(error) => Err(ParseFileErrorView::Record { row: at, error }),
                    Ok(expense) => Ok(expenses.push(expense)),
                }
            }
        },
    }
}

/// The expenses of the rows from `from` up to `upto` under a layout, in the
/// order of the rows, or the first error among those rows.
pub open spec fn parsed_rows_between(
    rows: Seq<Result<Seq<CellView>, Seq<char>>>,
    definition: DefinitionView,
    from: int,
    upto: int,
) -> Result<Seq<ExpenseView>, ParseFileErrorView>
    decreases upto - from,
{
    if upto <= from {
        Ok(Seq::empty())
    } else {
        match parsed_rows_between(rows, definition, from, upto - 1) {
            Err(e) => Err(e),
            Ok(expenses) => row_taken(rows, definition, expenses, upto - 1),
        }
    }
}

/// The expenses of the first `upto` rows of a file under a layout, or the
/// first error among those rows.
pub open spec fn parsed_rows(
    rows: Seq<Result<Seq<CellView>, Seq<char>>>,
    definition: DefinitionView,
    upto: int,
) -> Result<Seq<ExpenseView>, ParseFileErrorView> {
    parsed_rows_between(rows, definition, 0, upto)
}

/// Once a row has failed, the rows after it change nothing.
pub proof fn first_error_stays(
    rows: Seq<Result<Seq<CellView>, Seq<char>>>,
    definition: DefinitionView,
    from: int,
    at: int,
    upto: int,
)
    requires
        at <= upto,
        parsed_rows_between(rows, definition, from, at).is_err(),
    ensures
        parsed_rows_between(rows, definition, from, upto) == parsed_rows_between(
            rows,
            definition,
            from,
            at,
        ),
    decreases upto - at,
{
    if at < upto {
        first_error_stays(rows, definition, from, at, upto - 1);
    }
}

/// Turns the rows from `start` up to `end` into expenses under one layout,
/// both cut down to the length of the file: the work of one worker. The first
/// row that fails ends it.
pub fn parse_rows_in_chunk(
    rows: &Vec<Result<CsvRecord, String>>,
    definition: &CsvDefinition,
    start: usize,
    end: usize,
) -> (r: Result<Vec<Expense>, ParseFileError>)
    ensures
        outcome_view(r) == parsed_rows_between(
            rows_view(rows@),
            definition@,
            cut_start(rows@.len() as int, start as int, end as int),
            cut_end(rows@.len() as int, end as int),
        ),
{
    let header: usize = if definition.has_header() {
        1
    } else {
        0
    };
    let (from, to) = cut_bounds(rows.len(), start, end);
    let mut expenses: Vec<Expense> = Vec::new();
    let mut i: usize = from;
    assert(expenses_view(expenses@) =~= Seq::empty());
    while i < to
        invariant
            from <= i <= to <= rows@.len(),
            from == cut_start(rows@.len() as int, start as int, end as int),
            to == cut_end(rows@.len() as int, end as int),
            header == header_rows(definition@),
            parsed_rows_between(rows_view(rows@), definition@, from as int, i as int) == Ok::<
                Seq<ExpenseView>,
                ParseFileErrorView,
            >(expenses_view(expenses@)),
        decreases to - i,
    {
        let ghost before = expenses_view(expenses@);
        match &rows[i] {
            Err(message) => {
                proof {
                    first_error_stays(
                        rows_view(rows@),
                        definition@,
                        from as int,
                        i + 1,
                        to as int,
                    );
                }
                return Err(ParseFileError::Format(FormatError { row: i, message: message.clone() }));
            },
            Ok(record) => {
                if i >= header {
                    match definition.parse_record(record) {
                        Err(error) => {
                            proof {
                                first_error_stays(
                                    rows_view(rows@),
                                    definition@,
                                    from as int,
                                    i + 1,
                                    to as int,
                                );
                            }
                            return Err(ParseFileError::Record { row: i, error });
                        },
                        Ok(expense) => {
                            expenses.push(expense);
                            assert(expenses_view(expenses@) =~= before.push(expense@));
                        },
                    }
                }
            },
        }
        i += 1;
    }
    Ok(expenses)
}

/// Turns every row of a file into an expense under one layout; the first row
/// that fails ends it.
pub fn parse_rows(rows: &Vec<Result<CsvRecord, String>>, definition: &CsvDefinition) -> (r: Result<
    Vec<Expense>,
    ParseFileError,
>)
    ensures
        outcome_view(r) == parsed_rows(rows_view(rows@), definition@, rows@.len() as int),
{
    parse_rows_in_chunk(rows, definition, 0, rows.len())
}

/// Turns a file into expenses under the layout that stands under a key.
///
/// Without a layout under the key that is the error; otherwise the outcome is
/// that of the rows under that layout.
pub fn parse_csv_file_with_selected_definition(
    rows: &Vec<Result<CsvRecord, String>>,
    csv_definitions: &Vec<(CsvDefinitionKey, CsvDefinition)>,
    csv_definition_key: CsvDefinitionKey,
) -> (r: Result<Vec<Expense>, ParseFileError>)
    ensures
        outcome_view(r) == (if assoc(csv_definitions@).contains_key(csv_definition_key) {
            parsed_rows(
                rows_view(rows@),
                assoc(csv_definitions@)[csv_definition_key],
                rows@.len() as int,
            )
        } else {
            Err(ParseFileErrorView::DefinitionNotFound)
        }),
{
    match find_definition(csv_definitions, csv_definition_key) {
        Some(definition) => parse_rows(rows, definition),
        None => Err(ParseFileError::DefinitionNotFound),
    }
}

} // verus!
