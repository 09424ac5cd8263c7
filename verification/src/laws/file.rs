//! What holds of finding the layouts of a file and of turning a whole file
//! into expenses.

use crate::definition::csv_definition::DefinitionView;
use crate::definition::csv_definition::parsed;
use crate::definition::csv_definition::validates;
use crate::definition::error::ParseError;
use crate::definition::registry::CsvDefinitionKey;
use crate::definition::registry::registry;
use crate::model::expense::ExpenseView;
use crate::record::CellView;
use crate::service::csv_file_service::follows;
use crate::service::csv_file_service::header_rows;
use crate::service::csv_file_service::matching_keys;
use crate::service::csv_file_service::parsed_rows;
use vstd::prelude::*;

verus! {

/// A key is among the keys found for a file exactly if the list holds a
/// layout under that key that the file follows.
pub proof fn found_keys_are_the_matching_ones(
    rows: Seq<Seq<CellView>>,
    definitions: Seq<(CsvDefinitionKey, DefinitionView)>,
    key: CsvDefinitionKey,
)
    ensures
        matching_keys(rows, definitions).contains(key) <==> exists|i: int|
            0 <= i < definitions.len() && (#[trigger] definitions[i]).0 == key && follows(
                rows,
                definitions[i].1,
            ),
    decreases definitions.len(),
{
    if definitions.len() > 0 {
        let shorter = definitions.drop_last();
        let before = matching_keys(rows, shorter);
        let last = definitions.last();
        found_keys_are_the_matching_ones(rows, shorter, key);
        if matching_keys(rows, definitions).contains(key) {
            if follows(rows, last.1) && last.0 == key {
                assert(definitions[definitions.len() - 1] == last);
            } else {
                if follows(rows, last.1) {
                    let at = choose|j: int|
                        0 <= j < before.push(last.0).len() && before.push(last.0)[j] == key;
                    assert(before[at] == key);
                }
                assert(before.contains(key));
                let i = choose|i: int|
                    0 <= i < shorter.len() && (#[trigger] shorter[i]).0 == key && follows(
                        rows,
                        shorter[i].1,
                    );
                assert(definitions[i] == shorter[i]);
            }
        }
        if exists|i: int|
            0 <= i < definitions.len() && (#[trigger] definitions[i]).0 == key && follows(
                rows,
                definitions[i].1,
            ) {
            let i = choose|i: int|
                0 <= i < definitions.len() && (#[trigger] definitions[i]).0 == key && follows(
                    rows,
                    definitions[i].1,
                );
            if i < shorter.len() {
                assert(shorter[i] == definitions[i]);
                assert(before.contains(key));
                let at = choose|j: int| 0 <= j < before.len() && before[j] == key;
                if follows(rows, last.1) {
                    assert(before.push(last.0)[at] == key);
                }
            } else {
                assert(before.push(last.0)[before.len() as int] == key);
            }
        }
    }
}

/// Of two layouts, one that a file follows and one that no row of the file
/// follows, exactly the first is found, in whichever order the two stand.
pub proof fn only_the_layout_that_fits_is_found(
    rows: Seq<Seq<CellView>>,
    fitting_key: CsvDefinitionKey,
    fitting: DefinitionView,
    other_key: CsvDefinitionKey,
    other: DefinitionView,
)
    requires
        follows(rows, fitting),
        forall|i: int| 0 <= i < rows.len() ==> !validates(#[trigger] rows[i], other),
    ensures
        matching_keys(rows, seq![(fitting_key, fitting), (other_key, other)]) == seq![fitting_key],
        matching_keys(rows, seq![(other_key, other), (fitting_key, fitting)]) == seq![fitting_key],
{
    assert(!follows(rows, other)) by {
        if rows.len() > header_rows(other) {
            assert(!validates(rows[header_rows(other)], other));
        }
    }
    let first = seq![(fitting_key, fitting), (other_key, other)];
    let second = seq![(other_key, other), (fitting_key, fitting)];
    assert(first.drop_last() =~= seq![(fitting_key, fitting)]);
    assert(first.drop_last().drop_last() =~= Seq::empty());
    assert(second.drop_last() =~= seq![(other_key, other)]);
    assert(second.drop_last().drop_last() =~= Seq::empty());
    reveal_with_fuel(matching_keys, 3);
    assert(matching_keys(rows, first) =~= seq![fitting_key]);
    assert(matching_keys(rows, second) =~= seq![fitting_key]);
}

/// A file without a row after the titles follows no layout: an empty file
/// follows none at all, and a file of one row none that has titles.
pub proof fn titles_alone_match_nothing(
    rows: Seq<Seq<CellView>>,
    definitions: Seq<(CsvDefinitionKey, DefinitionView)>,
)
    requires
        rows.len() <= 1,
        rows.len() == 1 ==> forall|i: int|
            0 <= i < definitions.len() ==> (#[trigger] definitions[i]).1.has_headers,
    ensures
        matching_keys(rows, definitions) == Seq::<CsvDefinitionKey>::empty(),
    decreases definitions.len(),
{
    if definitions.len() > 0 {
        let shorter = definitions.drop_last();
        assert forall|i: int| 0 <= i < shorter.len() implies (#[trigger] shorter[i]).1.has_headers
            || rows.len() == 0 by {
            assert(shorter[i] == definitions[i]);
        }
        titles_alone_match_nothing(rows, shorter);
        assert(definitions[definitions.len() - 1] == definitions.last());
    }
}

/// The row stands in the file, after the titles that the layout says it has.
pub open spec fn stands_after_titles(
    rows: Seq<Seq<CellView>>,
    definition: DefinitionView,
    row: Seq<CellView>,
) -> bool {
    exists|i: int| header_rows(definition) <= i < rows.len() && #[trigger] rows[i] == row
}

/// Whether a file follows a layout depends on which rows stand after the
/// titles, not on their order nor on how often each stands there.
pub proof fn row_order_does_not_matter(
    first: Seq<Seq<CellView>>,
    second: Seq<Seq<CellView>>,
    definition: DefinitionView,
)
    requires
        forall|row: Seq<CellView>| #[trigger]
            stands_after_titles(first, definition, row) <==> stands_after_titles(
                second,
                definition,
                row,
            ),
    ensures
        follows(first, definition) == follows(second, definition),
{
    if follows(first, definition) {
        rows_that_follow_carry_over(first, second, definition);
    }
    if follows(second, definition) {
        rows_that_follow_carry_over(second, first, definition);
    }
}

/// A file follows a layout if its rows after the titles all stand in a file
/// that follows it, and it has such a row.
proof fn rows_that_follow_carry_over(
    first: Seq<Seq<CellView>>,
    second: Seq<Seq<CellView>>,
    definition: DefinitionView,
)
    requires
        forall|row: Seq<CellView>| #[trigger]
            stands_after_titles(first, definition, row) <==> stands_after_titles(
                second,
                definition,
                row,
            ),
        follows(first, definition),
    ensures
        follows(second, definition),
{
    let h = header_rows(definition);
    assert(stands_after_titles(first, definition, first[h]));
    assert(stands_after_titles(second, definition, first[h]));
    assert forall|k: int| h <= k < second.len() implies validates(
        #[trigger] second[k],
        definition,
    ) by {
        assert(stands_after_titles(second, definition, second[k]));
        assert(stands_after_titles(first, definition, second[k]));
        let i = choose|i: int| h <= i < first.len() && #[trigger] first[i] == second[k];
        assert(validates(first[i], definition));
    }
}

/// A file that is turned into expenses gives one expense for each row after
/// the titles, in the order of the rows: the expense that the row gives.
pub proof fn every_row_gives_its_expense(
    rows: Seq<Result<Seq<CellView>, Seq<char>>>,
    definition: DefinitionView,
    upto: int,
)
    requires
        0 <= upto <= rows.len(),
    ensures
        parsed_rows(rows, definition, upto) matches Ok(expenses) ==> {
            &&& expenses.len() == if upto > header_rows(definition) {
                upto - header_rows(definition)
            } else {
                0
            }
            &&& forall|i: int|
                header_rows(definition) <= i < upto ==> (#[trigger] rows[i]).is_ok() && parsed(
                    rows[i]->Ok_0,
                    definition,
                ) == Ok::<ExpenseView, ParseError>(expenses[i - header_rows(definition)])
        },
    decreases upto,
{
    if upto > 0 {
        every_row_gives_its_expense(rows, definition, upto - 1);
    }
}

/// A file with a row that the reader could not make out is not turned into
/// expenses, and neither is one with a row after the titles that gives none.
pub proof fn one_bad_row_fails_the_file(
    rows: Seq<Result<Seq<CellView>, Seq<char>>>,
    definition: DefinitionView,
    at: int,
    upto: int,
)
    requires
        0 <= at < upto <= rows.len(),
        rows[at].is_err() || (at >= header_rows(definition) && parsed(
            rows[at]->Ok_0,
            definition,
        ).is_err()),
    ensures
        parsed_rows(rows, definition, upto).is_err(),
    decreases upto,
{
    if at < upto - 1 {
        one_bad_row_fails_the_file(rows, definition, at, upto - 1);
    }
}

/// No key stands twice in the list of the layouts that the library knows.
pub proof fn registry_keys_are_distinct()
    ensures
        forall|i: int, j: int|
            0 <= i < j < registry().len() ==> (#[trigger] registry()[i]).0 != (
            #[trigger] registry()[j]).0,
{
}

} // verus!
