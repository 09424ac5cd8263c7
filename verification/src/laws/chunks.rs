//! What holds of work that is cut into chunks: the answers of the chunks,
//! put together, are the answer for the whole.

use crate::definition::csv_definition::DefinitionView;
use crate::definition::csv_definition::parsed;
use crate::definition::registry::CsvDefinitionKey;
use crate::model::expense::ExpenseView;
use crate::record::CellView;
use crate::service::chunks::chunk_count;
use crate::service::chunks::chunk_end;
use crate::service::chunks::chunk_start;
use crate::service::chunks::combined;
use crate::service::chunks::joined;
use crate::service::chunks::merged;
use crate::service::csv_file_service::chunk_of;
use crate::service::csv_file_service::matching_keys;
use crate::service::csv_file_service::parsed_rows;
use crate::service::csv_file_service::parsed_rows_between;
use crate::service::error::ParseFileErrorView;
use vstd::prelude::*;

verus! {

/// The keys found in a list of layouts are those found in its first part,
/// then those found in the rest.
pub proof fn found_keys_concatenate(
    rows: Seq<Seq<CellView>>,
    first: Seq<(CsvDefinitionKey, DefinitionView)>,
    second: Seq<(CsvDefinitionKey, DefinitionView)>,
)
    ensures
        matching_keys(rows, first + second) == matching_keys(rows, first) + matching_keys(
            rows,
            second,
        ),
    decreases second.len(),
{
    if second.len() == 0 {
        assert(first + second == first);
    } else {
        found_keys_concatenate(rows, first, second.drop_last());
        assert((first + second).drop_last() == first + second.drop_last());
        assert((first + second).last() == second.last());
    }
}

/// Chunks of a size above zero cut a list without a gap and without an
/// overlap: the first begins the list, each ends where the next begins and no
/// sooner than it began, and the last of them ends the list.
pub proof fn chunks_cut_the_list(len: int, chunk_size: int, index: int)
    requires
        0 <= len,
        0 < chunk_size,
        0 <= index,
    ensures
        chunk_start(len, chunk_size, 0) == 0,
        chunk_end(len, chunk_size, index) == chunk_start(len, chunk_size, index + 1),
        0 <= chunk_start(len, chunk_size, index) <= chunk_end(len, chunk_size, index) <= len,
        index < chunk_count(len, chunk_size) ==> chunk_start(len, chunk_size, index) < chunk_end(
            len,
            chunk_size,
            index,
        ),
        chunk_start(len, chunk_size, chunk_count(len, chunk_size)) == len,
{
    assert(0 * chunk_size == 0);
    assert((index + 1) * chunk_size == index * chunk_size + chunk_size) by (nonlinear_arith);
    assert(0 <= index * chunk_size) by (nonlinear_arith)
        requires
            0 <= index,
            0 < chunk_size,
    ;
    let count = chunk_count(len, chunk_size);
    assert(len == chunk_size * (len / chunk_size) + len % chunk_size && 0 <= len % chunk_size
        < chunk_size) by (nonlinear_arith)
        requires
            0 < chunk_size,
            0 <= len,
    ;
    assert(count * chunk_size >= len && (count - 1) * chunk_size < len || len == 0)
        by (nonlinear_arith)
        requires
            len == chunk_size * (len / chunk_size) + len % chunk_size,
            0 <= len % chunk_size < chunk_size,
            count == if len % chunk_size == 0 {
                len / chunk_size
            } else {
                len / chunk_size + 1
            },
    ;
    if len == 0 {
        assert(count == 0) by (nonlinear_arith)
            requires
                len == 0,
                0 < chunk_size,
                count == if len % chunk_size == 0 {
                    len / chunk_size
                } else {
                    len / chunk_size + 1
                },
        ;
    }
    if index < count {
        assert(index * chunk_size < len) by (nonlinear_arith)
            requires
                0 <= index <= count - 1,
                (count - 1) * chunk_size < len,
                0 < chunk_size,
        ;
    }
}

/// What each of the first `count` chunks of a list of layouts gives for a
/// file.
pub open spec fn chunk_answers(
    rows: Seq<Seq<CellView>>,
    definitions: Seq<(CsvDefinitionKey, DefinitionView)>,
    chunk_size: int,
    count: int,
) -> Seq<Seq<CsvDefinitionKey>> {
    Seq::new(
        count as nat,
        |k: int|
            matching_keys(
                rows,
                chunk_of(
                    definitions,
                    chunk_start(definitions.len() as int, chunk_size, k),
                    chunk_end(definitions.len() as int, chunk_size, k),
                ),
            ),
    )
}

/// What the first `count` chunks give, joined, is what the layouts before the
/// end of the last of them give.
proof fn chunks_give_their_part(
    rows: Seq<Seq<CellView>>,
    definitions: Seq<(CsvDefinitionKey, DefinitionView)>,
    chunk_size: int,
    count: int,
)
    requires
        0 < chunk_size,
        0 <= count,
    ensures
        joined(chunk_answers(rows, definitions, chunk_size, count)) == matching_keys(
            rows,
            definitions.take(chunk_start(definitions.len() as int, chunk_size, count)),
        ),
    decreases count,
{
    let len = definitions.len() as int;
    if count == 0 {
        chunks_cut_the_list(len, chunk_size, 0);
        assert(definitions.take(0) =~= Seq::empty());
        assert(chunk_answers(rows, definitions, chunk_size, 0) =~= Seq::empty());
    } else {
        chunks_give_their_part(rows, definitions, chunk_size, count - 1);
        chunks_cut_the_list(len, chunk_size, count - 1);
        let from = chunk_start(len, chunk_size, count - 1);
        let to = chunk_end(len, chunk_size, count - 1);
        let answers = chunk_answers(rows, definitions, chunk_size, count);
        assert(answers.drop_last() =~= chunk_answers(rows, definitions, chunk_size, count - 1));
        assert(chunk_of(definitions, from, to) == definitions.subrange(from, to));
        assert(definitions.take(from) + definitions.subrange(from, to) =~= definitions.take(to));
        found_keys_concatenate(rows, definitions.take(from), definitions.subrange(from, to));
    }
}

/// The answers of the chunks, joined in the order of the chunks, are the
/// answer for the whole list of layouts, whatever the size of the chunks.
pub proof fn chunks_give_the_whole_answer(
    rows: Seq<Seq<CellView>>,
    definitions: Seq<(CsvDefinitionKey, DefinitionView)>,
    chunk_size: int,
)
    requires
        0 < chunk_size,
    ensures
        joined(
            chunk_answers(
                rows,
                definitions,
                chunk_size,
                chunk_count(definitions.len() as int, chunk_size),
            ),
        ) == matching_keys(rows, definitions),
{
    let len = definitions.len() as int;
    chunks_cut_the_list(len, chunk_size, 0);
    assert(0 <= chunk_count(len, chunk_size)) by (nonlinear_arith)
        requires
            0 <= len,
            0 < chunk_size,
    ;
    chunks_give_their_part(rows, definitions, chunk_size, chunk_count(len, chunk_size));
    assert(definitions.take(len) == definitions);
}

/// The outcome of a stretch of rows is that of its first part and of the
/// rest, combined: the first error, or the expenses of both in order.
pub proof fn row_outcomes_combine(
    rows: Seq<Result<Seq<CellView>, Seq<char>>>,
    definition: DefinitionView,
    from: int,
    mid: int,
    upto: int,
)
    requires
        from <= mid <= upto,
    ensures
        parsed_rows_between(rows, definition, from, upto) == combined(
            parsed_rows_between(rows, definition, from, mid),
            parsed_rows_between(rows, definition, mid, upto),
        ),
    decreases upto - mid,
{
    let first = parsed_rows_between(rows, definition, from, mid);
    if mid == upto {
        if let Ok(expenses) = first {
            assert(expenses + Seq::<ExpenseView>::empty() =~= expenses);
        }
    } else {
        row_outcomes_combine(rows, definition, from, mid, upto - 1);
        let rest = parsed_rows_between(rows, definition, mid, upto - 1);
        if let Ok(expenses) = first {
            if let Ok(more) = rest {
                if let Ok(record) = rows[upto - 1] {
                    if let Ok(expense) = parsed(record, definition) {
                        assert((expenses + more).push(expense) =~= expenses + more.push(expense));
                    }
                }
            }
        }
    }
}

/// What each of the chunks from `first` up to `count` gives for its rows of a
/// file.
pub open spec fn chunk_outcomes(
    rows: Seq<Result<Seq<CellView>, Seq<char>>>,
    definition: DefinitionView,
    chunk_size: int,
    first: int,
    count: int,
) -> Seq<Result<Seq<ExpenseView>, ParseFileErrorView>> {
    Seq::new(
        (count - first) as nat,
        |k: int|
            parsed_rows_between(
                rows,
                definition,
                chunk_start(rows.len() as int, chunk_size, first + k),
                chunk_end(rows.len() as int, chunk_size, first + k),
            ),
    )
}

/// What the chunks from `first` on give, merged, is the outcome of the rows
/// from the start of that chunk to the end of the file.
proof fn chunks_give_the_rest(
    rows: Seq<Result<Seq<CellView>, Seq<char>>>,
    definition: DefinitionView,
    chunk_size: int,
    first: int,
)
    requires
        0 < chunk_size,
        0 <= first <= chunk_count(rows.len() as int, chunk_size),
    ensures
        merged(
            chunk_outcomes(
                rows,
                definition,
                chunk_size,
                first,
                chunk_count(rows.len() as int, chunk_size),
            ),
        ) == parsed_rows_between(
            rows,
            definition,
            chunk_start(rows.len() as int, chunk_size, first),
            rows.len() as int,
        ),
    decreases chunk_count(rows.len() as int, chunk_size) - first,
{
    let len = rows.len() as int;
    let count = chunk_count(len, chunk_size);
    let outcomes = chunk_outcomes(rows, definition, chunk_size, first, count);
    chunks_cut_the_list(len, chunk_size, first);
    if first < count {
        chunks_give_the_rest(rows, definition, chunk_size, first + 1);
        assert(outcomes.drop_first() =~= chunk_outcomes(
            rows,
            definition,
            chunk_size,
            first + 1,
            count,
        ));
        row_outcomes_combine(
            rows,
            definition,
            chunk_start(len, chunk_size, first),
            chunk_end(len, chunk_size, first),
            len,
        );
    }
}

/// The outcomes of the chunks of rows, merged in the order of the chunks, are
/// the outcome of the whole file, whatever the size of the chunks.
pub proof fn row_chunks_give_the_whole_outcome(
    rows: Seq<Result<Seq<CellView>, Seq<char>>>,
    definition: DefinitionView,
    chunk_size: int,
)
    requires
        0 < chunk_size,
    ensures
        merged(
            chunk_outcomes(
                rows,
                definition,
                chunk_size,
                0,
                chunk_count(rows.len() as int, chunk_size),
            ),
        ) == parsed_rows(rows, definition, rows.len() as int),
{
    let len = rows.len() as int;
    chunks_cut_the_list(len, chunk_size, 0);
    assert(0 <= chunk_count(len, chunk_size)) by (nonlinear_arith)
        requires
            0 <= len,
            0 < chunk_size,
    ;
    chunks_give_the_rest(rows, definition, chunk_size, 0);
}

} // verus!
