//! Cutting the work on a file into chunks that workers can take one by one,
//! and putting their answers together.
//!
//! The library starts no worker. It says where each chunk of a list begins and
//! ends and joins what the chunks gave; the answer is the same as for the
//! whole list at once, whatever the size of the chunks.

use crate::definition::registry::CsvDefinitionKey;
use crate::model::expense::Expense;
use crate::model::expense::ExpenseView;
use crate::service::error::ParseFileError;
use crate::service::error::ParseFileErrorView;
use vstd::prelude::*;

verus! {

/// Where chunk `index` of a list of `len` items begins, the chunks holding
/// `chunk_size` items each: after the items of the chunks before it, or at
/// the end of the list where those use it up.
pub open spec fn chunk_start(len: int, chunk_size: int, index: int) -> int {
    if index * chunk_size < len {
        index * chunk_size
    } else {
        len
    }
}

/// Where chunk `index` ends: where the next one begins.
pub open spec fn chunk_end(len: int, chunk_size: int, index: int) -> int {
    chunk_start(len, chunk_size, index + 1)
}

/// The number of chunks that hold the whole list: the full ones and, where
/// items are left over, one more.
pub open spec fn chunk_count(len: int, chunk_size: int) -> int {
    if len % chunk_size == 0 {
        len / chunk_size
    } else {
        len / chunk_size + 1
    }
}

/// Where chunk `index` of a list of `len` items begins and ends.
pub fn chunk_bounds(len: usize, chunk_size: usize, index: usize) -> (r: (usize, usize))
    ensures
        r.0 == chunk_start(len as int, chunk_size as int, index as int),
        r.1 == chunk_end(len as int, chunk_size as int, index as int),
        r.0 <= r.1 <= len,
{
    let start: usize = match index.checked_mul(chunk_size) {
        Some(s) => if s < len {
            s
        } else {
            len
        },
        None => len,
    };
    let end: usize = match start.checked_add(chunk_size) {
        Some(e) => if e < len {
            e
        } else {
            len
        },
        None => len,
    };
    proof {
        assert((index + 1) * chunk_size == index * chunk_size + chunk_size) by (nonlinear_arith);
    }
    (start, end)
}

/// The number of chunks of `chunk_size` items that hold a list of `len` items.
pub fn count_chunks(len: usize, chunk_size: usize) -> (r: usize)
    requires
        chunk_size > 0,
    ensures
        r == chunk_count(len as int, chunk_size as int),
{
    if len % chunk_size == 0 {
        len / chunk_size
    } else {
        proof {
            assert(chunk_size >= 2);
            assert(len / chunk_size <= len / 2) by (nonlinear_arith)
                requires
                    chunk_size >= 2,
            ;
        }
        len / chunk_size + 1
    }
}

/// An end of a chunk cut down to the length of the list.
pub open spec fn cut_end(len: int, end: int) -> int {
    if end < len {
        end
    } else {
        len
    }
}

/// A start of a chunk cut down to the chunk's end, itself cut down to the
/// length of the list.
pub open spec fn cut_start(len: int, start: int, end: int) -> int {
    if start < cut_end(len, end) {
        start
    } else {
        cut_end(len, end)
    }
}

/// Cuts the bounds of a chunk down to a list of `len` items.
pub fn cut_bounds(len: usize, start: usize, end: usize) -> (r: (usize, usize))
    ensures
        r.0 == cut_start(len as int, start as int, end as int),
        r.1 == cut_end(len as int, end as int),
        r.0 <= r.1 <= len,
{
    let to: usize = if end < len {
        end
    } else {
        len
    };
    let from: usize = if start < to {
        start
    } else {
        to
    };
    (from, to)
}

/// The lists of keys put one after the other.
pub open spec fn joined(parts: Seq<Seq<CsvDefinitionKey>>) -> Seq<CsvDefinitionKey>
    decreases parts.len(),
{
    if parts.len() == 0 {
        Seq::empty()
    } else {
        joined(parts.drop_last()) + parts.last()
    }
}

/// Lists of keys, by what they hold.
pub open spec fn parts_view(parts: Seq<Vec<CsvDefinitionKey>>) -> Seq<Seq<CsvDefinitionKey>> {
    Seq::new(parts.len(), |i: int| parts[i]@)
}

/// Joins the keys that the chunks gave, in the order of the chunks; `None`
/// where no chunk gave a key.
pub fn merge_matched_keys(parts: &Vec<Vec<CsvDefinitionKey>>) -> (r: Option<Vec<CsvDefinitionKey>>)
    ensures
        match r {
            Some(keys) => keys@.len() > 0 && keys@ == joined(parts_view(parts@)),
            None => joined(parts_view(parts@)).len() == 0,
        },
{
    let ghost all = parts_view(parts@);
    let mut keys: Vec<CsvDefinitionKey> = Vec::new();
    let mut i: usize = 0;
    while i < parts.len()
        invariant
            i <= parts@.len(),
            all == parts_view(parts@),
            keys@ == joined(all.take(i as int)),
        decreases parts@.len() - i,
    {
        let part = &parts[i];
        let ghost before = keys@;
        let mut j: usize = 0;
        while j < part.len()
            invariant
                j <= part@.len(),
                keys@ == before + part@.take(j as int),
            decreases part@.len() - j,
        {
            keys.push(part[j]);
            proof {
                assert(part@.take(j + 1) == part@.take(j as int).push(part@[j as int]));
            }
            j += 1;
        }
        proof {
            assert(part@.take(j as int) == part@);
            assert(all.take(i + 1).drop_last() == all.take(i as int));
            assert(all.take(i + 1).last() == part@);
        }
        i += 1;
    }
    proof {
        assert(all.take(i as int) == all);
    }
    if keys.is_empty() {
        None
    } else {
        Some(keys)
    }
}

/// A list of expenses, by what they hold.
pub open spec fn expenses_view(expenses: Seq<Expense>) -> Seq<ExpenseView> {
    Seq::new(expenses.len(), |i: int| expenses[i]@)
}

/// What the outcome of a file, or of a chunk of its rows, holds.
pub open spec fn outcome_view(r: Result<Vec<Expense>, ParseFileError>) -> Result<
    Seq<ExpenseView>,
    ParseFileErrorView,
> {
    match r {
        Ok(expenses) => Ok(expenses_view(expenses@)),
        Err(e) => Err(e@),
    }
}

/// The outcomes of chunks, by what they hold.
pub open spec fn outcomes_view(parts: Seq<Result<Vec<Expense>, ParseFileError>>) -> Seq<
    Result<Seq<ExpenseView>, ParseFileErrorView>,
> {
    Seq::new(parts.len(), |i: int| outcome_view(parts[i]))
}

/// Two outcomes in a row: the first error, or the expenses of both.
pub open spec fn combined(
    first: Result<Seq<ExpenseView>, ParseFileErrorView>,
    second: Result<Seq<ExpenseView>, ParseFileErrorView>,
) -> Result<Seq<ExpenseView>, ParseFileErrorView> {
    match first {
        Err(e) => Err(e),
        Ok(expenses) => {
            match second {
                Err(e) => Err(e),
                Ok(more) => Ok(expenses + more),
            }
        },
    }
}

/// The outcomes of chunks put together: the error of the first chunk that
/// failed, or the expenses of all chunks in the order of the chunks.
pub open spec fn merged(parts: Seq<Result<Seq<ExpenseView>, ParseFileErrorView>>) -> Result<
    Seq<ExpenseView>,
    ParseFileErrorView,
>
    decreases parts.len(),
{
    if parts.len() == 0 {
        Ok(Seq::empty())
    } else {
        combined(parts.first(), merged(parts.drop_first()))
    }
}

/// Puts the outcomes of chunks together: the error of the first chunk that
/// failed, or the expenses of all chunks in the order of the chunks.
pub fn merge_expenses(parts: Vec<Result<Vec<Expense>, ParseFileError>>) -> (r: Result<
    Vec<Expense>,
    ParseFileError,
>)
    ensures
        outcome_view(r) == merged(outcomes_view(parts@)),
{
    let ghost all = outcomes_view(parts@);
    let mut parts = parts;
    let mut rest: Result<Vec<Expense>, ParseFileError> = Ok(Vec::new());
    assert(expenses_view(rest->Ok_0@) =~= Seq::empty());
    assert(all.subrange(all.len() as int, all.len() as int) =~= Seq::empty());
    while parts.len() > 0
        invariant
            parts@.len() <= all.len(),
            outcomes_view(parts@) == all.take(parts@.len() as int),
            outcome_view(rest) == merged(all.subrange(parts@.len() as int, all.len() as int)),
        decreases parts@.len(),
    {
        let ghost n = parts@.len() as int;
        let ghost before = parts@;
        let part = parts.pop().unwrap();
        proof {
            assert(outcome_view(part) == all[n - 1]) by {
                assert(outcomes_view(before)[n - 1] == outcome_view(before[n - 1]));
            }
            assert(outcomes_view(parts@) =~= all.take(n - 1));
            assert(all.subrange(n - 1, all.len() as int).drop_first() =~= all.subrange(
                n,
                all.len() as int,
            ));
            assert(all.subrange(n - 1, all.len() as int).first() == all[n - 1]);
        }
        rest = match part {
            Err(e) => Err(e),
            Ok(expenses) => {
                match rest {
                    Err(e) => Err(e),
                    Ok(more) => {
                        let mut expenses = expenses;
                        let mut more = more;
                        let ghost head = expenses_view(expenses@);
                        let ghost tail = expenses_view(more@);
                        expenses.append(&mut more);
                        assert(expenses_view(expenses@) =~= head + tail);
                        Ok(expenses)
                    },
                }
            },
        };
    }
    proof {
        assert(all.subrange(0, all.len() as int) == all);
    }
    rest
}

} // verus!
