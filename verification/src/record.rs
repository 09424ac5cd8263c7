//! Rows of a delimited-text file, as the caller read them.

use vstd::prelude::*;

verus! {

/// One cell of a row: its text as it stands in the file, and the binary64
/// number that the caller read out of the text once its whitespace was
/// collapsed, by that number's bit pattern; `None` where the text is no number.
pub struct CsvCell {
    pub text: String,
    pub number: Option<u64>,
}

/// What a cell holds.
pub struct CellView {
    pub text: Seq<char>,
    pub number: Option<u64>,
}

impl View for CsvCell {
    type V = CellView;

    open spec fn view(&self) -> CellView {
        CellView { text: self.text@, number: self.number }
    }
}

impl CsvCell {
    pub fn new(text: String, number: Option<u64>) -> (r: CsvCell)
        ensures
            r@ == (CellView { text: text@, number }),
    {
        CsvCell { text, number }
    }
}

/// One row: its cells in order, counted from zero.
pub struct CsvRecord {
    pub cells: Vec<CsvCell>,
}

impl View for CsvRecord {
    type V = Seq<CellView>;

    open spec fn view(&self) -> Seq<CellView> {
        Seq::new(self.cells@.len(), |i: int| self.cells@[i]@)
    }
}

impl CsvRecord {
    pub fn new(cells: Vec<CsvCell>) -> (r: CsvRecord)
        ensures
            r.cells == cells,
    {
        CsvRecord { cells }
    }

    /// The number of cells.
    pub fn len(&self) -> (r: usize)
        ensures
            r == self@.len(),
    {
        self.cells.len()
    }

    /// The text of the cell at `index`, if the row is that long.
    pub fn get(&self, index: usize) -> (r: Option<&str>)
        ensures
            index < self@.len() ==> r.is_some() && r.unwrap()@ == self@[index as int].text,
            index >= self@.len() ==> r.is_none(),
    {
        if index < self.cells.len() {
            Some(self.cells[index].text.as_str())
        } else {
            None
        }
    }

    /// The number read out of the cell at `index`, if there is such a cell and
    /// its text is a number.
    pub fn number(&self, index: usize) -> (r: Option<u64>)
        ensures
            r == number_at(self@, index as int),
    {
        if index < self.cells.len() {
            self.cells[index].number
        } else {
            None
        }
    }
}

/// The number read out of the cell at `index`; `None` where the row has no
/// such cell or the cell's text is no number.
pub open spec fn number_at(record: Seq<CellView>, index: int) -> Option<u64> {
    if 0 <= index < record.len() {
        record[index].number
    } else {
        None
    }
}

} // verus!
