//! The columns of a layout: what each is for, where it stands in a row and
//! how its text is read.

use vstd::prelude::*;

verus! {

/// A number column whose sign is kept.
pub const STANDARD: bool = true;

/// A number column whose sign is flipped.
pub const INVERSED: bool = false;

/// What a column is for.
#[derive(Debug, Hash, Eq, PartialEq, Clone, Copy, Structural)]
pub enum CsvColumnRole {
    Date,
    Description,
    Amount,
    /// A label to file the expense under.
    Tag,
    /// The sign of the currency that the row's amount is in.
    Currency,
    /// The amount of a credit, in a column of its own.
    CreditAmount,
    /// A word that says whether the row is a credit or a debit.
    CreditDebit,
}

/// How the text of a column is read.
#[derive(Debug, Eq, PartialEq, Clone, Copy)]
pub enum CsvColumnDataType {
    /// A number; `true` keeps its sign, `false` flips it.
    Float(&'static bool),
    String,
    /// A date written after the given pattern.
    DateObject(&'static str),
}

/// How the text of a column is read.
pub enum DataType {
    Float { standard: bool },
    Text,
    Date { format: Seq<char> },
}

impl View for CsvColumnDataType {
    type V = DataType;

    open spec fn view(&self) -> DataType {
        match self {
            CsvColumnDataType::Float(standard) => DataType::Float { standard: **standard },
            CsvColumnDataType::String => DataType::Text,
            CsvColumnDataType::DateObject(format) => DataType::Date { format: format@ },
        }
    }
}

impl CsvColumnDataType {
    /// Whether a number column keeps the sign; `None` for other columns.
    pub fn is_standard(&self) -> (r: Option<&bool>)
        ensures
            match self@ {
                DataType::Float { standard } => r == Some(&standard),
                _ => r.is_none(),
            },
    {
        if let CsvColumnDataType::Float(b) = self {
            Some(*b)
        } else {
            None
        }
    }

    /// The pattern of a date column; `None` for other columns.
    pub fn get_format_from_date(&self) -> (r: Option<&'static str>)
        ensures
            match self@ {
                DataType::Date { format } => r.is_some() && r.unwrap()@ == format,
                _ => r.is_none(),
            },
    {
        if let CsvColumnDataType::DateObject(s) = self {
            Some(*s)
        } else {
            None
        }
    }
}

#[derive(Debug, PartialEq, Eq, Clone, Copy, Hash, Structural)]
pub enum Currency {
    Dollar,
    Shekel,
}

/// The value of an argument of a column.
#[derive(Debug, PartialEq, Eq, Clone, Hash)]
pub enum ArgValue {
    String(String),
    Currency(Currency),
    Bool(bool),
}

/// The value of an argument of a column.
pub enum ArgValueView {
    String(Seq<char>),
    Currency(Currency),
    Bool(bool),
}

impl View for ArgValue {
    type V = ArgValueView;

    open spec fn view(&self) -> ArgValueView {
        match self {
            ArgValue::String(s) => ArgValueView::String(s@),
            ArgValue::Currency(c) => ArgValueView::Currency(*c),
            ArgValue::Bool(b) => ArgValueView::Bool(*b),
        }
    }
}

/// The arguments that a column can carry.
#[derive(Hash, Eq, PartialEq, Debug, Clone, Copy, Structural)]
pub enum Arg {
    /// The currency of the amounts in the column.
    AmountDefaultCurrency,
    /// The word that marks a row as a credit.
    CreditDebitQuery,
}

/// The map that a list of entries stands for: each key with the value of the
/// last entry under it.
pub open spec fn assoc<K, V: View>(entries: Seq<(K, V)>) -> Map<K, V::V>
    decreases entries.len(),
{
    if entries.len() == 0 {
        Map::empty()
    } else {
        assoc(entries.drop_last()).insert(entries.last().0, entries.last().1@)
    }
}

/// Entries under other keys do not change what a key stands for.
pub proof fn assoc_skips_other_keys<K, V: View>(entries: Seq<(K, V)>, from: int, key: K)
    requires
        0 <= from <= entries.len(),
        forall|j: int| from <= j < entries.len() ==> entries[j].0 != key,
    ensures
        assoc(entries).contains_key(key) == assoc(entries.take(from)).contains_key(key),
        assoc(entries).contains_key(key) ==> assoc(entries)[key] == assoc(entries.take(from))[key],
    decreases entries.len() - from,
{
    if from < entries.len() {
        assoc_skips_other_keys(entries.drop_last(), from, key);
        assert(entries.drop_last().take(from) == entries.take(from));
    } else {
        assert(entries.take(from) == entries);
    }
}

/// A key stands for the value of the last entry under it.
pub proof fn assoc_finds_last<K, V: View>(entries: Seq<(K, V)>, at: int, key: K)
    requires
        0 <= at < entries.len(),
        entries[at].0 == key,
        forall|j: int| at < j < entries.len() ==> entries[j].0 != key,
    ensures
        assoc(entries).contains_key(key),
        assoc(entries)[key] == entries[at].1@,
{
    assoc_skips_other_keys(entries, at + 1, key);
    assert(entries.take(at + 1).drop_last() == entries.take(at));
    assert(entries.take(at + 1).last() == entries[at]);
}

/// One column of a layout.
pub struct ColumnSpec {
    /// Where the column stands in a row, counted from zero.
    pub position: nat,
    pub data_type: DataType,
    /// A required column must be there and hold text.
    pub required: bool,
    pub args: Map<Arg, ArgValueView>,
}

/// One column of a layout.
#[derive(Debug, Clone)]
pub struct CsvColumnInfo {
    index: u8,
    data_type: CsvColumnDataType,
    is_required: bool,
    args_to_check: Vec<(Arg, ArgValue)>,
}

impl View for CsvColumnInfo {
    type V = ColumnSpec;

    closed spec fn view(&self) -> ColumnSpec {
        ColumnSpec {
            position: self.index as nat,
            data_type: self.data_type@,
            required: self.is_required,
            args: assoc(self.args_to_check@),
        }
    }
}

impl CsvColumnInfo {
    /// The column with one more argument; an earlier value of that argument
    /// is replaced.
    pub fn look_for_argument(self, arg: Arg, arg_value: ArgValue) -> (r: CsvColumnInfo)
        ensures
            r@ == (ColumnSpec { args: self@.args.insert(arg, arg_value@), ..self@ }),
    {
        let mut info = self;
        let ghost before = info.args_to_check@;
        info.args_to_check.push((arg, arg_value));
        assert(info.args_to_check@.drop_last() == before);
        info
    }

    /// A column that may be missing or empty.
    pub fn optional_content(index: u8, data_type: CsvColumnDataType) -> (r: CsvColumnInfo)
        ensures
            r@ == (ColumnSpec {
                position: index as nat,
                data_type: data_type@,
                required: false,
                args: Map::empty(),
            }),
    {
        CsvColumnInfo { index, data_type, is_required: false, args_to_check: Vec::new() }
    }

    /// A column that every row must fill.
    pub fn required_content(index: u8, data_type: CsvColumnDataType) -> (r: CsvColumnInfo)
        ensures
            r@ == (ColumnSpec {
                position: index as nat,
                data_type: data_type@,
                required: true,
                args: Map::empty(),
            }),
    {
        CsvColumnInfo { index, data_type, is_required: true, args_to_check: Vec::new() }
    }

    /// Where the column stands in a row.
    pub fn get_index(&self) -> (r: u8)
        ensures
            r == self@.position,
    {
        self.index
    }

    pub fn get_data_type(&self) -> (r: CsvColumnDataType)
        ensures
            r@ == self@.data_type,
    {
        self.data_type
    }

    pub fn is_required(&self) -> (r: bool)
        ensures
            r == self@.required,
    {
        self.is_required
    }

    /// The value of an argument, if the column carries it.
    pub fn get_argument(&self, arg: Arg) -> (r: Option<&ArgValue>)
        ensures
            match r {
                Some(value) => self@.args.contains_key(arg) && self@.args[arg] == value@,
                None => !self@.args.contains_key(arg),
            },
    {
        let mut i: usize = self.args_to_check.len();
        while i > 0
            invariant
                i <= self.args_to_check@.len(),
                forall|j: int| i <= j < self.args_to_check@.len() ==> self.args_to_check@[j].0 != arg,
            decreases i,
        {
            i -= 1;
            if self.args_to_check[i].0 == arg {
                proof {
                    assoc_finds_last(self.args_to_check@, i as int, arg);
                }
                return Some(&self.args_to_check[i].1);
            }
        }
        proof {
            assoc_skips_other_keys(self.args_to_check@, 0, arg);
        }
        None
    }
}

} // verus!
