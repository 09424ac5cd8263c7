//! Statement layouts: checking a row against a layout, and turning a row that
//! follows a layout into an expense.

use crate::definition::cast::cast;
use crate::definition::cast::cast_as;
use crate::definition::cast::fetch;
use crate::definition::cast::fetched;
use crate::definition::cast::ParsedValue;
use crate::definition::cast::ParsedValueView;
use crate::definition::column::assoc;
use crate::definition::column::assoc_finds_last;
use crate::definition::column::assoc_skips_other_keys;
use crate::definition::column::Arg;
use crate::definition::column::ArgValue;
use crate::definition::column::ArgValueView;
use crate::definition::column::ColumnSpec;
use crate::definition::column::CsvColumnDataType;
use crate::definition::column::CsvColumnInfo;
use crate::definition::column::CsvColumnRole;
use crate::definition::error::ParseError;
use crate::model::expense::with_tag;
use crate::model::expense::Expense;
use crate::model::expense::ExpenseView;
use crate::number::Amount;
use crate::record::number_at;
use crate::record::CellView;
use crate::record::CsvRecord;
use crate::text::normalize;
use crate::text::normalized;
use vstd::prelude::*;

verus! {

/// The layout of one kind of statement.
pub struct DefinitionView {
    pub name: Seq<char>,
    /// The first row of a file holds the columns' titles.
    pub has_headers: bool,
    /// The columns that fill the expense, in the order in which they are
    /// handled.
    pub primary: Seq<(CsvColumnRole, ColumnSpec)>,
    /// The columns that are only looked at while a primary column is handled.
    pub auxiliary: Map<CsvColumnRole, ColumnSpec>,
}

/// The layout of one kind of statement.
#[derive(Debug, Clone)]
pub struct CsvDefinition {
    name: &'static str,
    has_headers: bool,
    expected_columns: Vec<(CsvColumnRole, CsvColumnInfo)>,
    meta_data_columns: Vec<(CsvColumnRole, CsvColumnInfo)>,
}

/// A list of columns with their roles, by what they hold.
pub open spec fn columns_view(columns: Seq<(CsvColumnRole, CsvColumnInfo)>) -> Seq<
    (CsvColumnRole, ColumnSpec),
> {
    Seq::new(columns.len(), |i: int| (columns[i].0, columns[i].1@))
}

impl View for CsvDefinition {
    type V = DefinitionView;

    closed spec fn view(&self) -> DefinitionView {
        DefinitionView {
            name: self.name@,
            has_headers: self.has_headers,
            primary: columns_view(self.expected_columns@),
            auxiliary: assoc(self.meta_data_columns@),
        }
    }
}

/// The column that the list names last under `role`.
pub fn find_column(columns: &Vec<(CsvColumnRole, CsvColumnInfo)>, role: CsvColumnRole) -> (r:
    Option<&CsvColumnInfo>)
    ensures
        match r {
            Some(info) => assoc(columns@).contains_key(role) && assoc(columns@)[role] == info@,
            None => !assoc(columns@).contains_key(role),
        },
{
    let mut i: usize = columns.len();
    while i > 0
        invariant
            i <= columns@.len(),
            forall|j: int| i <= j < columns@.len() ==> columns@[j].0 != role,
        decreases i,
    {
        i -= 1;
        if columns[i].0 == role {
            proof {
                assoc_finds_last(columns@, i as int, role);
            }
            return Some(&columns[i].1);
        }
    }
    proof {
        assoc_skips_other_keys(columns@, 0, role);
    }
    None
}

/// Whether a row fills a column as the column asks.
///
/// A cell that is missing or empty passes for an optional column only; any
/// other cell passes where its text can be cast to the column's data type.
pub open spec fn column_passes(record: Seq<CellView>, column: ColumnSpec) -> bool {
    if column.position < record.len() {
        let value = normalized(record[column.position as int].text);
        if value.len() == 0 {
            !column.required
        } else {
            cast(
                value,
                record[column.position as int].number,
                column.data_type,
                column.required,
            ).is_ok()
        }
    } else {
        !column.required
    }
}

/// Whether a row follows a layout: it fills every primary column and every
/// required auxiliary column as the column asks.
pub open spec fn validates(record: Seq<CellView>, definition: DefinitionView) -> bool {
    &&& forall|i: int|
        0 <= i < definition.primary.len() ==> column_passes(
            record,
            (#[trigger] definition.primary[i]).1,
        )
    &&& forall|role: CsvColumnRole|
        definition.auxiliary.contains_key(role) && definition.auxiliary[role].required
            ==> column_passes(record, #[trigger] definition.auxiliary[role])
}

/// Checks one column against a row.
fn check_column(record: &CsvRecord, info: &CsvColumnInfo) -> (r: bool)
    ensures
        r == column_passes(record@, info@),
{
    let index = info.get_index() as usize;
    match record.get(index) {
        None => !info.is_required(),
        Some(text) => {
            let value = normalize(text);
            if value.as_str().is_empty() {
                !info.is_required()
            } else {
                cast_as(
                    value.as_str(),
                    record.number(index),
                    info.get_data_type(),
                    info.is_required(),
                ).is_ok()
            }
        },
    }
}

/// The amount that the credit column of a row gives: the column is read as a
/// required one, and gives an amount where its cell is filled and holds a
/// number.
pub open spec fn credit_amount(record: Seq<CellView>, credit: ColumnSpec) -> Option<Amount> {
    let forced = ColumnSpec { required: true, ..credit };
    match fetched(CsvColumnRole::CreditAmount, record, forced) {
        Ok(Some(value)) => {
            match cast(value, number_at(record, forced.position as int), forced.data_type, true) {
                Ok(ParsedValueView::Float(amount)) => Some(amount),
                _ => None,
            }
        },
        _ => None,
    }
}

/// Whether the text of an indicator cell marks its row as a credit: the
/// indicator column holds text and carries the query word, and the cell's
/// text is that word.
pub open spec fn marks_credit(indicator: Seq<char>, column: ColumnSpec) -> bool {
    &&& column.data_type is Text
    &&& column.args.contains_key(Arg::CreditDebitQuery)
    &&& column.args[Arg::CreditDebitQuery] == ArgValueView::String(indicator)
}

/// An amount that is no NaN, or the error that says it is one.
pub open spec fn checked_amount(total: Amount) -> Result<Amount, ParseError> {
    if total.nan() {
        Err(ParseError::NanAmount)
    } else {
        Ok(total)
    }
}

/// The amount of a row, from the amount read out of the primary amount column.
///
/// - Where that column is optional and the layout has a credit column, the
///   credit column's amount takes its place, if it gives one.
/// - Where that column is required and the layout has a credit/debit
///   indicator, the amount is negated if the indicator marks a credit.
/// - An amount that comes out as a NaN is an error.
pub open spec fn final_amount(
    parsed: Amount,
    record: Seq<CellView>,
    column: ColumnSpec,
    auxiliary: Map<CsvColumnRole, ColumnSpec>,
) -> Result<Amount, ParseError> {
    if !column.required {
        if auxiliary.contains_key(CsvColumnRole::CreditAmount) {
            match credit_amount(record, auxiliary[CsvColumnRole::CreditAmount]) {
                Some(credit) => checked_amount(credit),
                None => checked_amount(parsed),
            }
        } else {
            checked_amount(parsed)
        }
    } else if auxiliary.contains_key(CsvColumnRole::CreditDebit) {
        let indicator = auxiliary[CsvColumnRole::CreditDebit];
        match fetched(CsvColumnRole::CreditDebit, record, indicator) {
            Err(e) => Err(e),
            Ok(None) => checked_amount(parsed),
            Ok(Some(word)) => {
                if marks_credit(word, indicator) {
                    checked_amount(parsed.spec_negated())
                } else {
                    checked_amount(parsed)
                }
            },
        }
    } else {
        checked_amount(parsed)
    }
}

/// The expense after a currency cell is handled.
///
/// Any currency but `"$"` leaves the expense as it is. Under `"$"` the second
/// amount column, an auxiliary column under the role of the amount, gives the
/// amount. Where that column's cell is missing or empty, the amount that the
/// expense has is divided by the conversion divisor instead.
pub open spec fn currency_applied(
    currency: Seq<char>,
    expense: ExpenseView,
    record: Seq<CellView>,
    auxiliary: Map<CsvColumnRole, ColumnSpec>,
) -> Result<ExpenseView, ParseError> {
    if currency != "$"@ {
        Ok(expense)
    } else if !auxiliary.contains_key(CsvColumnRole::Amount) {
        Err(ParseError::NoSecondAmount)
    } else {
        let second = auxiliary[CsvColumnRole::Amount];
        match fetched(CsvColumnRole::Amount, record, second) {
            Err(e) => Err(e),
            Ok(Some(value)) if value.len() > 0 => {
                match cast(
                    value,
                    number_at(record, second.position as int),
                    second.data_type,
                    second.required,
                ) {
                    Ok(ParsedValueView::Float(amount)) => {
                        match checked_amount(amount) {
                            Ok(total) => Ok(ExpenseView { amount: total, ..expense }),
                            Err(e) => Err(e),
                        }
                    },
                    Ok(_) => Ok(expense),
                    Err(e) => {
                        if second.required {
                            Err(ParseError::Cast(CsvColumnRole::Amount, e))
                        } else {
                            Ok(expense)
                        }
                    },
                }
            },
            _ => Ok(ExpenseView { amount: expense.amount.spec_rescaled(), ..expense }),
        }
    }
}

/// The expense after a value cast from a primary column is put into it.
pub open spec fn assigned(
    role: CsvColumnRole,
    parsed: ParsedValueView,
    expense: ExpenseView,
    record: Seq<CellView>,
    column: ColumnSpec,
    auxiliary: Map<CsvColumnRole, ColumnSpec>,
) -> Result<ExpenseView, ParseError> {
    match (role, parsed) {
        (CsvColumnRole::Date, ParsedValueView::Date(date)) => Ok(ExpenseView { date, ..expense }),
        (CsvColumnRole::Description, ParsedValueView::String(description)) => Ok(
            ExpenseView { description, ..expense },
        ),
        (CsvColumnRole::Amount, ParsedValueView::Float(amount)) => {
            match final_amount(amount, record, column, auxiliary) {
                Ok(total) => Ok(ExpenseView { amount: total, ..expense }),
                Err(e) => Err(e),
            }
        },
        (CsvColumnRole::Tag, ParsedValueView::String(tag)) => {
            if tag.len() > 0 {
                Ok(ExpenseView { tags: with_tag(expense.tags, tag), ..expense })
            } else {
                Ok(expense)
            }
        },
        (CsvColumnRole::Currency, ParsedValueView::String(currency)) => currency_applied(
            currency,
            expense,
            record,
            auxiliary,
        ),
        _ => Err(ParseError::Unhandled(role)),
    }
}

/// The expense after one primary column of a row is handled.
///
/// A required column that is missing, empty or not castable is an error. An
/// optional column that is missing or not castable leaves the expense as it
/// is.
pub open spec fn handled(
    role: CsvColumnRole,
    expense: ExpenseView,
    record: Seq<CellView>,
    column: ColumnSpec,
    auxiliary: Map<CsvColumnRole, ColumnSpec>,
) -> Result<ExpenseView, ParseError> {
    match fetched(role, record, column) {
        Err(e) => Err(e),
        Ok(None) => Ok(expense),
        Ok(Some(value)) => {
            match cast(
                value,
                number_at(record, column.position as int),
                column.data_type,
                column.required,
            ) {
                Err(e) => {
                    if column.required {
                        Err(ParseError::Cast(role, e))
                    } else {
                        Ok(expense)
                    }
                },
                Ok(parsed) => assigned(role, parsed, expense, record, column, auxiliary),
            }
        },
    }
}

/// The expense after the primary columns from `start` on are handled, one
/// after the other, up to the first error.
pub open spec fn parsed_from(
    record: Seq<CellView>,
    definition: DefinitionView,
    start: int,
    expense: ExpenseView,
) -> Result<ExpenseView, ParseError>
    decreases definition.primary.len() - start,
{
    if 0 <= start < definition.primary.len() {
        match handled(
            definition.primary[start].0,
            expense,
            record,
            definition.primary[start].1,
            definition.auxiliary,
        ) {
            Err(e) => Err(e),
            Ok(next) => parsed_from(record, definition, start + 1, next),
        }
    } else {
        Ok(expense)
    }
}

/// The expense that a row becomes under a layout: the empty expense after
/// every primary column is handled.
pub open spec fn parsed(record: Seq<CellView>, definition: DefinitionView) -> Result<
    ExpenseView,
    ParseError,
> {
    parsed_from(record, definition, 0, ExpenseView::empty())
}

/// Reads the credit column of a row as a required column.
fn read_credit_amount(record: &CsvRecord, credit: &CsvColumnInfo) -> (r: Option<Amount>)
    ensures
        r == credit_amount(record@, credit@),
{
    let ghost forced = ColumnSpec { required: true, ..credit@ };
    let index = credit.get_index();
    let fetched_text = fetch(CsvColumnRole::CreditAmount, record, index, true);
    assert(crate::definition::cast::fetched_view(fetched_text) == fetched(
        CsvColumnRole::CreditAmount,
        record@,
        forced,
    ));
    match fetched_text {
        Ok(Some(value)) => {
            match cast_as(
                value.as_str(),
                record.number(index as usize),
                credit.get_data_type(),
                true,
            ) {
                Ok(ParsedValue::Float(amount)) => Some(amount),
                _ => None,
            }
        },
        _ => None,
    }
}

/// Whether the text of an indicator cell is the indicator column's query word.
fn is_credit(word: &String, indicator: &CsvColumnInfo) -> (r: bool)
    ensures
        r == marks_credit(word@, indicator@),
{
    match indicator.get_data_type() {
        CsvColumnDataType::String => {
            match indicator.get_argument(Arg::CreditDebitQuery) {
                Some(ArgValue::String(query)) => *query == *word,
                _ => false,
            }
        },
        _ => false,
    }
}

/// Tells a NaN from an amount that can be stored.
fn check_amount(total: Amount) -> (r: Result<Amount, ParseError>)
    ensures
        r == checked_amount(total),
{
    if total.is_nan() {
        Err(ParseError::NanAmount)
    } else {
        Ok(total)
    }
}

/// Works out the amount of a row from the amount read out of the primary
/// amount column.
fn resolve_amount(
    parsed: Amount,
    record: &CsvRecord,
    column: &CsvColumnInfo,
    meta_data_columns: &Vec<(CsvColumnRole, CsvColumnInfo)>,
) -> (r: Result<Amount, ParseError>)
    ensures
        r == final_amount(parsed, record@, column@, assoc(meta_data_columns@)),
{
    if !column.is_required() {
        match find_column(meta_data_columns, CsvColumnRole::CreditAmount) {
            Some(credit) => {
                match read_credit_amount(record, credit) {
                    Some(amount) => check_amount(amount),
                    None => check_amount(parsed),
                }
            },
            None => check_amount(parsed),
        }
    } else {
        match find_column(meta_data_columns, CsvColumnRole::CreditDebit) {
            Some(indicator) => {
                match CsvColumnRole::get_and_normalize(
                    CsvColumnRole::CreditDebit,
                    record,
                    indicator,
                ) {
                    Err(e) => Err(e),
                    Ok(None) => check_amount(parsed),
                    Ok(Some(word)) => {
                        if is_credit(&word, indicator) {
                            check_amount(parsed.negated())
                        } else {
                            check_amount(parsed)
                        }
                    },
                }
            },
            None => check_amount(parsed),
        }
    }
}

/// Handles the currency cell of a row.
fn apply_currency(
    currency: &String,
    expense: &mut Expense,
    record: &CsvRecord,
    meta_data_columns: &Vec<(CsvColumnRole, CsvColumnInfo)>,
) -> (r: Result<(), ParseError>)
    ensures
        match r {
            Ok(()) => currency_applied(
                currency@,
                old(expense)@,
                record@,
                assoc(meta_data_columns@),
            ) == Ok::<ExpenseView, ParseError>(final(expense)@),
            Err(e) => currency_applied(
                currency@,
                old(expense)@,
                record@,
                assoc(meta_data_columns@),
            ) == Err::<ExpenseView, ParseError>(e) && final(expense)@ == old(expense)@,
        },
{
    let dollar = String::from_str("$");
    if !(*currency == dollar) {
        return Ok(());
    }
    let second = match find_column(meta_data_columns, CsvColumnRole::Amount) {
        Some(second) => second,
        None => {
            return Err(ParseError::NoSecondAmount);
        },
    };
    let value = match CsvColumnRole::get_and_normalize(CsvColumnRole::Amount, record, second) {
        Err(e) => {
            return Err(e);
        },
        Ok(None) => String::new(),
        Ok(Some(value)) => value,
    };
    if value.as_str().is_empty() {
        let amount = expense.get_amount().rescaled();
        expense.set_amount(amount);
        return Ok(());
    }
    match cast_as(
        value.as_str(),
        record.number(second.get_index() as usize),
        second.get_data_type(),
        second.is_required(),
    ) {
        Ok(ParsedValue::Float(amount)) => {
            match check_amount(amount) {
                Ok(total) => {
                    expense.set_amount(total);
                    Ok(())
                },
                Err(e) => Err(e),
            }
        },
        Ok(_) => Ok(()),
        Err(e) => {
            if second.is_required() {
                Err(ParseError::Cast(CsvColumnRole::Amount, e))
            } else {
                Ok(())
            }
        },
    }
}

impl CsvColumnRole {
    /// Handles one primary column of a row: fetches its cell, casts the text
    /// and puts what comes out into the expense. On an error the expense is
    /// left as it was.
    pub fn handle_parsed_str(
        self,
        expense: &mut Expense,
        string_record: &CsvRecord,
        current_column_info: &CsvColumnInfo,
        meta_data_columns: &Vec<(CsvColumnRole, CsvColumnInfo)>,
    ) -> (r: Result<(), ParseError>)
        ensures
            match r {
                Ok(()) => handled(
                    self,
                    old(expense)@,
                    string_record@,
                    current_column_info@,
                    assoc(meta_data_columns@),
                ) == Ok::<ExpenseView, ParseError>(final(expense)@),
                Err(e) => handled(
                    self,
                    old(expense)@,
                    string_record@,
                    current_column_info@,
                    assoc(meta_data_columns@),
                ) == Err::<ExpenseView, ParseError>(e) && final(expense)@ == old(expense)@,
            },
            old(expense)@.date.well_formed() ==> final(expense)@.date.well_formed(),
    {
        let value = match CsvColumnRole::get_and_normalize(
            self,
            string_record,
            current_column_info,
        ) {
            Err(e) => {
                return Err(e);
            },
            Ok(None) => {
                return Ok(());
            },
            Ok(Some(value)) => value,
        };
        let parsed = match cast_as(
            value.as_str(),
            string_record.number(current_column_info.get_index() as usize),
            current_column_info.get_data_type(),
            current_column_info.is_required(),
        ) {
            Err(e) => {
                if current_column_info.is_required() {
                    return Err(ParseError::Cast(self, e));
                } else {
                    return Ok(());
                }
            },
            Ok(parsed) => parsed,
        };
        match (self, parsed) {
            (CsvColumnRole::Date, ParsedValue::Date(date)) => {
                expense.set_date(date);
                Ok(())
            },
            (CsvColumnRole::Description, ParsedValue::String(description)) => {
                expense.set_description(description.as_str());
                Ok(())
            },
            (CsvColumnRole::Amount, ParsedValue::Float(amount)) => {
                match resolve_amount(
                    amount,
                    string_record,
                    current_column_info,
                    meta_data_columns,
                ) {
                    Ok(total) => {
                        expense.set_amount(total);
                        Ok(())
                    },
                    Err(e) => Err(e),
                }
            },
            (CsvColumnRole::Tag, ParsedValue::String(tag)) => {
                if !tag.as_str().is_empty() {
                    expense.add_tag(tag.as_str());
                }
                Ok(())
            },
            (CsvColumnRole::Currency, ParsedValue::String(currency)) => apply_currency(
                &currency,
                expense,
                string_record,
                meta_data_columns,
            ),
            _ => Err(ParseError::Unhandled(self)),
        }
    }
}

impl CsvDefinition {
    /// A layout with the given primary columns and no auxiliary column.
    pub fn new(
        name: &'static str,
        has_headers: bool,
        expected_columns: Vec<(CsvColumnRole, CsvColumnInfo)>,
    ) -> (r: CsvDefinition)
        ensures
            r@ == (DefinitionView {
                name: name@,
                has_headers,
                primary: columns_view(expected_columns@),
                auxiliary: Map::empty(),
            }),
    {
        CsvDefinition { name, has_headers, expected_columns, meta_data_columns: Vec::new() }
    }

    /// The layout with one more auxiliary column; an earlier column under the
    /// same role is replaced.
    pub fn add_meta_data_column(self, role: CsvColumnRole, info: CsvColumnInfo) -> (r:
        CsvDefinition)
        ensures
            r@ == (DefinitionView { auxiliary: self@.auxiliary.insert(role, info@), ..self@ }),
    {
        let mut definition = self;
        let ghost before = definition.meta_data_columns@;
        definition.meta_data_columns.push((role, info));
        assert(definition.meta_data_columns@.drop_last() == before);
        definition
    }

    pub fn get_name(&self) -> (r: &str)
        ensures
            r@ == self@.name,
    {
        self.name
    }

    /// Whether the first row of a file under this layout holds titles.
    pub fn has_header(&self) -> (r: bool)
        ensures
            r == self@.has_headers,
    {
        self.has_headers
    }

    /// Checks, for one role, the auxiliary column of that role, if the layout
    /// has one and requires it.
    fn check_meta_column(&self, role: CsvColumnRole, record: &CsvRecord) -> (r: bool)
        ensures
            r == (self@.auxiliary.contains_key(role) && self@.auxiliary[role].required
                ==> column_passes(record@, self@.auxiliary[role])),
    {
        match find_column(&self.meta_data_columns, role) {
            Some(info) => !info.is_required() || check_column(record, info),
            None => true,
        }
    }

    /// Whether a row follows this layout.
    pub fn validate_against_record(&self, record: &CsvRecord) -> (r: bool)
        ensures
            r == validates(record@, self@),
    {
        let mut i: usize = 0;
        while i < self.expected_columns.len()
            invariant
                i <= self.expected_columns@.len(),
                forall|j: int|
                    0 <= j < i ==> column_passes(record@, (#[trigger] self@.primary[j]).1),
            decreases self.expected_columns@.len() - i,
        {
            if !check_column(record, &self.expected_columns[i].1) {
                assert(!column_passes(record@, self@.primary[i as int].1));
                return false;
            }
            i += 1;
        }
        let all = self.check_meta_column(CsvColumnRole::Date, record) && self.check_meta_column(
            CsvColumnRole::Description,
            record,
        ) && self.check_meta_column(CsvColumnRole::Amount, record) && self.check_meta_column(
            CsvColumnRole::Tag,
            record,
        ) && self.check_meta_column(CsvColumnRole::Currency, record) && self.check_meta_column(
            CsvColumnRole::CreditAmount,
            record,
        ) && self.check_meta_column(CsvColumnRole::CreditDebit, record);
        all
    }

    /// Turns a row into an expense, column by column; the first error ends it.
    /// The date of the expense is a day that the calendar has.
    pub fn parse_record(&self, record: &CsvRecord) -> (r: Result<Expense, ParseError>)
        ensures
            match r {
                Ok(expense) => parsed(record@, self@) == Ok::<ExpenseView, ParseError>(expense@),
                Err(e) => parsed(record@, self@) == Err::<ExpenseView, ParseError>(e),
            },
            r matches Ok(expense) ==> expense@.date.well_formed(),
    {
        let mut expense = Expense::default();
        let mut i: usize = 0;
        while i < self.expected_columns.len()
            invariant
                i <= self.expected_columns@.len(),
                expense@.date.well_formed(),
                parsed_from(record@, self@, i as int, expense@) == parsed(record@, self@),
            decreases self.expected_columns@.len() - i,
        {
            match self.expected_columns[i].0.handle_parsed_str(
                &mut expense,
                record,
                &self.expected_columns[i].1,
                &self.meta_data_columns,
            ) {
                Err(e) => {
                    return Err(e);
                },
                Ok(()) => {},
            }
            i += 1;
        }
        Ok(expense)
    }
}

} // verus!
