//! The layouts that the library knows, each under its key.

use crate::definition::column::Arg;
use crate::definition::column::ArgValue;
use crate::definition::column::ArgValueView;
use crate::definition::column::ColumnSpec;
use crate::definition::column::CsvColumnDataType;
use crate::definition::column::CsvColumnInfo;
use crate::definition::column::CsvColumnRole;
use crate::definition::column::DataType;
use crate::definition::column::INVERSED;
use crate::definition::column::STANDARD;
use crate::definition::csv_definition::CsvDefinition;
use crate::definition::csv_definition::DefinitionView;
use vstd::prelude::*;

verus! {

/// The statements that the library knows.
#[derive(Hash, Eq, PartialEq, Debug, Clone, Copy, Structural)]
pub enum CsvDefinitionKey {
    WellsFargo,
    CapitalOne,
    Amex,
    ExpenseTrackerV1,
    CapitalOneSavorOne,
    BankLeumi,
    Max,
}

/// A required column without arguments.
pub open spec fn required(position: nat, data_type: DataType) -> ColumnSpec {
    ColumnSpec { position, data_type, required: true, args: Map::empty() }
}

/// An optional column without arguments.
pub open spec fn optional(position: nat, data_type: DataType) -> ColumnSpec {
    ColumnSpec { position, data_type, required: false, args: Map::empty() }
}

/// A date column under the given pattern.
pub open spec fn date(format: Seq<char>) -> DataType {
    DataType::Date { format }
}

/// A number column that keeps the sign.
pub open spec fn standard() -> DataType {
    DataType::Float { standard: true }
}

/// A number column that flips the sign.
pub open spec fn inversed() -> DataType {
    DataType::Float { standard: false }
}

/// The library's own export: tag, date, description, amount.
pub open spec fn expense_tracker_v1_layout() -> DefinitionView {
    DefinitionView {
        name: "Expense Tracker V1 Migration Report"@,
        has_headers: true,
        primary: seq![
            (CsvColumnRole::Tag, optional(0, DataType::Text)),
            (CsvColumnRole::Date, required(1, date("%m/%d/%Y"@))),
            (CsvColumnRole::Description, required(2, DataType::Text)),
            (CsvColumnRole::Amount, required(3, standard())),
        ],
        auxiliary: Map::empty(),
    }
}

/// Wells Fargo: no titles, amounts with the sign of the account.
pub open spec fn wells_fargo_layout() -> DefinitionView {
    DefinitionView {
        name: "Wells Fargo Spending Report"@,
        has_headers: false,
        primary: seq![
            (CsvColumnRole::Date, required(0, date("%m/%d/%Y"@))),
            (CsvColumnRole::Amount, required(1, inversed())),
            (CsvColumnRole::Description, required(4, DataType::Text)),
        ],
        auxiliary: Map::empty(),
    }
}

/// American Express.
pub open spec fn amex_layout() -> DefinitionView {
    DefinitionView {
        name: "American Express Credit Spending Report"@,
        has_headers: true,
        primary: seq![
            (CsvColumnRole::Date, required(0, date("%m/%d/%Y"@))),
            (CsvColumnRole::Description, required(1, DataType::Text)),
            (CsvColumnRole::Amount, required(2, standard())),
        ],
        auxiliary: Map::empty(),
    }
}

/// Capital One: a column of its own says `Credit` on a credit.
pub open spec fn capital_one_layout() -> DefinitionView {
    DefinitionView {
        name: "Capital One Spending Report"@,
        has_headers: true,
        primary: seq![
            (CsvColumnRole::Description, required(1, DataType::Text)),
            (CsvColumnRole::Date, required(2, date("%m/%d/%Y"@))),
            (CsvColumnRole::Amount, required(4, standard())),
        ],
        auxiliary: Map::empty().insert(
            CsvColumnRole::CreditDebit,
            ColumnSpec {
                position: 3,
                data_type: DataType::Text,
                required: true,
                args: Map::empty().insert(
                    Arg::CreditDebitQuery,
                    ArgValueView::String("Credit"@),
                ),
            },
        ),
    }
}

/// Capital One Savor One: debits and credits in two columns.
pub open spec fn capital_one_savor_one_layout() -> DefinitionView {
    DefinitionView {
        name: "Capital One Savor One Spending Report"@,
        has_headers: true,
        primary: seq![
            (CsvColumnRole::Date, required(0, date("%Y-%m-%d"@))),
            (CsvColumnRole::Description, required(3, DataType::Text)),
            (CsvColumnRole::Amount, optional(5, standard())),
        ],
        auxiliary: Map::empty().insert(CsvColumnRole::CreditAmount, optional(6, inversed())),
    }
}

/// Bank Leumi: debits and credits in two columns.
pub open spec fn bank_leumi_layout() -> DefinitionView {
    DefinitionView {
        name: "Bank Leumi Spending Report"@,
        has_headers: true,
        primary: seq![
            (CsvColumnRole::Date, required(0, date("%d/%m/%y"@))),
            (CsvColumnRole::Description, required(1, DataType::Text)),
            (CsvColumnRole::Amount, optional(3, standard())),
        ],
        auxiliary: Map::empty().insert(CsvColumnRole::CreditAmount, optional(4, inversed())),
    }
}

/// Max: a currency column, and a second amount for rows in dollars.
pub open spec fn max_layout() -> DefinitionView {
    DefinitionView {
        name: "Max Spending Report"@,
        has_headers: true,
        primary: seq![
            (CsvColumnRole::Date, required(0, date("%d-%m-%Y"@))),
            (CsvColumnRole::Description, required(1, DataType::Text)),
            (CsvColumnRole::Amount, required(5, standard())),
            (CsvColumnRole::Currency, optional(8, DataType::Text)),
        ],
        auxiliary: Map::empty().insert(CsvColumnRole::Amount, required(7, standard())),
    }
}

/// Every layout that the library knows, under its key.
pub open spec fn registry() -> Seq<(CsvDefinitionKey, DefinitionView)> {
    seq![
        (CsvDefinitionKey::ExpenseTrackerV1, expense_tracker_v1_layout()),
        (CsvDefinitionKey::WellsFargo, wells_fargo_layout()),
        (CsvDefinitionKey::Amex, amex_layout()),
        (CsvDefinitionKey::CapitalOne, capital_one_layout()),
        (CsvDefinitionKey::CapitalOneSavorOne, capital_one_savor_one_layout()),
        (CsvDefinitionKey::BankLeumi, bank_leumi_layout()),
        (CsvDefinitionKey::Max, max_layout()),
    ]
}

/// A list of layouts with their keys, by what they hold.
pub open spec fn definitions_view(definitions: Seq<(CsvDefinitionKey, CsvDefinition)>) -> Seq<
    (CsvDefinitionKey, DefinitionView),
> {
    Seq::new(definitions.len(), |i: int| (definitions[i].0, definitions[i].1@))
}

fn expense_tracker_v1_definition() -> (r: CsvDefinition)
    ensures
        r@ == expense_tracker_v1_layout(),
{
    let r = CsvDefinition::new(
        "Expense Tracker V1 Migration Report",
        true,
        vec![
            (
                CsvColumnRole::Tag,
                CsvColumnInfo::optional_content(0, CsvColumnDataType::String),
            ),
            (
                CsvColumnRole::Date,
                CsvColumnInfo::required_content(1, CsvColumnDataType::DateObject("%m/%d/%Y")),
            ),
            (
                CsvColumnRole::Description,
                CsvColumnInfo::required_content(2, CsvColumnDataType::String),
            ),
            (
                CsvColumnRole::Amount,
                CsvColumnInfo::required_content(3, CsvColumnDataType::Float(&STANDARD)),
            ),
        ],
    );
    assert(r@.primary =~= expense_tracker_v1_layout().primary);
    r
}

fn wells_fargo_definition() -> (r: CsvDefinition)
    ensures
        r@ == wells_fargo_layout(),
{
    let r = CsvDefinition::new(
        "Wells Fargo Spending Report",
        false,
        vec![
            (
                CsvColumnRole::Date,
                CsvColumnInfo::required_content(0, CsvColumnDataType::DateObject("%m/%d/%Y")),
            ),
            (
                CsvColumnRole::Amount,
                CsvColumnInfo::required_content(1, CsvColumnDataType::Float(&INVERSED)),
            ),
            (
                CsvColumnRole::Description,
                CsvColumnInfo::required_content(4, CsvColumnDataType::String),
            ),
        ],
    );
    assert(r@.primary =~= wells_fargo_layout().primary);
    r
}

fn amex_definition() -> (r: CsvDefinition)
    ensures
        r@ == amex_layout(),
{
    let r = CsvDefinition::new(
        "American Express Credit Spending Report",
        true,
        vec![
            (
                CsvColumnRole::Date,
                CsvColumnInfo::required_content(0, CsvColumnDataType::DateObject("%m/%d/%Y")),
            ),
            (
                CsvColumnRole::Description,
                CsvColumnInfo::required_content(1, CsvColumnDataType::String),
            ),
            (
                CsvColumnRole::Amount,
                CsvColumnInfo::required_content(2, CsvColumnDataType::Float(&STANDARD)),
            ),
        ],
    );
    assert(r@.primary =~= amex_layout().primary);
    r
}

fn capital_one_definition() -> (r: CsvDefinition)
    ensures
        r@ == capital_one_layout(),
{
    let r = CsvDefinition::new(
        "Capital One Spending Report",
        true,
        vec![
            (
                CsvColumnRole::Description,
                CsvColumnInfo::required_content(1, CsvColumnDataType::String),
            ),
            (
                CsvColumnRole::Date,
                CsvColumnInfo::required_content(2, CsvColumnDataType::DateObject("%m/%d/%Y")),
            ),
            (
                CsvColumnRole::Amount,
                CsvColumnInfo::required_content(4, CsvColumnDataType::Float(&STANDARD)),
            ),
        ],
    ).add_meta_data_column(
        CsvColumnRole::CreditDebit,
        CsvColumnInfo::required_content(3, CsvColumnDataType::String).look_for_argument(
            Arg::CreditDebitQuery,
            ArgValue::String(String::from_str("Credit")),
        ),
    );
    assert(r@.primary =~= capital_one_layout().primary);
    r
}

fn capital_one_savor_one_definition() -> (r: CsvDefinition)
    ensures
        r@ == capital_one_savor_one_layout(),
{
    let r = CsvDefinition::new(
        "Capital One Savor One Spending Report",
        true,
        vec![
            (
                CsvColumnRole::Date,
                CsvColumnInfo::required_content(0, CsvColumnDataType::DateObject("%Y-%m-%d")),
            ),
            (
                CsvColumnRole::Description,
                CsvColumnInfo::required_content(3, CsvColumnDataType::String),
            ),
            (
                CsvColumnRole::Amount,
                CsvColumnInfo::optional_content(5, CsvColumnDataType::Float(&STANDARD)),
            ),
        ],
    ).add_meta_data_column(
        CsvColumnRole::CreditAmount,
        CsvColumnInfo::optional_content(6, CsvColumnDataType::Float(&INVERSED)),
    );
    assert(r@.primary =~= capital_one_savor_one_layout().primary);
    r
}

fn bank_leumi_definition() -> (r: CsvDefinition)
    ensures
        r@ == bank_leumi_layout(),
{
    let r = CsvDefinition::new(
        "Bank Leumi Spending Report",
        true,
        vec![
            (
                CsvColumnRole::Date,
                CsvColumnInfo::required_content(0, CsvColumnDataType::DateObject("%d/%m/%y")),
            ),
            (
                CsvColumnRole::Description,
                CsvColumnInfo::required_content(1, CsvColumnDataType::String),
            ),
            (
                CsvColumnRole::Amount,
                CsvColumnInfo::optional_content(3, CsvColumnDataType::Float(&STANDARD)),
            ),
        ],
    ).add_meta_data_column(
        CsvColumnRole::CreditAmount,
        CsvColumnInfo::optional_content(4, CsvColumnDataType::Float(&INVERSED)),
    );
    assert(r@.primary =~= bank_leumi_layout().primary);
    r
}

fn max_definition() -> (r: CsvDefinition)
    ensures
        r@ == max_layout(),
{
    let r = CsvDefinition::new(
        "Max Spending Report",
        true,
        vec![
            (
                CsvColumnRole::Date,
                CsvColumnInfo::required_content(0, CsvColumnDataType::DateObject("%d-%m-%Y")),
            ),
            (
                CsvColumnRole::Description,
                CsvColumnInfo::required_content(1, CsvColumnDataType::String),
            ),
            (
                CsvColumnRole::Amount,
                CsvColumnInfo::required_content(5, CsvColumnDataType::Float(&STANDARD)),
            ),
            (
                CsvColumnRole::Currency,
                CsvColumnInfo::optional_content(8, CsvColumnDataType::String),
            ),
        ],
    ).add_meta_data_column(
        CsvColumnRole::Amount,
        CsvColumnInfo::required_content(7, CsvColumnDataType::Float(&STANDARD)),
    );
    assert(r@.primary =~= max_layout().primary);
    r
}

/// Builds the layouts that the library knows, each under its key.
pub fn build_definitions() -> (r: Vec<(CsvDefinitionKey, CsvDefinition)>)
    ensures
        definitions_view(r@) == registry(),
{
    let r = vec![
        (CsvDefinitionKey::ExpenseTrackerV1, expense_tracker_v1_definition()),
        (CsvDefinitionKey::WellsFargo, wells_fargo_definition()),
        (CsvDefinitionKey::Amex, amex_definition()),
        (CsvDefinitionKey::CapitalOne, capital_one_definition()),
        (CsvDefinitionKey::CapitalOneSavorOne, capital_one_savor_one_definition()),
        (CsvDefinitionKey::BankLeumi, bank_leumi_definition()),
        (CsvDefinitionKey::Max, max_definition()),
    ];
    assert(definitions_view(r@) =~= registry());
    r
}

} // verus!
