use statement_import::definition::column::{
    Arg, ArgValue, CsvColumnDataType, CsvColumnInfo, CsvColumnRole, INVERSED, STANDARD,
};
use statement_import::definition::csv_definition::CsvDefinition;
use statement_import::definition::error::ParseError;
use statement_import::model::expense::Expense;
use statement_import::number::SHEKEL_TO_DOLLAR_DIVISION;
use statement_import::record::{CsvCell, CsvRecord};
use statement_import::text::normalize;

fn cells(texts: Vec<&str>) -> CsvRecord {
    CsvRecord::new(
        texts
            .into_iter()
            .map(|text| {
                let number = normalize(text).parse::<f64>().ok().map(|v| v.to_bits());
                CsvCell::new(text.to_string(), number)
            })
            .collect(),
    )
}

fn number(expense: &Expense) -> f64 {
    let amount = expense.get_amount();
    let mut value = f64::from_bits(amount.get_bits());
    for _ in 0..amount.get_divisions() {
        value /= f64::from_bits(SHEKEL_TO_DOLLAR_DIVISION);
    }
    value
}

fn date_description_amount(amount: CsvColumnInfo) -> CsvDefinition {
    CsvDefinition::new(
        "Date, description, amount",
        false,
        vec![
            (
                CsvColumnRole::Date,
                CsvColumnInfo::required_content(0, CsvColumnDataType::DateObject("%Y-%m-%d")),
            ),
            (
                CsvColumnRole::Description,
                CsvColumnInfo::required_content(1, CsvColumnDataType::String),
            ),
            (CsvColumnRole::Amount, amount),
        ],
    )
}

#[test]
fn scenario_three_columns_with_standard_sign() {
    let definition = date_description_amount(CsvColumnInfo::required_content(
        2,
        CsvColumnDataType::Float(&STANDARD),
    ));
    let record = cells(vec!["2023-10-01", "Test Description", "123.45"]);

    assert!(definition.validate_against_record(&record));
    let expense = definition.parse_record(&record).unwrap();
    assert_eq!(expense.get_description(), "Test Description");
    assert_eq!(number(&expense), 123.45);
    let date = expense.get_date();
    assert_eq!((date.year(), date.month(), date.day()), (2023, 10, 1));
    assert_eq!((date.hour(), date.minute(), date.second()), (0, 0, 0));
    assert!(expense.get_tags().is_empty());
    assert_eq!(expense.get_id(), "");
}

#[test]
fn scenario_inverted_sign() {
    let definition = date_description_amount(CsvColumnInfo::required_content(
        2,
        CsvColumnDataType::Float(&INVERSED),
    ));
    let record = cells(vec!["2023-10-01", "Test Description", "123.45"]);

    assert!(definition.validate_against_record(&record));
    let expense = definition.parse_record(&record).unwrap();
    assert_eq!(number(&expense), -123.45);
}

#[test]
fn scenario_missing_required_date() {
    let definition = date_description_amount(CsvColumnInfo::required_content(
        2,
        CsvColumnDataType::Float(&STANDARD),
    ));
    let record = cells(vec!["", "Test Description", "123.45"]);

    assert!(!definition.validate_against_record(&record));
    let error = definition.parse_record(&record).unwrap_err();
    assert_eq!(error, ParseError::EmptyColumn(CsvColumnRole::Date));
    assert!(error.required_field_error());
    assert!(error.to_string().ends_with("required role Date"));
}

#[test]
fn scenario_credit_debit_flip() {
    let definition = date_description_amount(CsvColumnInfo::required_content(
        2,
        CsvColumnDataType::Float(&STANDARD),
    ))
    .add_meta_data_column(
        CsvColumnRole::CreditDebit,
        CsvColumnInfo::required_content(3, CsvColumnDataType::String).look_for_argument(
            Arg::CreditDebitQuery,
            ArgValue::String("Credit".to_string()),
        ),
    );

    let credit = cells(vec!["2023-10-01", "Test Description", "123.45", "Credit"]);
    assert!(definition.validate_against_record(&credit));
    assert_eq!(number(&definition.parse_record(&credit).unwrap()), -123.45);

    let debit = cells(vec!["2023-10-01", "Test Description", "123.45", "Debit"]);
    assert_eq!(number(&definition.parse_record(&debit).unwrap()), 123.45);
}

#[test]
fn scenario_currency_override() {
    let primary = vec![
        (
            CsvColumnRole::Amount,
            CsvColumnInfo::required_content(0, CsvColumnDataType::Float(&STANDARD)),
        ),
        (
            CsvColumnRole::Currency,
            CsvColumnInfo::required_content(2, CsvColumnDataType::String),
        ),
    ];
    let definition = CsvDefinition::new("Currency", true, primary).add_meta_data_column(
        CsvColumnRole::Amount,
        CsvColumnInfo::optional_content(1, CsvColumnDataType::Float(&STANDARD)),
    );

    let both = cells(vec!["100.0", "200.0", "$"]);
    assert_eq!(number(&definition.parse_record(&both).unwrap()), 200.0);

    let no_second = cells(vec!["100.0", "", "$"]);
    assert_eq!(number(&definition.parse_record(&no_second).unwrap()), 100.0 / 3.5);

    let other_currency = cells(vec!["100.0", "", "₪"]);
    assert_eq!(number(&definition.parse_record(&other_currency).unwrap()), 100.0);
}
