use statement_import::definition::cast::{attempt_to_cast, cast_date, cast_raw_value, ParsedValue};
use statement_import::definition::column::{
    Arg, ArgValue, CsvColumnDataType, CsvColumnInfo, CsvColumnRole, Currency, INVERSED, STANDARD,
};
use statement_import::definition::csv_definition::{find_column, CsvDefinition};
use statement_import::definition::error::{CastError, ParseError};
use statement_import::definition::registry::{build_definitions, CsvDefinitionKey};
use statement_import::model::expense::Expense;
use statement_import::number::{
    Amount, INFINITY_BITS, NAN_BITS, SHEKEL_TO_DOLLAR_DIVISION, SIGN_BIT,
};
use statement_import::record::{CsvCell, CsvRecord};
use statement_import::service::csv_file_service::{
    find_definition, open_csv_file_and_find_definitions, parse_csv_file_with_selected_definition,
    parse_rows,
};
use statement_import::service::error::{FormatError, ParseFileError};
use statement_import::text::{collapse, normalize};

fn reading(text: &str) -> Option<u64> {
    normalize(text).parse::<f64>().ok().map(|v| v.to_bits())
}

fn row(cells: Vec<&str>) -> CsvRecord {
    CsvRecord::new(
        cells
            .into_iter()
            .map(|cell| CsvCell::new(cell.to_string(), reading(cell)))
            .collect(),
    )
}

fn value_of(amount: Amount) -> f64 {
    let mut value = f64::from_bits(amount.get_bits());
    for _ in 0..amount.get_divisions() {
        value /= f64::from_bits(SHEKEL_TO_DOLLAR_DIVISION);
    }
    value
}

fn three_columns(amount: CsvColumnDataType) -> CsvDefinition {
    CsvDefinition::new(
        "Three columns",
        false,
        vec![
            (
                CsvColumnRole::Date,
                CsvColumnInfo::required_content(0, CsvColumnDataType::DateObject("%Y-%m-%d")),
            ),
            (
                CsvColumnRole::Description,
                CsvColumnInfo::required_content(1, CsvColumnDataType::String),
            ),
            (CsvColumnRole::Amount, CsvColumnInfo::required_content(2, amount)),
        ],
    )
}

fn float_value(text: &str, info: &CsvColumnInfo) -> f64 {
    match cast_raw_value(text, reading(text), info) {
        Ok(ParsedValue::Float(amount)) => value_of(amount),
        other => panic!("no number: {:?}", other),
    }
}

#[test]
fn normalize_collapses_runs_and_trims() {
    assert_eq!(normalize("  New   York "), "New York");
    assert_eq!(normalize("New York"), "New York");
    assert_eq!(normalize("a\t\n b"), "a b");
    assert_eq!(normalize("\u{a0}x\u{2003}y\u{3000}"), "x y");
    assert_eq!(normalize(""), "");
    assert_eq!(normalize(" \t "), "");
    assert_eq!(normalize("x"), "x");
    assert_eq!(normalize("₪  1"), "₪ 1");
}

#[test]
fn normalize_is_idempotent_on_samples() {
    for text in ["  New   York ", "a", "", " \n", "x  y  z", "\tq"] {
        let once = normalize(text);
        assert_eq!(normalize(once.as_str()), once);
    }
}

#[test]
fn collapse_goes_by_the_flags_it_is_given() {
    let text = vec![' ', 'a', ' ', ' ', 'b', ' '];
    let white = vec![true, false, true, true, false, true];
    assert_eq!(collapse(&text, &white), "a b");
    // The flags decide, not the characters.
    let none = vec![false; 6];
    assert_eq!(collapse(&text, &none), " a  b ");
    let all = vec![true; 6];
    assert_eq!(collapse(&text, &all), "");
    // Flags of another length give nothing.
    assert_eq!(collapse(&text, &vec![false; 5]), "");
}

#[test]
fn amount_bit_patterns() {
    assert_eq!(SIGN_BIT, (-0.0f64).to_bits());
    assert_eq!(INFINITY_BITS, f64::INFINITY.to_bits());
    assert!(f64::from_bits(NAN_BITS).is_nan());
    assert_eq!(f64::from_bits(SHEKEL_TO_DOLLAR_DIVISION), 3.5);
}

#[test]
fn amount_tells_nan_and_infinity() {
    for value in [0.0f64, -0.0, 1.5, -123.45, f64::MAX, f64::MIN, f64::MIN_POSITIVE, 5e-324] {
        let amount = Amount::from_bits(value.to_bits());
        assert!(!amount.is_nan());
        assert!(!amount.is_infinite());
    }
    assert!(Amount::from_bits(f64::NAN.to_bits()).is_nan());
    assert!(Amount::from_bits((-f64::NAN).to_bits()).is_nan());
    assert!(!Amount::from_bits(f64::NAN.to_bits()).is_infinite());
    assert!(Amount::from_bits(f64::INFINITY.to_bits()).is_infinite());
    assert!(Amount::from_bits(f64::NEG_INFINITY.to_bits()).is_infinite());
    assert!(!Amount::from_bits(f64::INFINITY.to_bits()).is_nan());
    assert!(Amount::no_value().is_nan());
}

#[test]
fn amount_negated_is_the_negative() {
    for value in [0.0f64, -0.0, 1.5, -123.45, f64::MAX, f64::MIN_POSITIVE, f64::INFINITY] {
        let amount = Amount::from_bits(value.to_bits());
        assert_eq!(amount.negated().get_bits(), (-value).to_bits());
        assert_eq!(amount.negated().negated(), amount);
    }
}

#[test]
fn amount_rescaled_counts_divisions() {
    let amount = Amount::from_bits(7.0f64.to_bits());
    assert_eq!(amount.get_divisions(), 0);
    let once = amount.rescaled();
    assert_eq!(once.get_bits(), amount.get_bits());
    assert_eq!(once.get_divisions(), 1);
    assert_eq!(value_of(once), 2.0);
    assert_eq!(once.rescaled().get_divisions(), 2);
}

#[test]
fn cast_text_gives_the_text_back() {
    let info = CsvColumnInfo::required_content(0, CsvColumnDataType::String);
    for text in ["Hello", "", " spaced  out ", "12.5"] {
        match cast_raw_value(text, reading(text), &info) {
            Ok(ParsedValue::String(s)) => {
                assert_eq!(s, text);
                match cast_raw_value(s.as_str(), reading(s.as_str()), &info) {
                    Ok(ParsedValue::String(again)) => assert_eq!(again, text),
                    other => panic!("no text: {:?}", other),
                }
            }
            other => panic!("no text: {:?}", other),
        }
    }
}

#[test]
fn cast_float_recovers_the_number_from_its_rendering() {
    let info = CsvColumnInfo::required_content(0, CsvColumnDataType::Float(&STANDARD));
    for value in [
        0.0f64,
        1.0,
        -1.0,
        123.45,
        -123.45,
        0.1,
        1e300,
        1e-300,
        5e-324,
        f64::MAX,
        f64::MIN,
        f64::MIN_POSITIVE,
        f64::EPSILON,
    ] {
        let text = value.to_string();
        match cast_raw_value(text.as_str(), reading(text.as_str()), &info) {
            Ok(ParsedValue::Float(amount)) => {
                assert_eq!(amount.get_bits(), value.to_bits());
                assert_eq!(amount.get_divisions(), 0);
            }
            other => panic!("no number for {}: {:?}", text, other),
        }
    }
}

#[test]
fn cast_float_sign_laws() {
    let standard = CsvColumnInfo::required_content(0, CsvColumnDataType::Float(&STANDARD));
    let inversed = CsvColumnInfo::required_content(0, CsvColumnDataType::Float(&INVERSED));
    for text in ["123.45", "-7", "0", "1e10", "-0.5"] {
        let plain: f64 = text.parse().unwrap();
        assert_eq!(float_value(text, &standard), plain);
        assert_eq!(float_value(text, &inversed), -plain);
    }
    assert_eq!(float_value("0", &inversed).to_bits(), (-0.0f64).to_bits());
}

#[test]
fn cast_float_overflow_law() {
    let infinite = (f32::MAX + f32::MAX).to_string();
    let largest = f64::MAX.to_string();
    let float = CsvColumnDataType::Float(&STANDARD);
    assert!(!attempt_to_cast(infinite.as_str(), reading(infinite.as_str()), float));
    assert!(attempt_to_cast(largest.as_str(), reading(largest.as_str()), float));
    assert!(!attempt_to_cast("1e999", reading("1e999"), float));
    assert!(!attempt_to_cast("-inf", reading("-inf"), float));
    let info = CsvColumnInfo::required_content(0, float);
    assert_eq!(
        cast_raw_value("1e999", reading("1e999"), &info).unwrap_err(),
        CastError::Infinite
    );
    assert_eq!(
        cast_raw_value("12x", reading("12x"), &info).unwrap_err(),
        CastError::NotANumber
    );
    assert_eq!(
        cast_raw_value("", reading(""), &info).unwrap_err(),
        CastError::NotANumber
    );
}

#[test]
fn cast_float_of_an_empty_optional_cell_is_no_value() {
    let info = CsvColumnInfo::optional_content(0, CsvColumnDataType::Float(&INVERSED));
    match cast_raw_value("", None, &info) {
        Ok(ParsedValue::Float(amount)) => {
            assert!(amount.is_nan());
            assert_eq!(amount.get_bits(), NAN_BITS);
        }
        other => panic!("no number: {:?}", other),
    }
    // A filled optional cell is read like a required one.
    assert_eq!(float_value("2.5", &info), -2.5);
    assert_eq!(
        cast_raw_value("x", reading("x"), &info).unwrap_err(),
        CastError::NotANumber
    );
}

#[test]
fn cast_date_reads_the_day_at_midnight() {
    let info = CsvColumnInfo::required_content(0, CsvColumnDataType::DateObject("%d/%m/%y"));
    match cast_raw_value("05/11/99", None, &info) {
        Ok(ParsedValue::Date(date)) => {
            assert_eq!((date.year(), date.month(), date.day()), (1999, 11, 5));
            assert_eq!((date.hour(), date.minute(), date.second()), (0, 0, 0));
        }
        other => panic!("no date: {:?}", other),
    }
    let iso = CsvColumnInfo::required_content(0, CsvColumnDataType::DateObject("%Y-%m-%d"));
    match cast_raw_value("2024-02-29", None, &iso) {
        Ok(ParsedValue::Date(date)) => {
            assert_eq!((date.year(), date.month(), date.day()), (2024, 2, 29));
        }
        other => panic!("no date: {:?}", other),
    }
    assert_eq!(
        cast_raw_value("2023-02-30", None, &iso).unwrap_err(),
        CastError::NotADate
    );
    assert_eq!(
        cast_raw_value("2023-02-29", None, &iso).unwrap_err(),
        CastError::NotADate
    );
    assert_eq!(cast_raw_value("", None, &iso).unwrap_err(), CastError::NotADate);
    assert_eq!(
        cast_raw_value("2023-10-01 trailing", None, &iso).unwrap_err(),
        CastError::NotADate
    );
}

#[test]
fn cast_date_takes_the_day_it_is_given() {
    match cast_date(Some((2023, 10, 1))) {
        Ok(ParsedValue::Date(date)) => {
            assert_eq!((date.year(), date.month(), date.day()), (2023, 10, 1));
            assert_eq!((date.hour(), date.minute(), date.second()), (0, 0, 0));
        }
        other => panic!("no date: {:?}", other),
    }
    assert_eq!(cast_date(None).unwrap_err(), CastError::NotADate);
}

#[test]
fn column_arguments_keep_the_last_value() {
    let info = CsvColumnInfo::required_content(3, CsvColumnDataType::String)
        .look_for_argument(Arg::CreditDebitQuery, ArgValue::String("Debit".to_string()))
        .look_for_argument(Arg::AmountDefaultCurrency, ArgValue::Currency(Currency::Shekel))
        .look_for_argument(Arg::CreditDebitQuery, ArgValue::String("Credit".to_string()));
    assert_eq!(
        info.get_argument(Arg::CreditDebitQuery),
        Some(&ArgValue::String("Credit".to_string()))
    );
    assert_eq!(
        info.get_argument(Arg::AmountDefaultCurrency),
        Some(&ArgValue::Currency(Currency::Shekel))
    );
    let bare = CsvColumnInfo::optional_content(1, CsvColumnDataType::Float(&STANDARD));
    assert_eq!(bare.get_argument(Arg::CreditDebitQuery), None);
    assert_eq!(bare.get_index(), 1);
    assert!(!bare.is_required());
    assert_eq!(bare.get_data_type(), CsvColumnDataType::Float(&STANDARD));
    assert_eq!(info.get_index(), 3);
    assert!(info.is_required());
}

#[test]
fn data_type_accessors() {
    assert_eq!(CsvColumnDataType::Float(&STANDARD).is_standard(), Some(&true));
    assert_eq!(CsvColumnDataType::Float(&INVERSED).is_standard(), Some(&false));
    assert_eq!(CsvColumnDataType::String.is_standard(), None);
    assert_eq!(
        CsvColumnDataType::DateObject("%Y").get_format_from_date(),
        Some("%Y")
    );
    assert_eq!(CsvColumnDataType::String.get_format_from_date(), None);
}

#[test]
fn find_column_takes_the_last_under_a_role() {
    let columns = vec![
        (
            CsvColumnRole::Amount,
            CsvColumnInfo::required_content(1, CsvColumnDataType::Float(&STANDARD)),
        ),
        (
            CsvColumnRole::Tag,
            CsvColumnInfo::optional_content(2, CsvColumnDataType::String),
        ),
        (
            CsvColumnRole::Amount,
            CsvColumnInfo::required_content(7, CsvColumnDataType::Float(&STANDARD)),
        ),
    ];
    assert_eq!(find_column(&columns, CsvColumnRole::Amount).unwrap().get_index(), 7);
    assert_eq!(find_column(&columns, CsvColumnRole::Tag).unwrap().get_index(), 2);
    assert!(find_column(&columns, CsvColumnRole::Date).is_none());
}

#[test]
fn record_hands_out_its_cells() {
    let record = row(vec!["a", " 2.5 ", ""]);
    assert_eq!(record.len(), 3);
    assert_eq!(record.get(0), Some("a"));
    assert_eq!(record.get(1), Some(" 2.5 "));
    assert_eq!(record.get(3), None);
    assert_eq!(record.number(0), None);
    assert_eq!(record.number(1), Some(2.5f64.to_bits()));
    assert_eq!(record.number(2), None);
    assert_eq!(record.number(9), None);
}

#[test]
fn required_columns_must_be_filled() {
    let definition = three_columns(CsvColumnDataType::Float(&STANDARD));
    // Too short for the amount.
    let short = row(vec!["2023-10-01", "Test Description"]);
    assert!(!definition.validate_against_record(&short));
    assert_eq!(
        definition.parse_record(&short).unwrap_err(),
        ParseError::MissingColumn(CsvColumnRole::Amount)
    );
    // Empty cells, after whitespace is collapsed.
    for (cells, role) in [
        (vec!["  ", "Test Description", "1.0"], CsvColumnRole::Date),
        (vec!["2023-10-01", "\t", "1.0"], CsvColumnRole::Description),
        (vec!["2023-10-01", "Test Description", " "], CsvColumnRole::Amount),
    ] {
        let record = row(cells);
        assert!(!definition.validate_against_record(&record));
        let error = definition.parse_record(&record).unwrap_err();
        assert_eq!(error, ParseError::EmptyColumn(role));
        assert!(error.required_field_error());
        assert!(!error.layout_fault());
    }
}

#[test]
fn optional_columns_may_be_left_out() {
    let with_tag = CsvDefinition::new(
        "With a tag",
        false,
        vec![
            (
                CsvColumnRole::Description,
                CsvColumnInfo::required_content(0, CsvColumnDataType::String),
            ),
            (
                CsvColumnRole::Tag,
                CsvColumnInfo::optional_content(1, CsvColumnDataType::String),
            ),
        ],
    );
    let without_tag = CsvDefinition::new(
        "Without a tag",
        false,
        vec![(
            CsvColumnRole::Description,
            CsvColumnInfo::required_content(0, CsvColumnDataType::String),
        )],
    );
    for cells in [vec!["Lunch"], vec!["Lunch", ""], vec!["Lunch", "   "]] {
        let record = row(cells);
        assert!(with_tag.validate_against_record(&record));
        let expense = with_tag.parse_record(&record).unwrap();
        let plain = without_tag.parse_record(&record).unwrap();
        assert_eq!(expense.get_description(), "Lunch");
        assert!(expense.get_tags().is_empty());
        assert_eq!(expense.get_tags(), plain.get_tags());
        assert_eq!(expense.get_description(), plain.get_description());
    }
    let tagged = with_tag.parse_record(&row(vec!["Lunch", " Food  out "])).unwrap();
    assert_eq!(tagged.get_tags(), &vec!["Food out".to_string()]);
}

#[test]
fn an_optional_column_must_still_cast_to_validate() {
    let definition = CsvDefinition::new(
        "Optional amount",
        false,
        vec![(
            CsvColumnRole::Amount,
            CsvColumnInfo::optional_content(0, CsvColumnDataType::Float(&STANDARD)),
        )],
    );
    assert!(definition.validate_against_record(&row(vec![])));
    assert!(definition.validate_against_record(&row(vec![""])));
    assert!(definition.validate_against_record(&row(vec!["1.5"])));
    assert!(!definition.validate_against_record(&row(vec!["abc"])));
    // What does not cast in an optional column is left out of the expense.
    let expense = definition.parse_record(&row(vec!["abc"])).unwrap();
    assert_eq!(value_of(expense.get_amount()), 0.0);
    let expense = definition.parse_record(&row(vec![])).unwrap();
    assert_eq!(value_of(expense.get_amount()), 0.0);
}

#[test]
fn an_optional_amount_that_nothing_fills_is_a_layout_fault() {
    let definition = CsvDefinition::new(
        "Optional amount",
        false,
        vec![(
            CsvColumnRole::Amount,
            CsvColumnInfo::optional_content(0, CsvColumnDataType::Float(&STANDARD)),
        )],
    );
    let error = definition.parse_record(&row(vec![""])).unwrap_err();
    assert_eq!(error, ParseError::NanAmount);
    assert!(error.layout_fault());
    assert_eq!(
        error.to_string(),
        "Amount encountered as NaN, something went horribly wrong"
    );
    // A NaN written out in a required column is refused in the same way.
    let required = three_columns(CsvColumnDataType::Float(&STANDARD));
    assert_eq!(
        required
            .parse_record(&row(vec!["2023-10-01", "Test Description", "NaN"]))
            .unwrap_err(),
        ParseError::NanAmount
    );
}

#[test]
fn credit_column_fills_an_optional_amount() {
    let definition = CsvDefinition::new(
        "Debit and credit",
        true,
        vec![(
            CsvColumnRole::Amount,
            CsvColumnInfo::optional_content(0, CsvColumnDataType::Float(&STANDARD)),
        )],
    )
    .add_meta_data_column(
        CsvColumnRole::CreditAmount,
        CsvColumnInfo::optional_content(1, CsvColumnDataType::Float(&INVERSED)),
    );
    // A debit: the credit cell is empty.
    let debit = definition.parse_record(&row(vec!["50.25", ""])).unwrap();
    assert_eq!(value_of(debit.get_amount()), 50.25);
    // A credit: the debit cell is empty.
    let credit = definition.parse_record(&row(vec!["", "20.5"])).unwrap();
    assert_eq!(value_of(credit.get_amount()), -20.5);
    // Neither: nothing fills the amount.
    assert_eq!(
        definition.parse_record(&row(vec!["", ""])).unwrap_err(),
        ParseError::NanAmount
    );
    // A credit cell that is no number leaves the debit.
    let kept = definition.parse_record(&row(vec!["3", "n/a"])).unwrap();
    assert_eq!(value_of(kept.get_amount()), 3.0);
    // The row may be too short for the credit column.
    let short = definition.parse_record(&row(vec!["3"])).unwrap();
    assert_eq!(value_of(short.get_amount()), 3.0);
}

#[test]
fn credit_debit_indicator_flips_only_on_its_word() {
    let definition = CsvDefinition::new(
        "Indicator",
        true,
        vec![(
            CsvColumnRole::Amount,
            CsvColumnInfo::required_content(0, CsvColumnDataType::Float(&STANDARD)),
        )],
    )
    .add_meta_data_column(
        CsvColumnRole::CreditDebit,
        CsvColumnInfo::required_content(1, CsvColumnDataType::String).look_for_argument(
            Arg::CreditDebitQuery,
            ArgValue::String("Credit".to_string()),
        ),
    );
    let credit = definition.parse_record(&row(vec!["123.45", "Credit"])).unwrap();
    assert_eq!(value_of(credit.get_amount()), -123.45);
    let spaced = definition.parse_record(&row(vec!["123.45", "  Credit "])).unwrap();
    assert_eq!(value_of(spaced.get_amount()), -123.45);
    let debit = definition.parse_record(&row(vec!["123.45", "Debit"])).unwrap();
    assert_eq!(value_of(debit.get_amount()), 123.45);
    let lower = definition.parse_record(&row(vec!["123.45", "credit"])).unwrap();
    assert_eq!(value_of(lower.get_amount()), 123.45);
    // The indicator is required: without it the row gives nothing.
    assert_eq!(
        definition.parse_record(&row(vec!["123.45", ""])).unwrap_err(),
        ParseError::EmptyColumn(CsvColumnRole::CreditDebit)
    );
    assert_eq!(
        definition.parse_record(&row(vec!["123.45"])).unwrap_err(),
        ParseError::MissingColumn(CsvColumnRole::CreditDebit)
    );
    assert!(!definition.validate_against_record(&row(vec!["123.45", ""])));
    assert!(definition.validate_against_record(&row(vec!["123.45", "Debit"])));
}

fn currency_definition(second: CsvColumnInfo) -> CsvDefinition {
    CsvDefinition::new(
        "Currency",
        true,
        vec![
            (
                CsvColumnRole::Amount,
                CsvColumnInfo::required_content(0, CsvColumnDataType::Float(&STANDARD)),
            ),
            (
                CsvColumnRole::Currency,
                CsvColumnInfo::required_content(2, CsvColumnDataType::String),
            ),
        ],
    )
    .add_meta_data_column(CsvColumnRole::Amount, second)
}

#[test]
fn currency_override_takes_the_second_amount() {
    let definition = currency_definition(CsvColumnInfo::required_content(
        1,
        CsvColumnDataType::Float(&STANDARD),
    ));
    let expense = definition.parse_record(&row(vec!["100.0", "200.0", "$"])).unwrap();
    assert_eq!(value_of(expense.get_amount()), 200.0);
    assert_eq!(expense.get_amount().get_divisions(), 0);
    // Another currency leaves the primary amount.
    let expense = definition.parse_record(&row(vec!["100.0", "200.0", "EUR"])).unwrap();
    assert_eq!(value_of(expense.get_amount()), 100.0);
}

#[test]
fn currency_without_a_second_amount_rescales() {
    let definition = currency_definition(CsvColumnInfo::optional_content(
        1,
        CsvColumnDataType::Float(&STANDARD),
    ));
    let expense = definition.parse_record(&row(vec!["100.0", "", "$"])).unwrap();
    assert_eq!(expense.get_amount().get_bits(), 100.0f64.to_bits());
    assert_eq!(expense.get_amount().get_divisions(), 1);
    assert_eq!(value_of(expense.get_amount()), 100.0 / 3.5);
    let expense = definition.parse_record(&row(vec!["7", " ", "$"])).unwrap();
    assert_eq!(value_of(expense.get_amount()), 2.0);
    // A filled second amount still wins.
    let expense = definition.parse_record(&row(vec!["100.0", "40", "$"])).unwrap();
    assert_eq!(value_of(expense.get_amount()), 40.0);
    // An optional second amount that is no number changes nothing.
    let expense = definition.parse_record(&row(vec!["100.0", "n/a", "$"])).unwrap();
    assert_eq!(value_of(expense.get_amount()), 100.0);
}

#[test]
fn currency_errors() {
    let required = currency_definition(CsvColumnInfo::required_content(
        1,
        CsvColumnDataType::Float(&STANDARD),
    ));
    assert_eq!(
        required.parse_record(&row(vec!["100.0", "", "$"])).unwrap_err(),
        ParseError::EmptyColumn(CsvColumnRole::Amount)
    );
    assert_eq!(
        required.parse_record(&row(vec!["100.0", "abc", "$"])).unwrap_err(),
        ParseError::Cast(CsvColumnRole::Amount, CastError::NotANumber)
    );
    assert_eq!(
        required.parse_record(&row(vec!["100.0", "nan", "$"])).unwrap_err(),
        ParseError::NanAmount
    );
    let none = CsvDefinition::new(
        "Currency",
        true,
        vec![
            (
                CsvColumnRole::Amount,
                CsvColumnInfo::required_content(0, CsvColumnDataType::Float(&STANDARD)),
            ),
            (
                CsvColumnRole::Currency,
                CsvColumnInfo::required_content(1, CsvColumnDataType::String),
            ),
        ],
    );
    let error = none.parse_record(&row(vec!["100.0", "$"])).unwrap_err();
    assert_eq!(error, ParseError::NoSecondAmount);
    assert!(error.layout_fault());
    assert_eq!(
        error.to_string(),
        "Currency is present in record but does not have second amount column definition to override with!"
    );
}

#[test]
fn a_role_with_a_data_type_it_cannot_take_is_unhandled() {
    let definition = CsvDefinition::new(
        "Date as text",
        false,
        vec![(
            CsvColumnRole::Date,
            CsvColumnInfo::required_content(0, CsvColumnDataType::String),
        )],
    );
    let error = definition.parse_record(&row(vec!["2023-10-01"])).unwrap_err();
    assert_eq!(error, ParseError::Unhandled(CsvColumnRole::Date));
    assert!(error.layout_fault());
    assert!(!error.required_field_error());
    assert_eq!(
        error.to_string(),
        "A role defined in expected columns was received, but there is no handling defined for it: Date"
    );
    let credit = CsvDefinition::new(
        "Credit as primary",
        false,
        vec![(
            CsvColumnRole::CreditAmount,
            CsvColumnInfo::required_content(0, CsvColumnDataType::Float(&STANDARD)),
        )],
    );
    assert_eq!(
        credit.parse_record(&row(vec!["1"])).unwrap_err(),
        ParseError::Unhandled(CsvColumnRole::CreditAmount)
    );
}

#[test]
fn error_messages() {
    assert_eq!(
        ParseError::MissingColumn(CsvColumnRole::Amount).to_string(),
        "Missing column in CSV record for required role Amount"
    );
    assert_eq!(
        ParseError::EmptyColumn(CsvColumnRole::CreditDebit).to_string(),
        "Column value is an empty string for required role CreditDebit"
    );
    assert_eq!(
        ParseError::Cast(CsvColumnRole::Date, CastError::NotADate).to_string(),
        "Column value cannot be read for required role Date: the value is not a date in the expected format"
    );
    assert_eq!(
        ParseError::Cast(CsvColumnRole::Amount, CastError::Infinite).to_string(),
        "Column value cannot be read for required role Amount: the value is an infinite number"
    );
    assert_eq!(CastError::NotANumber.to_string(), "the value is not a number");
    for (role, name) in [
        (CsvColumnRole::Date, "Date"),
        (CsvColumnRole::Description, "Description"),
        (CsvColumnRole::Amount, "Amount"),
        (CsvColumnRole::Tag, "Tag"),
        (CsvColumnRole::Currency, "Currency"),
        (CsvColumnRole::CreditAmount, "CreditAmount"),
        (CsvColumnRole::CreditDebit, "CreditDebit"),
    ] {
        assert_eq!(role.name(), name);
        assert_eq!(format!("{:?}", role), name);
    }
}

#[test]
fn handle_parsed_str_leaves_the_expense_alone_on_an_error() {
    let mut expense = Expense::default();
    expense.set_description("before");
    let info = CsvColumnInfo::required_content(0, CsvColumnDataType::String);
    let result = CsvColumnRole::Description.handle_parsed_str(
        &mut expense,
        &row(vec![" "]),
        &info,
        &vec![],
    );
    assert_eq!(result, Err(ParseError::EmptyColumn(CsvColumnRole::Description)));
    assert_eq!(expense.get_description(), "before");
    let result = CsvColumnRole::Description.handle_parsed_str(
        &mut expense,
        &row(vec![" after  it "]),
        &info,
        &vec![],
    );
    assert_eq!(result, Ok(()));
    assert_eq!(expense.get_description(), "after it");
}

#[test]
fn the_registry_holds_every_layout_once() {
    let definitions = build_definitions();
    let keys: Vec<CsvDefinitionKey> = definitions.iter().map(|entry| entry.0).collect();
    assert_eq!(
        keys,
        vec![
            CsvDefinitionKey::ExpenseTrackerV1,
            CsvDefinitionKey::WellsFargo,
            CsvDefinitionKey::Amex,
            CsvDefinitionKey::CapitalOne,
            CsvDefinitionKey::CapitalOneSavorOne,
            CsvDefinitionKey::BankLeumi,
            CsvDefinitionKey::Max,
        ]
    );
    let names: Vec<&str> = definitions.iter().map(|entry| entry.1.get_name()).collect();
    assert_eq!(
        names,
        vec![
            "Expense Tracker V1 Migration Report",
            "Wells Fargo Spending Report",
            "American Express Credit Spending Report",
            "Capital One Spending Report",
            "Capital One Savor One Spending Report",
            "Bank Leumi Spending Report",
            "Max Spending Report",
        ]
    );
    let headers: Vec<bool> = definitions.iter().map(|entry| entry.1.has_header()).collect();
    assert_eq!(headers, vec![true, false, true, true, true, true, true]);
    let wells = find_definition(&definitions, CsvDefinitionKey::WellsFargo).unwrap();
    assert_eq!(wells.get_name(), "Wells Fargo Spending Report");
    assert!(find_definition(&vec![], CsvDefinitionKey::Amex).is_none());
}

fn file(rows: Vec<Vec<&str>>) -> Vec<Result<CsvRecord, String>> {
    rows.into_iter().map(|cells| Ok(row(cells))).collect()
}

#[test]
fn registry_layouts_read_their_statements() {
    let definitions = build_definitions();

    let wells = file(vec![vec!["10/01/2023", "-12.50", "*", "", "COFFEE  SHOP"]]);
    assert_eq!(
        open_csv_file_and_find_definitions(&wells, &definitions),
        Ok(Some(vec![CsvDefinitionKey::WellsFargo]))
    );
    let expenses =
        parse_csv_file_with_selected_definition(&wells, &definitions, CsvDefinitionKey::WellsFargo)
            .unwrap();
    assert_eq!(expenses.len(), 1);
    assert_eq!(expenses[0].get_description(), "COFFEE SHOP");
    assert_eq!(value_of(expenses[0].get_amount()), 12.5);
    assert_eq!(expenses[0].get_date().month(), 10);
    assert_eq!(expenses[0].get_date().day(), 1);
    assert_eq!(expenses[0].get_id(), "");

    let capital_one = file(vec![
        vec!["Card", "Description", "Date", "Type", "Amount"],
        vec!["1234", "Groceries", "03/15/2024", "Debit", "80"],
        vec!["1234", "Refund", "03/16/2024", "Credit", "30"],
    ]);
    assert_eq!(
        open_csv_file_and_find_definitions(&capital_one, &definitions),
        Ok(Some(vec![CsvDefinitionKey::CapitalOne]))
    );
    let expenses = parse_csv_file_with_selected_definition(
        &capital_one,
        &definitions,
        CsvDefinitionKey::CapitalOne,
    )
    .unwrap();
    let amounts: Vec<f64> = expenses.iter().map(|e| value_of(e.get_amount())).collect();
    assert_eq!(amounts, vec![80.0, -30.0]);

    let leumi = file(vec![
        vec!["Date", "Description", "Ref", "Debit", "Credit"],
        vec!["15/03/24", "Rent", "1", "3500", ""],
        vec!["16/03/24", "Salary", "2", "", "7000"],
    ]);
    let matched = open_csv_file_and_find_definitions(&leumi, &definitions).unwrap().unwrap();
    assert!(matched.contains(&CsvDefinitionKey::BankLeumi));
    let expenses =
        parse_csv_file_with_selected_definition(&leumi, &definitions, CsvDefinitionKey::BankLeumi)
            .unwrap();
    let amounts: Vec<f64> = expenses.iter().map(|e| value_of(e.get_amount())).collect();
    assert_eq!(amounts, vec![3500.0, -7000.0]);
    assert_eq!(expenses[0].get_date().year(), 2024);

    let max = file(vec![
        vec!["Date", "Shop", "a", "b", "c", "Amount", "d", "Dollars", "Currency"],
        vec!["15-03-2024", "Makolet", "", "", "", "35", "", "0", "₪"],
        vec!["16-03-2024", "Web shop", "", "", "", "70", "", "19.99", "$"],
    ]);
    assert_eq!(
        open_csv_file_and_find_definitions(&max, &definitions),
        Ok(Some(vec![CsvDefinitionKey::Max]))
    );
    let expenses =
        parse_csv_file_with_selected_definition(&max, &definitions, CsvDefinitionKey::Max).unwrap();
    let amounts: Vec<f64> = expenses.iter().map(|e| value_of(e.get_amount())).collect();
    assert_eq!(amounts, vec![35.0, 19.99]);

    let tracker = file(vec![
        vec!["Tag", "Date", "Description", "Amount"],
        vec!["Food", "03/15/2024", "Lunch", "12.5"],
        vec!["", "03/16/2024", "Bus", "2"],
    ]);
    assert_eq!(
        open_csv_file_and_find_definitions(&tracker, &definitions),
        Ok(Some(vec![CsvDefinitionKey::ExpenseTrackerV1]))
    );
    let expenses = parse_csv_file_with_selected_definition(
        &tracker,
        &definitions,
        CsvDefinitionKey::ExpenseTrackerV1,
    )
    .unwrap();
    assert_eq!(expenses[0].get_tags(), &vec!["Food".to_string()]);
    assert!(expenses[1].get_tags().is_empty());
}

#[test]
fn matcher_finds_exactly_the_layouts_that_fit() {
    let a = three_columns(CsvColumnDataType::Float(&STANDARD));
    let b = CsvDefinition::new(
        "Date second",
        false,
        vec![(
            CsvColumnRole::Date,
            CsvColumnInfo::required_content(1, CsvColumnDataType::DateObject("%Y-%m-%d")),
        )],
    );
    let rows = file(vec![
        vec!["2023-10-01", "Test Description", "123.45"],
        vec!["2023-10-02", "Another", "1"],
        vec!["2023-10-03", "Third", "-4.5"],
    ]);
    let definitions = vec![(CsvDefinitionKey::Amex, a), (CsvDefinitionKey::Max, b)];
    assert_eq!(
        open_csv_file_and_find_definitions(&rows, &definitions),
        Ok(Some(vec![CsvDefinitionKey::Amex]))
    );
    let swapped: Vec<(CsvDefinitionKey, CsvDefinition)> = definitions.into_iter().rev().collect();
    assert_eq!(
        open_csv_file_and_find_definitions(&rows, &swapped),
        Ok(Some(vec![CsvDefinitionKey::Amex]))
    );
}

#[test]
fn matcher_returns_every_layout_that_fits() {
    let rows = file(vec![vec!["2023-10-01", "Test Description", "123.45"]]);
    let definitions = vec![
        (
            CsvDefinitionKey::Amex,
            three_columns(CsvColumnDataType::Float(&STANDARD)),
        ),
        (
            CsvDefinitionKey::WellsFargo,
            three_columns(CsvColumnDataType::Float(&INVERSED)),
        ),
    ];
    assert_eq!(
        open_csv_file_and_find_definitions(&rows, &definitions),
        Ok(Some(vec![CsvDefinitionKey::Amex, CsvDefinitionKey::WellsFargo]))
    );
    // One row that does not fit is enough for a layout to drop out.
    let mixed = file(vec![
        vec!["2023-10-01", "Test Description", "123.45"],
        vec!["2023-10-01", "Test Description", "no number"],
    ]);
    assert_eq!(open_csv_file_and_find_definitions(&mixed, &definitions), Ok(None));
    // The order of the rows does not matter.
    let reversed: Vec<Result<CsvRecord, String>> = mixed.into_iter().rev().collect();
    assert_eq!(open_csv_file_and_find_definitions(&reversed, &definitions), Ok(None));
}

#[test]
fn titles_alone_match_no_layout() {
    let definitions = build_definitions();
    let with_titles: Vec<(CsvDefinitionKey, CsvDefinition)> =
        definitions.into_iter().filter(|entry| entry.1.has_header()).collect();
    assert_eq!(with_titles.len(), 6);
    let titles = file(vec![vec!["01/02/2023", "Coffee", "4.50"]]);
    assert_eq!(open_csv_file_and_find_definitions(&titles, &with_titles), Ok(None));
    let empty = file(vec![]);
    assert_eq!(open_csv_file_and_find_definitions(&empty, &with_titles), Ok(None));
    assert_eq!(open_csv_file_and_find_definitions(&empty, &build_definitions()), Ok(None));
    // A layout without columns follows every row, but not a file without rows.
    let anything = vec![(CsvDefinitionKey::Amex, CsvDefinition::new("Any", true, vec![]))];
    assert_eq!(open_csv_file_and_find_definitions(&titles, &anything), Ok(None));
    assert_eq!(open_csv_file_and_find_definitions(&empty, &anything), Ok(None));
    assert_eq!(open_csv_file_and_find_definitions(&titles, &vec![]), Ok(None));
}

#[test]
fn a_malformed_row_is_an_error_for_the_whole_file() {
    let rows = vec![
        Ok(row(vec!["2023-10-01", "Test Description", "123.45"])),
        Err("record 1 has 2 fields".to_string()),
        Err("record 2 is broken too".to_string()),
    ];
    let definitions = vec![(
        CsvDefinitionKey::Amex,
        three_columns(CsvColumnDataType::Float(&STANDARD)),
    )];
    let expected = FormatError { row: 1, message: "record 1 has 2 fields".to_string() };
    assert_eq!(
        open_csv_file_and_find_definitions(&rows, &definitions),
        Err(expected.clone())
    );
    assert_eq!(open_csv_file_and_find_definitions(&rows, &vec![]), Err(expected.clone()));
    assert_eq!(
        parse_csv_file_with_selected_definition(&rows, &definitions, CsvDefinitionKey::Amex).err(),
        Some(ParseFileError::Format(expected))
    );
}

#[test]
fn parse_rows_skips_the_titles_and_stops_at_the_first_error() {
    let with_titles = CsvDefinition::new(
        "Two columns",
        true,
        vec![
            (
                CsvColumnRole::Description,
                CsvColumnInfo::required_content(0, CsvColumnDataType::String),
            ),
            (
                CsvColumnRole::Amount,
                CsvColumnInfo::required_content(1, CsvColumnDataType::Float(&STANDARD)),
            ),
        ],
    );
    let rows = file(vec![vec!["What", "How much"], vec!["Tea", "2.5"], vec!["Cake", "4"]]);
    let expenses = parse_rows(&rows, &with_titles).unwrap();
    assert_eq!(expenses.len(), 2);
    assert_eq!(expenses[0].get_description(), "Tea");
    assert_eq!(value_of(expenses[1].get_amount()), 4.0);

    let bad = file(vec![
        vec!["What", "How much"],
        vec!["Tea", "2.5"],
        vec!["Cake", "four"],
        vec!["", ""],
    ]);
    assert_eq!(
        parse_rows(&bad, &with_titles).unwrap_err(),
        ParseFileError::Record {
            row: 2,
            error: ParseError::Cast(CsvColumnRole::Amount, CastError::NotANumber),
        }
    );
    // Without titles the first row is an expense too.
    let without_titles = three_columns(CsvColumnDataType::Float(&STANDARD));
    let rows = file(vec![vec!["2023-10-01", "Tea", "2.5"]]);
    assert_eq!(parse_rows(&rows, &without_titles).unwrap().len(), 1);
    assert_eq!(parse_rows(&file(vec![]), &without_titles).unwrap().len(), 0);
    assert_eq!(parse_rows(&file(vec![vec!["only", "titles"]]), &with_titles).unwrap().len(), 0);
}

#[test]
fn parsing_under_an_unknown_key_is_an_error() {
    let definitions = vec![(
        CsvDefinitionKey::Amex,
        three_columns(CsvColumnDataType::Float(&STANDARD)),
    )];
    let rows = file(vec![vec!["2023-10-01", "Tea", "2.5"]]);
    assert_eq!(
        parse_csv_file_with_selected_definition(&rows, &definitions, CsvDefinitionKey::Max).err(),
        Some(ParseFileError::DefinitionNotFound)
    );
    assert!(
        parse_csv_file_with_selected_definition(&rows, &definitions, CsvDefinitionKey::Amex)
            .is_ok()
    );
}
