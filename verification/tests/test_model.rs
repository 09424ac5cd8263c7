use statement_import::date::DateTime;
use statement_import::model::expense::Expense;
use statement_import::model::response::Status;
use statement_import::number::Amount;

#[test]
fn status_codes() {
    assert_eq!(Status::Success.code(), 200);
    assert_eq!(Status::Created.code(), 201);
    assert_eq!(Status::Found.code(), 302);
    assert_eq!(Status::NotFound.code(), 404);
    assert_eq!(Status::Conflict.code(), 409);
    assert_eq!(Status::Error.code(), 500);
}

#[test]
fn status_success_lies_below_400() {
    assert!(Status::Success.is_success());
    assert!(Status::Created.is_success());
    assert!(Status::Found.is_success());
    assert!(!Status::NotFound.is_success());
    assert!(!Status::Conflict.is_success());
    assert!(!Status::Error.is_success());
}

#[test]
fn default_expense_is_empty() {
    let expense = Expense::default();
    assert_eq!(expense.get_id(), "");
    assert_eq!(expense.get_description(), "");
    assert_eq!(expense.get_amount(), Amount::from_bits(0));
    assert!(expense.get_tags().is_empty());
    assert_eq!(*expense.get_date(), DateTime::midnight(1970, 1, 1));
    assert_eq!(*expense.get_date(), DateTime::default());
}

#[test]
fn new_expense_has_the_identity_zero() {
    let date = DateTime::midnight(2023, 10, 1);
    let amount = Amount::from_bits(123.45f64.to_bits());
    let expense = Expense::new("Test Description".to_string(), amount, date);
    assert_eq!(expense.get_id(), "0");
    assert_eq!(expense.get_description(), "Test Description");
    assert_eq!(expense.get_amount(), amount);
    assert_eq!(*expense.get_date(), date);
    assert!(expense.get_tags().is_empty());
}

#[test]
fn expense_setters_change_one_field_each() {
    let mut expense = Expense::default();
    expense.set_id("abc");
    expense.set_description("Lunch");
    expense.set_amount(Amount::from_bits(2.5f64.to_bits()).rescaled());
    expense.set_date(DateTime::midnight(2024, 2, 29));
    expense.add_tag("Food");
    expense.add_tag("Out");
    assert_eq!(expense.get_id(), "abc");
    assert_eq!(expense.get_description(), "Lunch");
    assert_eq!(expense.get_amount().get_bits(), 2.5f64.to_bits());
    assert_eq!(expense.get_amount().get_divisions(), 1);
    assert_eq!(expense.get_date().year(), 2024);
    assert_eq!(expense.get_date().month(), 2);
    assert_eq!(expense.get_date().day(), 29);
    assert_eq!(expense.get_tags(), &vec!["Food".to_string(), "Out".to_string()]);
    expense.set_description("Dinner");
    assert_eq!(expense.get_id(), "abc");
    assert_eq!(expense.get_tags().len(), 2);
    assert_eq!(expense.get_description(), "Dinner");
}

#[test]
fn midnight_has_no_time_of_day() {
    let date = DateTime::midnight(1999, 11, 5);
    assert_eq!((date.year(), date.month(), date.day()), (1999, 11, 5));
    assert_eq!((date.hour(), date.minute(), date.second()), (0, 0, 0));
}

fn day(year: i32, month: u32, day: u32) -> DateTime {
    DateTime::midnight(year, month, day)
}

#[test]
fn well_formed_dates_are_days_of_the_calendar() {
    for (date, expected) in [
        (day(2023, 10, 1), true),
        (day(2023, 2, 28), true),
        (day(2023, 2, 29), false),
        (day(2023, 2, 30), false),
        (day(2024, 2, 29), true),
        (day(1900, 2, 29), false),
        (day(2000, 2, 29), true),
        (day(0, 2, 29), true),
        (day(-4, 2, 29), true),
        (day(-1, 2, 29), false),
        (day(-100, 2, 29), false),
        (day(-400, 2, 29), true),
        (day(2023, 4, 30), true),
        (day(2023, 4, 31), false),
        (day(2023, 12, 31), true),
        (day(2023, 12, 32), false),
        (day(2023, 0, 1), false),
        (day(2023, 13, 1), false),
        (day(2023, 1, 0), false),
        (day(i32::MIN, 1, 1), true),
        (day(i32::MAX, 12, 31), true),
    ] {
        assert_eq!(date.is_well_formed(), expected, "{:?}", date);
        if (-200_000..200_000).contains(&date.year()) {
            let chrono_has_it =
                chrono::NaiveDate::from_ymd_opt(date.year(), date.month(), date.day()).is_some();
            assert_eq!(chrono_has_it, expected, "{:?}", date);
        }
    }
    let mut late = day(2023, 10, 1);
    late.hour = 24;
    assert!(!late.is_well_formed());
    late.hour = 23;
    late.minute = 60;
    assert!(!late.is_well_formed());
    late.minute = 59;
    late.second = 60;
    assert!(!late.is_well_formed());
    late.second = 59;
    assert!(late.is_well_formed());
}
