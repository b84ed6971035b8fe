use finance_tracker::controllers::income_controller::create_income;
use finance_tracker::controllers::income_controller::delete_income;
use finance_tracker::controllers::income_controller::get_income_by_id;
use finance_tracker::controllers::income_controller::get_incomes_by_user_id;
use finance_tracker::controllers::income_controller::update_income;
use finance_tracker::controllers::income_controller::CreateIncomeRequest;
use finance_tracker::controllers::income_controller::UpdateIncomeRequest;
use finance_tracker::database::table::insertion_slot;
use finance_tracker::database::table::removal_outcome;
use finance_tracker::database::Store;
use finance_tracker::errors::AppError;
use finance_tracker::errors::StoreError;
use finance_tracker::errors::ValidationError;
use finance_tracker::models::decimal::PgDecimal;
use finance_tracker::models::ident::RecordId;
use finance_tracker::models::income::Income;
use finance_tracker::models::income::NewIncome;
use finance_tracker::models::income::UpdateIncome;
use finance_tracker::models::time::Date;
use finance_tracker::models::time::Timestamp;
use finance_tracker::services::income_service;
use finance_tracker::validation::validate_create_income;
use finance_tracker::validation::validate_update_income;

fn day(year: i32, month: u32, day: u32) -> Date {
    Date { year, month, day }
}

fn at(year: i32, month: u32, d: u32, seconds: u32) -> Timestamp {
    Timestamp { date: day(year, month, d), seconds, nanos: 0 }
}

fn income(id: u128, owner: u128, source: &str, cents: i128, date: Date) -> Income {
    Income {
        id: RecordId(id),
        user_id: RecordId(owner),
        source: source.to_string(),
        amount: PgDecimal { mantissa: cents, scale: 2 },
        date,
        description: None,
        created_at: at(2023, 1, 1, 0),
        updated_at: at(2023, 1, 1, 0),
    }
}

fn request(source: &str, amount: &str, date: &str) -> CreateIncomeRequest {
    CreateIncomeRequest {
        source: source.to_string(),
        amount: amount.to_string(),
        date: date.to_string(),
        description: None,
    }
}

fn no_change() -> UpdateIncomeRequest {
    UpdateIncomeRequest { source: None, amount: None, date: None, description: None }
}

#[test]
fn income_read_twice_gives_the_same() {
    let mut store = Store::new();
    income_service::insert_income(&mut store, income(1, 10, "Salary", 100000, day(2023, 1, 1)))
        .unwrap();
    let first = income_service::get_income_by_id(&store, RecordId(1), RecordId(10));
    let second = income_service::get_income_by_id(&store, RecordId(1), RecordId(10));
    assert_eq!(first, second);
    assert_eq!(first, Ok(income(1, 10, "Salary", 100000, day(2023, 1, 1))));
    let missing_first = income_service::get_income_by_id(&store, RecordId(2), RecordId(10));
    let missing_second = income_service::get_income_by_id(&store, RecordId(2), RecordId(10));
    assert_eq!(missing_first, missing_second);
    assert_eq!(missing_first, Err(StoreError::NotFound));
}

#[test]
fn income_of_another_owner_is_not_found() {
    let mut store = Store::new();
    income_service::insert_income(&mut store, income(1, 10, "Salary", 100000, day(2023, 1, 1)))
        .unwrap();
    assert!(income_service::get_income_by_id(&store, RecordId(1), RecordId(10)).is_ok());
    assert_eq!(
        income_service::get_income_by_id(&store, RecordId(1), RecordId(11)),
        Err(StoreError::NotFound)
    );
    assert_eq!(
        income_service::get_income_by_id(&store, RecordId(99), RecordId(11)),
        Err(StoreError::NotFound)
    );
    assert_eq!(get_income_by_id(&store, RecordId(1), RecordId(11)), Err(AppError::NotFound));
    assert_eq!(get_income_by_id(&store, RecordId(99), RecordId(11)), Err(AppError::NotFound));
}

#[test]
fn income_of_another_owner_cannot_be_changed_or_removed() {
    let mut store = Store::new();
    let row = income(1, 10, "Salary", 100000, day(2023, 1, 1));
    income_service::insert_income(&mut store, row.clone()).unwrap();
    let patch = UpdateIncomeRequest { source: Some("Theft".to_string()), ..no_change() };
    assert_eq!(
        update_income(&mut store, RecordId(1), RecordId(11), patch),
        Err(AppError::NotFound)
    );
    assert_eq!(delete_income(&mut store, RecordId(1), RecordId(11)), Err(AppError::NotFound));
    assert_eq!(income_service::get_income_by_id(&store, RecordId(1), RecordId(10)), Ok(row));
    assert_eq!(store.incomes.len(), 1);
}

#[test]
fn income_partial_update_changes_only_what_it_supplies() {
    let mut store = Store::new();
    let mut row = income(1, 10, "Salary", 100000, day(2023, 1, 1));
    row.description = Some("January".to_string());
    income_service::insert_income(&mut store, row.clone()).unwrap();
    let patch = UpdateIncome {
        source: None,
        amount: Some(PgDecimal { mantissa: 1250, scale: 2 }),
        date: None,
        description: None,
    };
    let now = at(2024, 5, 6, 7);
    let changed =
        income_service::apply_income_update(&mut store, RecordId(1), RecordId(10), patch, now)
            .unwrap();
    assert_eq!(changed.amount, PgDecimal { mantissa: 1250, scale: 2 });
    assert_eq!(changed.updated_at, now);
    assert_eq!(changed.source, "Salary");
    assert_eq!(changed.date, day(2023, 1, 1));
    assert_eq!(changed.description, Some("January".to_string()));
    assert_eq!(changed.id, row.id);
    assert_eq!(changed.user_id, row.user_id);
    assert_eq!(changed.created_at, row.created_at);
    assert_eq!(income_service::get_income_by_id(&store, RecordId(1), RecordId(10)), Ok(changed));
}

#[test]
fn income_update_through_the_handler_reads_the_amount_and_stamps_the_time() {
    let mut store = Store::new();
    let row = income(1, 10, "Salary", 100000, day(2023, 1, 1));
    income_service::insert_income(&mut store, row.clone()).unwrap();
    let patch = UpdateIncomeRequest { amount: Some("12.50".to_string()), ..no_change() };
    let response = update_income(&mut store, RecordId(1), RecordId(10), patch).unwrap();
    assert_eq!(response.status, 200);
    assert_eq!(response.data.amount, PgDecimal { mantissa: 1250, scale: 2 });
    assert_eq!(response.data.source, "Salary");
    assert_eq!(response.data.date, day(2023, 1, 1));
    assert_eq!(response.data.description, None);
    assert_eq!(response.data.created_at, row.created_at);
    assert_ne!(response.data.updated_at, row.updated_at);
    assert!(response.data.updated_at.date.year >= 2024);
}

#[test]
fn income_update_of_every_field() {
    let mut store = Store::new();
    income_service::insert_income(&mut store, income(1, 10, "Salary", 100000, day(2023, 1, 1)))
        .unwrap();
    let patch = UpdateIncomeRequest {
        source: Some("Bonus".to_string()),
        amount: Some("7".to_string()),
        date: Some("2023-06-30".to_string()),
        description: Some("mid-year".to_string()),
    };
    let response = update_income(&mut store, RecordId(1), RecordId(10), patch).unwrap();
    assert_eq!(response.data.source, "Bonus");
    assert_eq!(response.data.amount, PgDecimal { mantissa: 7, scale: 0 });
    assert_eq!(response.data.date, day(2023, 6, 30));
    assert_eq!(response.data.description, Some("mid-year".to_string()));
}

#[test]
fn income_update_leaves_other_rows_alone() {
    let mut store = Store::new();
    let a = income(1, 10, "Salary", 100000, day(2023, 1, 1));
    let b = income(2, 10, "Bonus", 5000, day(2023, 2, 1));
    income_service::insert_income(&mut store, a.clone()).unwrap();
    income_service::insert_income(&mut store, b.clone()).unwrap();
    let patch = UpdateIncomeRequest { source: Some("Wages".to_string()), ..no_change() };
    update_income(&mut store, RecordId(1), RecordId(10), patch).unwrap();
    assert_eq!(income_service::get_income_by_id(&store, RecordId(2), RecordId(10)), Ok(b));
    assert_eq!(store.incomes.len(), 2);
}

#[test]
fn income_update_rejects_bad_fields_before_looking() {
    let mut store = Store::new();
    let row = income(1, 10, "Salary", 100000, day(2023, 1, 1));
    income_service::insert_income(&mut store, row.clone()).unwrap();
    let blank = UpdateIncomeRequest { source: Some("  ".to_string()), ..no_change() };
    assert_eq!(
        update_income(&mut store, RecordId(1), RecordId(10), blank),
        Err(AppError::Validation(ValidationError::EmptySource))
    );
    let zero = UpdateIncomeRequest { amount: Some("0".to_string()), ..no_change() };
    assert_eq!(
        update_income(&mut store, RecordId(1), RecordId(10), zero),
        Err(AppError::Validation(ValidationError::NonPositiveAmount))
    );
    let date = UpdateIncomeRequest { date: Some("soon".to_string()), ..no_change() };
    assert_eq!(
        update_income(&mut store, RecordId(404), RecordId(10), date),
        Err(AppError::Validation(ValidationError::InvalidDate))
    );
    assert_eq!(income_service::get_income_by_id(&store, RecordId(1), RecordId(10)), Ok(row));
}

#[test]
fn income_update_without_fields_only_stamps_the_time() {
    let mut store = Store::new();
    let row = income(1, 10, "Salary", 100000, day(2023, 1, 1));
    income_service::insert_income(&mut store, row.clone()).unwrap();
    let response = update_income(&mut store, RecordId(1), RecordId(10), no_change()).unwrap();
    let mut expected = row;
    expected.updated_at = response.data.updated_at;
    assert_eq!(response.data, expected);
}

#[test]
fn income_update_of_a_missing_row_is_not_found() {
    let mut store = Store::new();
    assert_eq!(
        update_income(&mut store, RecordId(1), RecordId(10), no_change()),
        Err(AppError::NotFound)
    );
    assert_eq!(
        income_service::update_income(
            &mut store,
            RecordId(1),
            RecordId(10),
            UpdateIncome { source: None, amount: None, date: None, description: None },
        ),
        Err(StoreError::NotFound)
    );
}

#[test]
fn income_created_is_read_back_exactly() {
    let mut store = Store::new();
    income_service::insert_income(&mut store, income(1, 10, "Salary", 100000, day(2022, 1, 1)))
        .unwrap();
    let response =
        create_income(&mut store, RecordId(10), request("Coffee refund", "3.50", "2023-01-01"))
            .unwrap();
    assert_eq!(response.status, 201);
    let created = response.data;
    assert_ne!(created.id, RecordId(1));
    assert_eq!(created.user_id, RecordId(10));
    assert_eq!(created.source, "Coffee refund");
    assert_eq!(created.amount, PgDecimal { mantissa: 350, scale: 2 });
    assert_eq!(created.date, day(2023, 1, 1));
    assert_eq!(created.description, None);
    assert_eq!(created.created_at, created.updated_at);
    let read = get_income_by_id(&store, created.id, RecordId(10)).unwrap();
    assert_eq!(read.status, 200);
    assert_eq!(read.data, created);
    assert_eq!(read.data.amount, PgDecimal { mantissa: 350, scale: 2 });
    assert_eq!(store.incomes.len(), 2);
}

#[test]
fn income_created_twice_gets_two_identifiers() {
    let mut store = Store::new();
    let a = create_income(&mut store, RecordId(10), request("Salary", "1", "2023-01-01")).unwrap();
    let b = create_income(&mut store, RecordId(10), request("Salary", "1", "2023-01-01")).unwrap();
    assert_ne!(a.data.id, b.data.id);
    assert_eq!(store.incomes.len(), 2);
}

#[test]
fn income_creation_rejects_bad_requests_and_stores_nothing() {
    let mut store = Store::new();
    assert_eq!(
        create_income(&mut store, RecordId(10), request(" ", "1", "2023-01-01")),
        Err(AppError::Validation(ValidationError::EmptySource))
    );
    assert_eq!(
        create_income(&mut store, RecordId(10), request("Salary", "", "2023-01-01")),
        Err(AppError::Validation(ValidationError::EmptyAmount))
    );
    assert_eq!(
        create_income(&mut store, RecordId(10), request("Salary", "abc", "2023-01-01")),
        Err(AppError::Validation(ValidationError::InvalidAmountFormat))
    );
    assert_eq!(
        create_income(&mut store, RecordId(10), request("Salary", "-5", "2023-01-01")),
        Err(AppError::Validation(ValidationError::NonPositiveAmount))
    );
    assert_eq!(
        create_income(&mut store, RecordId(10), request("Salary", "5", "2023-02-30")),
        Err(AppError::Validation(ValidationError::InvalidDate))
    );
    assert_eq!(store.incomes.len(), 0);
}

#[test]
fn income_creation_reports_the_first_broken_rule() {
    assert_eq!(
        validate_create_income(RecordId(10), request("", "abc", "nope")),
        Err(ValidationError::EmptySource)
    );
    assert_eq!(
        validate_create_income(RecordId(10), request("Salary", "abc", "nope")),
        Err(ValidationError::InvalidAmountFormat)
    );
    assert_eq!(
        validate_create_income(RecordId(10), request("Salary", "1", "nope")),
        Err(ValidationError::InvalidDate)
    );
}

#[test]
fn income_request_becomes_the_record_to_create() {
    let mut req = request("Salary", " 45.99 ", "2023-03-04");
    req.description = Some("March".to_string());
    assert_eq!(
        validate_create_income(RecordId(10), req),
        Ok(NewIncome {
            user_id: RecordId(10),
            source: "Salary".to_string(),
            amount: PgDecimal { mantissa: 4599, scale: 2 },
            date: day(2023, 3, 4),
            description: Some("March".to_string()),
        })
    );
}

#[test]
fn income_change_request_becomes_the_change_to_make() {
    assert_eq!(
        validate_update_income(no_change()),
        Ok(UpdateIncome { source: None, amount: None, date: None, description: None })
    );
    let req = UpdateIncomeRequest {
        source: Some("Bonus".to_string()),
        amount: Some("12.50".to_string()),
        date: Some("2023-03-04".to_string()),
        description: Some("".to_string()),
    };
    assert_eq!(
        validate_update_income(req),
        Ok(UpdateIncome {
            source: Some("Bonus".to_string()),
            amount: Some(PgDecimal { mantissa: 1250, scale: 2 }),
            date: Some(day(2023, 3, 4)),
            description: Some("".to_string()),
        })
    );
}

#[test]
fn income_with_a_taken_identifier_is_refused() {
    let mut store = Store::new();
    let row = income(1, 10, "Salary", 100000, day(2023, 1, 1));
    income_service::insert_income(&mut store, row.clone()).unwrap();
    assert_eq!(
        income_service::insert_income(&mut store, income(1, 11, "Other", 1, day(2023, 1, 2))),
        Err(StoreError::Conflict)
    );
    assert_eq!(store.incomes.len(), 1);
    assert_eq!(income_service::get_income_by_id(&store, RecordId(1), RecordId(10)), Ok(row));
}

#[test]
fn new_income_becomes_a_record() {
    let new_income = NewIncome {
        user_id: RecordId(10),
        source: "Salary".to_string(),
        amount: PgDecimal { mantissa: 4599, scale: 2 },
        date: day(2023, 3, 4),
        description: Some("March".to_string()),
    };
    let now = at(2023, 3, 5, 60);
    let row = new_income.into_income_with(RecordId(77), now);
    assert_eq!(
        row,
        Income {
            id: RecordId(77),
            user_id: RecordId(10),
            source: "Salary".to_string(),
            amount: PgDecimal { mantissa: 4599, scale: 2 },
            date: day(2023, 3, 4),
            description: Some("March".to_string()),
            created_at: now,
            updated_at: now,
        }
    );
}

#[test]
fn new_income_gets_a_fresh_identifier_and_the_time() {
    let make = || NewIncome {
        user_id: RecordId(10),
        source: "Salary".to_string(),
        amount: PgDecimal { mantissa: 1, scale: 0 },
        date: day(2023, 3, 4),
        description: None,
    };
    let a = make().into_income();
    let b = make().into_income();
    assert_ne!(a.id, b.id);
    assert_eq!(a.created_at, a.updated_at);
    assert_eq!(a.date, day(2023, 3, 4));
    assert_eq!(a.source, "Salary");
}

#[test]
fn income_creation_succeeds_on_an_empty_table_and_beside_other_rows() {
    let mut store = Store::new();
    let make = || NewIncome {
        user_id: RecordId(10),
        source: "Salary".to_string(),
        amount: PgDecimal { mantissa: 1, scale: 0 },
        date: day(2023, 3, 4),
        description: None,
    };
    assert!(income_service::create_income(&mut store, make()).is_ok());
    income_service::insert_income(&mut store, income(1, 10, "a", 100, day(2023, 1, 1))).unwrap();
    let created = income_service::create_income(&mut store, make()).unwrap();
    assert_eq!((created.id.0 >> 76) & 0xf, 4);
    assert_eq!(store.incomes.len(), 3);
}

#[test]
fn income_deleted_is_not_found_afterwards() {
    let mut store = Store::new();
    income_service::insert_income(&mut store, income(1, 10, "Salary", 100000, day(2023, 1, 1)))
        .unwrap();
    let kept = income(2, 10, "Bonus", 5000, day(2023, 2, 1));
    income_service::insert_income(&mut store, kept.clone()).unwrap();
    let response = delete_income(&mut store, RecordId(1), RecordId(10)).unwrap();
    assert_eq!(response.status, 200);
    assert_eq!(response.data, 1);
    assert_eq!(get_income_by_id(&store, RecordId(1), RecordId(10)), Err(AppError::NotFound));
    assert_eq!(income_service::get_income_by_id(&store, RecordId(2), RecordId(10)), Ok(kept));
    assert_eq!(delete_income(&mut store, RecordId(1), RecordId(10)), Err(AppError::NotFound));
    assert_eq!(
        income_service::delete_income(&mut store, RecordId(1), RecordId(10)),
        Err(StoreError::NotFound)
    );
    assert_eq!(income_service::delete_income(&mut store, RecordId(2), RecordId(10)), Ok(1));
    assert_eq!(store.incomes.len(), 0);
}

#[test]
fn removal_counts_decide() {
    assert_eq!(removal_outcome(0), Err(StoreError::NotFound));
    assert_eq!(removal_outcome(1), Ok(1));
    assert_eq!(removal_outcome(3), Ok(3));
}

#[test]
fn income_list_is_newest_first() {
    let mut store = Store::new();
    income_service::insert_income(&mut store, income(1, 10, "a", 100, day(2023, 1, 1))).unwrap();
    income_service::insert_income(&mut store, income(2, 10, "b", 100, day(2023, 3, 1))).unwrap();
    income_service::insert_income(&mut store, income(3, 10, "c", 100, day(2023, 2, 1))).unwrap();
    let rows = income_service::get_all_income_for_user(&store, RecordId(10)).unwrap();
    let dates: Vec<Date> = rows.iter().map(|r| r.date).collect();
    assert_eq!(dates, vec![day(2023, 3, 1), day(2023, 2, 1), day(2023, 1, 1)]);
    let ids: Vec<u128> = rows.iter().map(|r| r.id.0).collect();
    assert_eq!(ids, vec![2, 3, 1]);
    let response = get_incomes_by_user_id(&store, RecordId(10)).unwrap();
    assert_eq!(response.status, 200);
    assert_eq!(response.data, rows);
}

#[test]
fn income_list_holds_only_the_owners_rows() {
    let mut store = Store::new();
    income_service::insert_income(&mut store, income(1, 10, "a", 100, day(2023, 1, 1))).unwrap();
    income_service::insert_income(&mut store, income(2, 11, "b", 100, day(2023, 3, 1))).unwrap();
    income_service::insert_income(&mut store, income(3, 10, "c", 100, day(2023, 2, 1))).unwrap();
    let rows = income_service::get_all_income_for_user(&store, RecordId(10)).unwrap();
    let ids: Vec<u128> = rows.iter().map(|r| r.id.0).collect();
    assert_eq!(ids, vec![3, 1]);
    let other = income_service::get_all_income_for_user(&store, RecordId(11)).unwrap();
    assert_eq!(other, vec![income(2, 11, "b", 100, day(2023, 3, 1))]);
    let nobody = income_service::get_all_income_for_user(&store, RecordId(12)).unwrap();
    assert_eq!(nobody, vec![]);
}

#[test]
fn income_list_keeps_rows_of_one_day_in_table_order() {
    let mut store = Store::new();
    income_service::insert_income(&mut store, income(1, 10, "a", 100, day(2023, 2, 1))).unwrap();
    income_service::insert_income(&mut store, income(2, 10, "b", 100, day(2023, 2, 1))).unwrap();
    income_service::insert_income(&mut store, income(3, 10, "c", 100, day(2024, 1, 1))).unwrap();
    income_service::insert_income(&mut store, income(4, 10, "d", 100, day(2023, 2, 1))).unwrap();
    income_service::insert_income(&mut store, income(5, 10, "e", 100, day(2022, 12, 31))).unwrap();
    let rows = income_service::get_all_income_for_user(&store, RecordId(10)).unwrap();
    let ids: Vec<u128> = rows.iter().map(|r| r.id.0).collect();
    assert_eq!(ids, vec![3, 1, 2, 4, 5]);
}

#[test]
fn insertion_slot_goes_behind_rows_of_the_same_day() {
    let rows = vec![
        income(1, 10, "a", 100, day(2023, 3, 1)),
        income(2, 10, "b", 100, day(2023, 2, 1)),
        income(3, 10, "c", 100, day(2023, 2, 1)),
        income(4, 10, "d", 100, day(2023, 1, 1)),
    ];
    assert_eq!(insertion_slot(&rows, day(2023, 4, 1)), 0);
    assert_eq!(insertion_slot(&rows, day(2023, 3, 1)), 1);
    assert_eq!(insertion_slot(&rows, day(2023, 2, 1)), 3);
    assert_eq!(insertion_slot(&rows, day(2023, 1, 15)), 3);
    assert_eq!(insertion_slot(&rows, day(2022, 1, 1)), 4);
    let empty: Vec<Income> = Vec::new();
    assert_eq!(insertion_slot(&empty, day(2023, 1, 1)), 0);
}

#[test]
fn income_table_answers_by_place_and_identifier() {
    let mut store = Store::new();
    let a = income(1, 10, "a", 100, day(2023, 1, 1));
    let b = income(2, 11, "b", 200, day(2023, 1, 2));
    income_service::insert_income(&mut store, a.clone()).unwrap();
    income_service::insert_income(&mut store, b.clone()).unwrap();
    assert_eq!(store.incomes.position(RecordId(2)), Some(1));
    assert_eq!(store.incomes.position(RecordId(3)), None);
    assert_eq!(store.incomes.position_owned(RecordId(2), RecordId(11)), Some(1));
    assert_eq!(store.incomes.position_owned(RecordId(2), RecordId(10)), None);
    assert_eq!(store.incomes.row(0), &a);
    assert_eq!(store.incomes.find(RecordId(2)), Some(b.clone()));
    assert_eq!(store.incomes.find_owned(RecordId(2), RecordId(10)), None);
    assert_eq!(store.incomes.all(), vec![a.clone(), b.clone()]);
    assert_eq!(store.incomes.owned(RecordId(11)), vec![b.clone()]);
    let mut changed = a.clone();
    changed.source = "z".to_string();
    store.incomes.replace(0, changed.clone());
    assert_eq!(store.incomes.all(), vec![changed, b.clone()]);
    assert_eq!(store.incomes.remove_owned(RecordId(1), RecordId(11)), 0);
    assert_eq!(store.incomes.remove_owned(RecordId(1), RecordId(10)), 1);
    assert_eq!(store.incomes.remove(RecordId(9)), Err(StoreError::NotFound));
    assert_eq!(store.incomes.remove(RecordId(2)), Ok(b));
    assert_eq!(store.incomes.len(), 0);
}
