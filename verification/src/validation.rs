//! The rules that a submitted value has to meet before anything is read or
//! written.

use crate::controllers::expense_controller::CreateExpenseRequest;
use crate::controllers::expense_controller::UpdateExpenseRequest;
use crate::controllers::income_controller::CreateIncomeRequest;
use crate::controllers::income_controller::UpdateIncomeRequest;
use crate::errors::ValidationError;
use crate::models::decimal::PgDecimal;
use crate::models::expense::NewExpense;
use crate::models::expense::UpdateExpense;
use crate::models::ident::RecordId;
use crate::models::income::NewIncome;
use crate::models::income::UpdateIncome;
use crate::models::time::Date;
use crate::models::user::email_ok;
use crate::models::user::password_ok;
use crate::models::user::NewUser;
use crate::models::user::UpdateUser;
use crate::text::is_blank;
use crate::text::lemma_blank_iff_trims_to_nothing;
use crate::text::str_contains_char;
use crate::text::str_is_blank;
use crate::text::trim;
use crate::text::trimmed;
use vstd::prelude::*;
use vstd::string::*;

verus! {

/// What a number that was read from an amount stands for: it has to be
/// there, and above zero.
pub open spec fn checked_amount(parsed: Option<PgDecimal>) -> Result<PgDecimal, ValidationError> {
    match parsed {
        None => Err(ValidationError::InvalidAmountFormat),
        Some(d) => if d.positive() {
            Ok(d)
        } else {
            Err(ValidationError::NonPositiveAmount)
        },
    }
}

/// What a submitted amount stands for. Surrounding white space does not
/// count; what is left has to be there, to read as a decimal number with
/// every digit kept, and to be above zero.
pub open spec fn amount_of(raw: Seq<char>) -> Result<PgDecimal, ValidationError> {
    if trimmed(raw).len() == 0 {
        Err(ValidationError::EmptyAmount)
    } else {
        checked_amount(PgDecimal::parsed_exact(trimmed(raw)))
    }
}

/// Judges the number that was read from an amount.
pub fn check_amount(parsed: Option<PgDecimal>) -> (r: Result<PgDecimal, ValidationError>)
    ensures
        r == checked_amount(parsed),
{
    match parsed {
        None => Err(ValidationError::InvalidAmountFormat),
        Some(d) => {
            if d.is_positive() {
                Ok(d)
            } else {
                Err(ValidationError::NonPositiveAmount)
            }
        },
    }
}

/// Reads a submitted amount.
pub fn parse_amount(raw: &str) -> (r: Result<PgDecimal, ValidationError>)
    ensures
        r == amount_of(raw@),
        r matches Ok(d) ==> d.wf() && d.positive(),
{
    let text = trim(raw);
    if text.unicode_len() == 0 {
        Err(ValidationError::EmptyAmount)
    } else {
        check_amount(PgDecimal::parse_exact(text))
    }
}

/// An amount is accepted exactly when, without its surrounding white space,
/// it is not empty and reads, with every digit kept, as a decimal number above
/// zero; the accepted value is that number.
pub proof fn lemma_amount_accepted(raw: Seq<char>)
    ensures
        amount_of(raw) is Ok <==> trimmed(raw).len() > 0 && PgDecimal::parsed_exact(trimmed(raw)) is Some
            && PgDecimal::parsed_exact(trimmed(raw))->Some_0.positive(),
        amount_of(raw) matches Ok(d) ==> PgDecimal::parsed_exact(trimmed(raw)) == Some(d),
        is_blank(raw) ==> amount_of(raw) == Err::<PgDecimal, ValidationError>(
            ValidationError::EmptyAmount,
        ),
{
    lemma_blank_iff_trims_to_nothing(raw);
}

/// What a submitted date stands for.
pub open spec fn date_of(raw: Seq<char>) -> Result<Date, ValidationError> {
    match Date::parsed(raw) {
        Some(d) => Ok(d),
        None => Err(ValidationError::InvalidDate),
    }
}

/// Judges the date that was read from a text.
pub fn check_date(parsed: Option<Date>) -> (r: Result<Date, ValidationError>)
    ensures
        r == match parsed {
            Some(d) => Ok::<Date, ValidationError>(d),
            None => Err::<Date, ValidationError>(ValidationError::InvalidDate),
        },
{
    match parsed {
        Some(d) => Ok(d),
        None => Err(ValidationError::InvalidDate),
    }
}

/// Reads a submitted date, written as year-month-day.
pub fn parse_date(raw: &str) -> (r: Result<Date, ValidationError>)
    ensures
        r == date_of(raw@),
{
    check_date(Date::parse(raw))
}

/// What a submitted identifier stands for.
pub open spec fn id_of(raw: Seq<char>) -> Result<RecordId, ValidationError> {
    match RecordId::parsed(raw) {
        Some(id) => Ok(id),
        None => Err(ValidationError::InvalidIdentifier),
    }
}

/// Judges the identifier that was read from a text.
pub fn check_id(parsed: Option<RecordId>) -> (r: Result<RecordId, ValidationError>)
    ensures
        r == match parsed {
            Some(id) => Ok::<RecordId, ValidationError>(id),
            None => Err::<RecordId, ValidationError>(ValidationError::InvalidIdentifier),
        },
{
    match parsed {
        Some(id) => Ok(id),
        None => Err(ValidationError::InvalidIdentifier),
    }
}

/// Reads a submitted identifier.
pub fn parse_id(raw: &str) -> (r: Result<RecordId, ValidationError>)
    ensures
        r == id_of(raw@),
{
    check_id(RecordId::parse(raw))
}

/// Decides whether an email address holds both `@` and `.`.
pub fn is_valid_email(email: &str) -> (r: bool)
    ensures
        r == email_ok(email@),
{
    str_contains_char(email, '@') && str_contains_char(email, '.')
}

/// Decides whether a password has at least six characters.
pub fn is_valid_password(password: &str) -> (r: bool)
    ensures
        r == password_ok(password@),
{
    password.unicode_len() >= 6
}

/// The first rule that a new user breaks, in the order first name, last
/// name, email address, password.
pub open spec fn new_user_error(user: NewUser) -> Option<ValidationError> {
    if is_blank(user.first_name@) {
        Some(ValidationError::EmptyFirstName)
    } else if is_blank(user.last_name@) {
        Some(ValidationError::EmptyLastName)
    } else if !email_ok(user.email@) {
        Some(ValidationError::InvalidEmail)
    } else if !password_ok(user.password@) {
        Some(ValidationError::PasswordTooShort)
    } else {
        None
    }
}

/// Checks what was submitted to create a user.
pub fn validate_new_user(user: &NewUser) -> (r: Result<(), ValidationError>)
    ensures
        r == rejection(new_user_error(*user)),
        r is Ok <==> user.valid(),
{
    if str_is_blank(user.first_name.as_str()) {
        Err(ValidationError::EmptyFirstName)
    } else if str_is_blank(user.last_name.as_str()) {
        Err(ValidationError::EmptyLastName)
    } else if !is_valid_email(user.email.as_str()) {
        Err(ValidationError::InvalidEmail)
    } else if !is_valid_password(user.password.as_str()) {
        Err(ValidationError::PasswordTooShort)
    } else {
        Ok(())
    }
}

/// A check fails with the first broken rule, or passes.
pub open spec fn rejection(error: Option<ValidationError>) -> Result<(), ValidationError> {
    match error {
        Some(e) => Err(e),
        None => Ok(()),
    }
}

/// The rule that a supplied text breaks: `error` where it is blank. A text
/// that was not supplied breaks none.
pub open spec fn blank_error(text: Option<String>, error: ValidationError) -> Option<
    ValidationError,
> {
    match text {
        Some(t) => if is_blank(t@) {
            Some(error)
        } else {
            None
        },
        None => None,
    }
}

/// The first rule that a change to a user breaks, in the order first name,
/// last name, email address, password. Only supplied fields are judged.
pub open spec fn update_user_error(patch: UpdateUser) -> Option<ValidationError> {
    if blank_error(patch.first_name, ValidationError::EmptyFirstName) is Some {
        Some(ValidationError::EmptyFirstName)
    } else if blank_error(patch.last_name, ValidationError::EmptyLastName) is Some {
        Some(ValidationError::EmptyLastName)
    } else if patch.email matches Some(email) && !email_ok(email@) {
        Some(ValidationError::InvalidEmail)
    } else if patch.password matches Some(password) && !password_ok(password@) {
        Some(ValidationError::PasswordTooShort)
    } else {
        None
    }
}

/// Decides whether a text was supplied and is blank.
pub fn supplied_blank(text: &Option<String>) -> (r: bool)
    ensures
        r == (*text matches Some(t) && is_blank(t@)),
{
    match text {
        Some(t) => str_is_blank(t.as_str()),
        None => false,
    }
}

/// Checks what was submitted to change a user.
pub fn validate_update_user(patch: &UpdateUser) -> (r: Result<(), ValidationError>)
    ensures
        r == rejection(update_user_error(*patch)),
{
    if supplied_blank(&patch.first_name) {
        return Err(ValidationError::EmptyFirstName);
    }
    if supplied_blank(&patch.last_name) {
        return Err(ValidationError::EmptyLastName);
    }
    match &patch.email {
        Some(email) => {
            if !is_valid_email(email.as_str()) {
                return Err(ValidationError::InvalidEmail);
            }
        },
        None => {},
    }
    match &patch.password {
        Some(password) => {
            if !is_valid_password(password.as_str()) {
                return Err(ValidationError::PasswordTooShort);
            }
        },
        None => {},
    }
    Ok(())
}

/// What a request to create an income record of `user_id` stands for: the
/// record to create, or the first rule that the request breaks, in the order
/// source, amount, date.
pub open spec fn new_income_of(user_id: RecordId, request: CreateIncomeRequest) -> Result<
    NewIncome,
    ValidationError,
> {
    if is_blank(request.source@) {
        Err(ValidationError::EmptySource)
    } else {
        match amount_of(request.amount@) {
            Err(e) => Err(e),
            Ok(amount) => match date_of(request.date@) {
                Err(e) => Err(e),
                Ok(date) => Ok(
                    NewIncome {
                        user_id,
                        source: request.source,
                        amount,
                        date,
                        description: request.description,
                    },
                ),
            },
        }
    }
}

/// Checks a request to create an income record of `user_id` and turns it
/// into the record to create.
pub fn validate_create_income(user_id: RecordId, request: CreateIncomeRequest) -> (r: Result<
    NewIncome,
    ValidationError,
>)
    ensures
        r == new_income_of(user_id, request),
        r matches Ok(new_income) ==> new_income.valid(),
{
    if str_is_blank(request.source.as_str()) {
        return Err(ValidationError::EmptySource);
    }
    let amount = match parse_amount(request.amount.as_str()) {
        Ok(amount) => amount,
        Err(e) => {
            return Err(e);
        },
    };
    let date = match parse_date(request.date.as_str()) {
        Ok(date) => date,
        Err(e) => {
            return Err(e);
        },
    };
    Ok(
        NewIncome {
            user_id,
            source: request.source,
            amount,
            date,
            description: request.description,
        },
    )
}

/// What a supplied amount stands for; an amount that was not supplied
/// stands for no change.
pub open spec fn supplied_amount_of(raw: Option<String>) -> Result<
    Option<PgDecimal>,
    ValidationError,
> {
    match raw {
        None => Ok(None),
        Some(text) => match amount_of(text@) {
            Ok(amount) => Ok(Some(amount)),
            Err(e) => Err(e),
        },
    }
}

/// What a supplied date stands for; a date that was not supplied stands for
/// no change.
pub open spec fn supplied_date_of(raw: Option<String>) -> Result<Option<Date>, ValidationError> {
    match raw {
        None => Ok(None),
        Some(text) => match date_of(text@) {
            Ok(date) => Ok(Some(date)),
            Err(e) => Err(e),
        },
    }
}

/// Reads an amount if one was supplied.
pub fn parse_supplied_amount(raw: &Option<String>) -> (r: Result<
    Option<PgDecimal>,
    ValidationError,
>)
    ensures
        r == supplied_amount_of(*raw),
        r matches Ok(Some(d)) ==> d.wf() && d.positive(),
{
    match raw {
        None => Ok(None),
        Some(text) => match parse_amount(text.as_str()) {
            Ok(amount) => Ok(Some(amount)),
            Err(e) => Err(e),
        },
    }
}

/// Reads a date if one was supplied.
pub fn parse_supplied_date(raw: &Option<String>) -> (r: Result<Option<Date>, ValidationError>)
    ensures
        r == supplied_date_of(*raw),
{
    match raw {
        None => Ok(None),
        Some(text) => match parse_date(text.as_str()) {
            Ok(date) => Ok(Some(date)),
            Err(e) => Err(e),
        },
    }
}

/// What a request to change an income record stands for: the change to
/// make, or the first rule that a supplied field breaks, in the order source,
/// amount, date. A field that was not supplied breaks no rule and changes
/// nothing.
pub open spec fn update_income_of(request: UpdateIncomeRequest) -> Result<
    UpdateIncome,
    ValidationError,
> {
    if blank_error(request.source, ValidationError::EmptySource) is Some {
        Err(ValidationError::EmptySource)
    } else {
        match supplied_amount_of(request.amount) {
            Err(e) => Err(e),
            Ok(amount) => match supplied_date_of(request.date) {
                Err(e) => Err(e),
                Ok(date) => Ok(
                    UpdateIncome {
                        source: request.source,
                        amount,
                        date,
                        description: request.description,
                    },
                ),
            },
        }
    }
}

/// Checks a request to change an income record and turns it into the change
/// to make.
pub fn validate_update_income(request: UpdateIncomeRequest) -> (r: Result<
    UpdateIncome,
    ValidationError,
>)
    ensures
        r == update_income_of(request),
        r matches Ok(patch) ==> patch.valid(),
{
    if supplied_blank(&request.source) {
        return Err(ValidationError::EmptySource);
    }
    let amount = match parse_supplied_amount(&request.amount) {
        Ok(amount) => amount,
        Err(e) => {
            return Err(e);
        },
    };
    let date = match parse_supplied_date(&request.date) {
        Ok(date) => date,
        Err(e) => {
            return Err(e);
        },
    };
    Ok(UpdateIncome { source: request.source, amount, date, description: request.description })
}

/// What a request to create an expense record of `user_id` stands for: the
/// record to create, or the first rule that the request breaks, in the order
/// item name, amount, date. A date that was left out breaks no rule.
pub open spec fn new_expense_of(user_id: RecordId, request: CreateExpenseRequest) -> Result<
    NewExpense,
    ValidationError,
> {
    if is_blank(request.item_name@) {
        Err(ValidationError::EmptyItemName)
    } else {
        match amount_of(request.amount@) {
            Err(e) => Err(e),
            Ok(amount) => match supplied_date_of(request.date) {
                Err(e) => Err(e),
                Ok(date) => Ok(
                    NewExpense {
                        user_id,
                        item_name: request.item_name,
                        amount,
                        date,
                        description: request.description,
                    },
                ),
            },
        }
    }
}

/// Checks a request to create an expense record of `user_id` and turns it
/// into the record to create.
pub fn validate_create_expense(user_id: RecordId, request: CreateExpenseRequest) -> (r: Result<
    NewExpense,
    ValidationError,
>)
    ensures
        r == new_expense_of(user_id, request),
        r matches Ok(new_expense) ==> new_expense.valid(),
{
    if str_is_blank(request.item_name.as_str()) {
        return Err(ValidationError::EmptyItemName);
    }
    let amount = match parse_amount(request.amount.as_str()) {
        Ok(amount) => amount,
        Err(e) => {
            return Err(e);
        },
    };
    let date = match parse_supplied_date(&request.date) {
        Ok(date) => date,
        Err(e) => {
            return Err(e);
        },
    };
    Ok(
        NewExpense {
            user_id,
            item_name: request.item_name,
            amount,
            date,
            description: request.description,
        },
    )
}

/// What a request to change an expense record stands for: the change to
/// make, or the first rule that a supplied field breaks, in the order item name,
/// amount, date. A field that was not supplied breaks no rule and changes
/// nothing.
pub open spec fn update_expense_of(request: UpdateExpenseRequest) -> Result<
    UpdateExpense,
    ValidationError,
> {
    if blank_error(request.item_name, ValidationError::EmptyItemName) is Some {
        Err(ValidationError::EmptyItemName)
    } else {
        match supplied_amount_of(request.amount) {
            Err(e) => Err(e),
            Ok(amount) => match supplied_date_of(request.date) {
                Err(e) => Err(e),
                Ok(date) => Ok(
                    UpdateExpense {
                        item_name: request.item_name,
                        amount,
                        date,
                        description: request.description,
                        updated_at: None,
                    },
                ),
            },
        }
    }
}

/// Checks a request to change an expense record and turns it into the change
/// to make.
pub fn validate_update_expense(request: UpdateExpenseRequest) -> (r: Result<
    UpdateExpense,
    ValidationError,
>)
    ensures
        r == update_expense_of(request),
        r matches Ok(patch) ==> patch.valid(),
{
    if supplied_blank(&request.item_name) {
        return Err(ValidationError::EmptyItemName);
    }
    let amount = match parse_supplied_amount(&request.amount) {
        Ok(amount) => amount,
        Err(e) => {
            return Err(e);
        },
    };
    let date = match parse_supplied_date(&request.date) {
        Ok(date) => date,
        Err(e) => {
            return Err(e);
        },
    };
    Ok(
        UpdateExpense {
            item_name: request.item_name,
            amount,
            date,
            description: request.description,
            updated_at: None,
        },
    )
}

} // verus!
