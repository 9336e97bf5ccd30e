//! Money paid into and out of an account.
use crate::account;
use crate::account::{AccountQars2Ext, QA_Account};
use crate::amounts;
use crate::clock::{Clock, ClockReading};
use crate::orders::ExchangeError;
use crate::service;
use crate::service::ApiError;
use crate::text;
use vstd::prelude::*;

verus! {

/// Whether a character is a hexadecimal digit in lower case.
pub open spec fn hex_digit(c: char) -> bool {
    ('0' <= c && c <= '9') || ('a' <= c && c <= 'f')
}

/// Whether a text is a universally unique identifier with hyphens: groups of 8,
/// 4, 4, 4 and 12 hexadecimal digits.
pub open spec fn is_uuid(s: Seq<char>) -> bool {
    s.len() == 36 && forall|i: int|
        0 <= i < 36 ==> if i == 8 || i == 13 || i == 18 || i == 23 {
            #[trigger] s[i] == '-'
        } else {
            hex_digit(s[i])
        }
}

/// `uuid::Uuid::new_v4` and its text: a random identifier in hyphenated form.
#[verifier::external_body]
fn new_transfer_id() -> (r: String)
    ensures
        is_uuid(r@),
{
    uuid::Uuid::new_v4().to_string()
}

/// A payment, as the account keeps it.
#[derive(Debug)]
pub struct TransferRecord<S = String> {
    pub id: S,
    /// Milliseconds since the epoch.
    pub datetime: i64,
    pub currency: S,
    /// Positive for a payment in, negative for a payment out.
    pub amount: i64,
    pub error_id: i32,
    pub error_msg: S,
    pub bank_id: S,
    pub bank_name: S,
}

impl View for TransferRecord<String> {
    type V = TransferRecord<Seq<char>>;

    open spec fn view(&self) -> TransferRecord<Seq<char>> {
        TransferRecord {
            id: self.id@,
            datetime: self.datetime,
            currency: self.currency@,
            amount: self.amount,
            error_id: self.error_id,
            error_msg: self.error_msg@,
            bank_id: self.bank_id@,
            bank_name: self.bank_name@,
        }
    }
}

/// Whose money is paid.
#[derive(Debug)]
pub enum TransferTarget<S = String> {
    /// That of an account.
    Account { account_id: S },
    /// That of the only account of a user.
    User { user_id: S },
}

impl View for TransferTarget<String> {
    type V = TransferTarget<Seq<char>>;

    open spec fn view(&self) -> TransferTarget<Seq<char>> {
        match self {
            TransferTarget::Account { account_id } => TransferTarget::Account {
                account_id: account_id@,
            },
            TransferTarget::User { user_id } => TransferTarget::User { user_id: user_id@ },
        }
    }
}

/// Whose money an identifier means: that of an account where it starts with
/// `ACC_`, else that of a user.
pub open spec fn target_of(id: Seq<char>) -> TransferTarget<Seq<char>> {
    if text::begins_with(id, "ACC_"@) {
        TransferTarget::Account { account_id: id }
    } else {
        TransferTarget::User { user_id: id }
    }
}

/// Says whose money an identifier means.
pub fn transfer_target(id: &str) -> (r: TransferTarget)
    ensures
        r@ == target_of(id@),
{
    if text::has_prefix(id, "ACC_") {
        TransferTarget::Account { account_id: id.to_string() }
    } else {
        TransferTarget::User { user_id: id.to_string() }
    }
}

/// The answer when there is no account.
pub open spec fn account_missing(cause: ExchangeError<Seq<char>>) -> ApiError<Seq<char>> {
    service::not_found("Account not found: "@ + cause.debug_form())
}

/// Makes the answer when there is no account.
pub fn account_not_found(cause: &ExchangeError) -> (r: ApiError)
    ensures
        r@ == account_missing(cause@),
{
    service::missing(text::joined("Account not found: ", &cause.debug_text()))
}

/// The only account of a user; where there is none or more than one, the error.
pub open spec fn sole_account_of(user_id: Seq<char>, ids: Seq<Seq<char>>) -> Result<
    Seq<char>,
    ApiError<Seq<char>>,
> {
    if ids.len() == 0 {
        Err(
            account_missing(
                ExchangeError::AccountError("No accounts found for user: "@ + user_id),
            ),
        )
    } else if ids.len() > 1 {
        Err(
            service::bad_request(
                400,
                "User has "@ + text::digits(ids.len()) + " accounts, please specify account_id: "@
                    + text::debug_list(ids),
            ),
        )
    } else {
        Ok(ids[0])
    }
}

/// Finds the only account of a user.
pub fn sole_account(user_id: &str, ids: &Vec<String>) -> (r: Result<String, ApiError>)
    ensures
        match (r, sole_account_of(user_id@, text::texts(ids@))) {
            (Ok(a), Ok(b)) => a@ == b,
            (Err(a), Err(b)) => a@ == b,
            _ => false,
        },
{
    if ids.len() == 0 {
        let cause: ExchangeError = ExchangeError::AccountError(
            text::joined("No accounts found for user: ", user_id),
        );
        Err(account_not_found(&cause))
    } else if ids.len() > 1 {
        let head: String = text::joined("User has ", &text::digits_text(ids.len() as u128));
        let mid: String = text::joined(&head, " accounts, please specify account_id: ");
        Err(service::bad(400, text::joined(&mid, &text::debug_list_text(ids))))
    } else {
        Ok(ids[0].clone())
    }
}

/// The record of a payment in.
pub open spec fn deposit_record(id: Seq<char>, millis: i64, amount: i64) -> TransferRecord<
    Seq<char>,
> {
    TransferRecord {
        id,
        datetime: millis,
        currency: "CNY"@,
        amount,
        error_id: 0,
        error_msg: "入金成功"@,
        bank_id: "API"@,
        bank_name: "API入金"@,
    }
}

/// The record of a payment out.
pub open spec fn withdraw_record(id: Seq<char>, millis: i64, amount: i64) -> TransferRecord<
    Seq<char>,
> {
    TransferRecord {
        id,
        datetime: millis,
        currency: "CNY"@,
        amount: amounts::clamp64(-amount) as i64,
        error_id: 0,
        error_msg: "出金成功"@,
        bank_id: "API"@,
        bank_name: "API出金"@,
    }
}

/// Pays money into an account, and records it under an identifier and a time.
pub fn deposit_at(account: &mut QA_Account, amount: i64, id: String, millis: i64) -> (r: TransferRecord)
    ensures
        final(account)@ == account::deposited(old(account)@, amount as int),
        r@ == deposit_record(id@, millis, amount),
{
    account.deposit(amount);
    TransferRecord {
        id,
        datetime: millis,
        currency: "CNY".to_string(),
        amount,
        error_id: 0,
        error_msg: "入金成功".to_string(),
        bank_id: "API".to_string(),
        bank_name: "API入金".to_string(),
    }
}

/// Pays money into an account, and records it.
pub fn deposit(account: &mut QA_Account, amount: i64, clock: &Clock) -> (r: TransferRecord)
    ensures
        final(account)@ == account::deposited(old(account)@, amount as int),
        is_uuid(r@.id),
        r@ == deposit_record(r@.id, r@.datetime, amount),
{
    let reading: ClockReading = clock.read();
    deposit_at(account, amount, new_transfer_id(), reading.millis)
}

/// A payment out of an account, if it is available: the account after it, and its
/// record or the error.
pub open spec fn withdrawal(a: account::AccountView, amount: i64, id: Seq<char>, millis: i64) -> (
    account::AccountView,
    Result<TransferRecord<Seq<char>>, ApiError<Seq<char>>>,
) {
    if amount <= a.money {
        (account::withdrawn(a, amount as int), Ok(withdraw_record(id, millis, amount)))
    } else {
        (a, Err(service::bad_request(400, "Insufficient available balance"@)))
    }
}

/// Pays money out of an account, if it is available, and records it under an
/// identifier and a time.
pub fn withdraw_at(account: &mut QA_Account, amount: i64, id: String, millis: i64) -> (r: Result<
    TransferRecord,
    ApiError,
>)
    ensures
        match r {
            Ok(record) => amount <= old(account)@.money && final(account)@ == account::withdrawn(
                old(account)@,
                amount as int,
            ) && record@ == withdraw_record(id@, millis, amount),
            Err(e) => old(account)@.money < amount && final(account)@ == old(account)@ && e@
                == service::bad_request(400, "Insufficient available balance"@),
        },
        final(account)@ == withdrawal(old(account)@, amount, id@, millis).0,
        match (r, withdrawal(old(account)@, amount, id@, millis).1) {
            (Ok(a), Ok(b)) => a@ == b,
            (Err(a), Err(b)) => a@ == b,
            _ => false,
        },
{
    if account.money < amount {
        return Err(service::bad(400, "Insufficient available balance".to_string()));
    }
    account.withdraw(amount);
    Ok(
        TransferRecord {
            id,
            datetime: millis,
            currency: "CNY".to_string(),
            amount: amounts::minus(0, amount),
            error_id: 0,
            error_msg: "出金成功".to_string(),
            bank_id: "API".to_string(),
            bank_name: "API出金".to_string(),
        },
    )
}

/// Pays money out of an account, if it is available, and records it.
pub fn withdraw(account: &mut QA_Account, amount: i64, clock: &Clock) -> (r: Result<
    TransferRecord,
    ApiError,
>)
    ensures
        match r {
            Ok(record) => amount <= old(account)@.money && final(account)@ == account::withdrawn(
                old(account)@,
                amount as int,
            ) && is_uuid(record@.id) && record@ == withdraw_record(
                record@.id,
                record@.datetime,
                amount,
            ),
            Err(e) => old(account)@.money < amount && final(account)@ == old(account)@ && e@
                == service::bad_request(400, "Insufficient available balance"@),
        },
{
    let reading: ClockReading = clock.read();
    withdraw_at(account, amount, new_transfer_id(), reading.millis)
}

/// A payment that is made never overdraws the account.
pub proof fn withdrawals_are_covered(a: account::AccountView, amount: int)
    requires
        amount <= a.money,
    ensures
        account::withdrawn(a, amount).money >= 0,
{
}

/// A payment is recorded under its identifier and at its time: a payment in with its
/// amount, a payment out with its amount below zero; both in yuan, without an error.
pub proof fn payments_are_recorded(id: Seq<char>, millis: i64, amount: i64)
    requires
        amount > i64::MIN,
    ensures
        deposit_record(id, millis, amount).amount == amount,
        withdraw_record(id, millis, amount).amount == -amount,
        deposit_record(id, millis, amount).amount + withdraw_record(id, millis, amount).amount == 0,
        deposit_record(id, millis, amount).id == id,
        withdraw_record(id, millis, amount).id == id,
        deposit_record(id, millis, amount).datetime == millis,
        withdraw_record(id, millis, amount).datetime == millis,
        deposit_record(id, millis, amount).currency == "CNY"@,
        withdraw_record(id, millis, amount).currency == "CNY"@,
        deposit_record(id, millis, amount).error_id == 0,
        withdraw_record(id, millis, amount).error_id == 0,
        deposit_record(id, millis, amount).error_msg == "入金成功"@,
        withdraw_record(id, millis, amount).error_msg == "出金成功"@,
        deposit_record(id, millis, amount).bank_id == "API"@,
        withdraw_record(id, millis, amount).bank_id == "API"@,
        deposit_record(id, millis, amount).bank_name == "API入金"@,
        withdraw_record(id, millis, amount).bank_name == "API出金"@,
{
}

/// An identifier means an account exactly where its first characters are `ACC_`, and
/// a user elsewhere; it is kept as it is.
pub proof fn identifiers_mean_accounts_or_users(id: Seq<char>)
    ensures
        ({
            let marked = id.len() >= 4 && id[0] == 'A' && id[1] == 'C' && id[2] == 'C' && id[3]
                == '_';
            &&& marked ==> (target_of(id) matches TransferTarget::Account { account_id } && account_id
                == id)
            &&& !marked ==> (target_of(id) matches TransferTarget::User { user_id } && user_id
                == id)
        }),
{
    reveal_strlit("ACC_");
    if id.len() >= 4 {
        assert(id.take(4)[0] == id[0] && id.take(4)[1] == id[1] && id.take(4)[2] == id[2]
            && id.take(4)[3] == id[3]);
        if id[0] == 'A' && id[1] == 'C' && id[2] == 'C' && id[3] == '_' {
            assert(id.take(4) =~= "ACC_"@);
        }
    }
}

/// The account of a user is found exactly where the user has one and no more; a user
/// without one is told so, and a user with more is to say which.
pub proof fn users_with_one_account_need_not_name_it(user_id: Seq<char>, ids: Seq<Seq<char>>)
    ensures
        sole_account_of(user_id, ids) is Ok <==> ids.len() == 1,
        sole_account_of(user_id, ids) matches Ok(id) ==> ids == seq![id],
        ids.len() == 0 ==> (sole_account_of(user_id, ids) matches Err(e) && e.http_status == 404),
        ids.len() > 1 ==> (sole_account_of(user_id, ids) matches Err(e) && e.http_status == 400
            && e.code == 400),
{
    if ids.len() == 1 {
        assert(ids =~= seq![ids[0]]);
    }
}

/// A payment in adds to the available money, and a payment out takes from it, by its
/// amount; no money is made or lost between the two totals and the available money.
pub proof fn payments_move_their_amount(a: account::AccountView, amount: int)
    requires
        i64::MIN <= a.money + amount <= i64::MAX,
        i64::MIN <= a.money - amount <= i64::MAX,
        i64::MIN <= a.accounts.deposit + amount <= i64::MAX,
        i64::MIN <= a.accounts.withdraw + amount <= i64::MAX,
    ensures
        account::deposited(a, amount).money == a.money + amount,
        account::deposited(a, amount).accounts.deposit == a.accounts.deposit + amount,
        account::deposited(a, amount).accounts.withdraw == a.accounts.withdraw,
        account::withdrawn(a, amount).money == a.money - amount,
        account::withdrawn(a, amount).accounts.withdraw == a.accounts.withdraw + amount,
        account::withdrawn(a, amount).accounts.deposit == a.accounts.deposit,
        account::deposited(a, amount).accounts.balance == a.accounts.balance,
        account::withdrawn(a, amount).accounts.balance == a.accounts.balance,
        account::deposited(a, amount).frozen == a.frozen,
        account::withdrawn(a, amount).frozen == a.frozen,
        account::deposited(a, amount).dailyorders == a.dailyorders,
        account::withdrawn(a, amount).dailyorders == a.dailyorders,
        account::deposited(a, amount).account_cookie == a.account_cookie,
        account::withdrawn(a, amount).account_cookie == a.account_cookie,
{
}

/// Where there is no account, the answer is that it was not found, with the cause; a
/// user without one is told the name of the user.
pub proof fn missing_accounts_are_named(user_id: Seq<char>, cause: ExchangeError<Seq<char>>)
    ensures
        account_missing(cause).http_status == 404,
        account_missing(cause).code == 404,
        account_missing(cause).message == "Account not found: "@ + cause.debug_form(),
        sole_account_of(user_id, Seq::empty()) matches Err(e) && e.message == "Account not found: "@
            + ExchangeError::AccountError("No accounts found for user: "@ + user_id).debug_form(),
{
}

/// A user with more accounts is told how many they are, and which.
pub proof fn users_are_told_their_accounts(user_id: Seq<char>, ids: Seq<Seq<char>>)
    requires
        ids.len() > 1,
    ensures
        sole_account_of(user_id, ids) matches Err(e) && e.message == "User has "@ + text::digits(
            ids.len(),
        ) + " accounts, please specify account_id: "@ + text::debug_list(ids),
{
}

/// All money that is available can be paid out, and no more. Of a payment that is not
/// made nothing changes; one that is made takes its amount, and is recorded with it.
pub proof fn available_money_can_be_paid_out(
    a: account::AccountView,
    amount: i64,
    id: Seq<char>,
    millis: i64,
)
    requires
        a.money >= 0,
        amount > 0,
    ensures
        ({
            let (b, r) = withdrawal(a, amount, id, millis);
            &&& r is Ok <==> amount <= a.money
            &&& r is Err ==> b == a
            &&& r matches Ok(record) ==> b.money == a.money - amount && record.amount == b.money
                - a.money
            &&& r matches Err(e) ==> e.http_status == 400
            &&& b.money >= 0
        }),
{
}

} // verus!
