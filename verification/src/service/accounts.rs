//! Accounts: how they are opened, shown, and found for a request.
use crate::amounts;
use crate::orders::ExchangeError;
use crate::service;
use crate::service::ApiError;
use crate::text;
use vstd::prelude::*;

verus! {

/// Who an account is for.
#[derive(Debug, Clone, Copy, PartialEq, Eq, Structural)]
pub enum AccountType {
    Individual,
    Institutional,
    MarketMaker,
}

impl AccountType {
    /// The name of the variant.
    pub open spec fn name(self) -> Seq<char> {
        match self {
            AccountType::Individual => "Individual"@,
            AccountType::Institutional => "Institutional"@,
            AccountType::MarketMaker => "MarketMaker"@,
        }
    }

    /// The name of the variant in lower case.
    pub open spec fn lower_name(self) -> Seq<char> {
        match self {
            AccountType::Individual => "individual"@,
            AccountType::Institutional => "institutional"@,
            AccountType::MarketMaker => "marketmaker"@,
        }
    }

    /// Writes the name of the variant.
    pub fn name_text(&self) -> (r: String)
        ensures
            r@ == self.name(),
    {
        match self {
            AccountType::Individual => "Individual".to_string(),
            AccountType::Institutional => "Institutional".to_string(),
            AccountType::MarketMaker => "MarketMaker".to_string(),
        }
    }

    /// Writes the name of the variant in lower case.
    pub fn lower_name_text(&self) -> (r: String)
        ensures
            r@ == self.lower_name(),
    {
        match self {
            AccountType::Individual => "individual".to_string(),
            AccountType::Institutional => "institutional".to_string(),
            AccountType::MarketMaker => "marketmaker".to_string(),
        }
    }
}

/// What an account is opened with.
#[derive(Debug)]
pub struct OpenAccountRequest<S = String> {
    pub user_id: S,
    /// Made by the account layer where there is none.
    pub account_id: Option<S>,
    pub account_name: S,
    /// In ten-thousandths.
    pub init_cash: i64,
    pub account_type: AccountType,
}

impl View for OpenAccountRequest<String> {
    type V = OpenAccountRequest<Seq<char>>;

    open spec fn view(&self) -> OpenAccountRequest<Seq<char>> {
        OpenAccountRequest {
            user_id: self.user_id@,
            account_id: text::opt_text(self.account_id),
            account_name: self.account_name@,
            init_cash: self.init_cash,
            account_type: self.account_type,
        }
    }
}

/// The kind of account that a word names when a client opens one.
pub open spec fn client_account_type(word: Seq<char>) -> Option<AccountType> {
    if word == "individual"@ {
        Some(AccountType::Individual)
    } else if word == "institutional"@ {
        Some(AccountType::Institutional)
    } else {
        None
    }
}

/// The kind of account that a word names when one is made for a user.
pub open spec fn user_account_type(word: Seq<char>) -> Option<AccountType> {
    if word == "market_maker"@ {
        Some(AccountType::MarketMaker)
    } else {
        client_account_type(word)
    }
}

/// What an account is opened with, or the error for a word that names no kind of
/// account.
pub open spec fn opening(
    user_id: Seq<char>,
    account_name: Seq<char>,
    init_cash: i64,
    kind: Option<AccountType>,
) -> Result<OpenAccountRequest<Seq<char>>, ApiError<Seq<char>>> {
    match kind {
        Some(account_type) => Ok(
            OpenAccountRequest { user_id, account_id: None, account_name, init_cash, account_type },
        ),
        None => Err(service::bad_request(400, "Invalid account type"@)),
    }
}

/// The view of what an account is opened with.
pub open spec fn opening_view(r: Result<OpenAccountRequest, ApiError>) -> Result<
    OpenAccountRequest<Seq<char>>,
    ApiError<Seq<char>>,
> {
    match r {
        Ok(x) => Ok(x@),
        Err(e) => Err(e@),
    }
}

fn open_as(user_id: &str, account_name: &str, init_cash: i64, kind: Option<AccountType>) -> (r: Result<
    OpenAccountRequest,
    ApiError,
>)
    ensures
        opening_view(r) == opening(user_id@, account_name@, init_cash, kind),
{
    match kind {
        Some(account_type) => Ok(
            OpenAccountRequest {
                user_id: user_id.to_string(),
                account_id: None,
                account_name: account_name.to_string(),
                init_cash,
                account_type,
            },
        ),
        None => Err(service::bad(400, "Invalid account type".to_string())),
    }
}

fn client_type(word: &str) -> (r: Option<AccountType>)
    ensures
        r == client_account_type(word@),
{
    if text::same(word, "individual") {
        Some(AccountType::Individual)
    } else if text::same(word, "institutional") {
        Some(AccountType::Institutional)
    } else {
        None
    }
}

/// What the account of a client is opened with.
pub fn open_account(user_id: &str, user_name: &str, init_cash: i64, account_type: &str) -> (r: Result<
    OpenAccountRequest,
    ApiError,
>)
    ensures
        opening_view(r) == opening(
            user_id@,
            user_name@,
            init_cash,
            client_account_type(account_type@),
        ),
{
    open_as(user_id, user_name, init_cash, client_type(account_type))
}

/// What another account of a user is opened with.
pub fn create_user_account(user_id: &str, account_name: &str, init_cash: i64, account_type: &str) -> (r:
    Result<OpenAccountRequest, ApiError>)
    ensures
        opening_view(r) == opening(
            user_id@,
            account_name@,
            init_cash,
            user_account_type(account_type@),
        ),
{
    let kind: Option<AccountType> = if text::same(account_type, "market_maker") {
        Some(AccountType::MarketMaker)
    } else {
        client_type(account_type)
    };
    open_as(user_id, account_name, init_cash, kind)
}

/// The answer to an attempt to open an account.
pub open spec fn opened(attempt: Seq<char>, said: Result<Seq<char>, ExchangeError<Seq<char>>>) -> Result<
    Seq<char>,
    ApiError<Seq<char>>,
> {
    match said {
        Ok(account_id) => Ok(account_id),
        Err(e) => Err(
            ApiError { http_status: 500, code: 500, message: attempt + e.debug_form() },
        ),
    }
}

/// The view of what the account layer said to an attempt to open an account.
pub open spec fn attempt_view(r: Result<String, ExchangeError>) -> Result<
    Seq<char>,
    ExchangeError<Seq<char>>,
> {
    match r {
        Ok(id) => Ok(id@),
        Err(e) => Err(e@),
    }
}

/// The view of an answer that is a text.
pub open spec fn answer_view(r: Result<String, ApiError>) -> Result<Seq<char>, ApiError<Seq<char>>> {
    match r {
        Ok(id) => Ok(id@),
        Err(e) => Err(e@),
    }
}

fn open_answer(attempt: &str, said: Result<String, ExchangeError>) -> (r: Result<String, ApiError>)
    ensures
        answer_view(r) == opened(attempt@, attempt_view(said)),
{
    match said {
        Ok(account_id) => Ok(account_id),
        Err(e) => Err(
            ApiError {
                http_status: 500,
                code: 500,
                message: text::joined(attempt, &e.debug_text()),
            },
        ),
    }
}

/// The answer to a client that opens an account.
pub fn open_account_reply(said: Result<String, ExchangeError>) -> (r: Result<String, ApiError>)
    ensures
        answer_view(r) == opened("Failed to open account: "@, attempt_view(said)),
{
    open_answer("Failed to open account: ", said)
}

/// The answer to a request for another account of a user.
pub fn create_user_account_reply(said: Result<String, ExchangeError>) -> (r: Result<String, ApiError>)
    ensures
        answer_view(r) == opened("Failed to create account: "@, attempt_view(said)),
{
    open_answer("Failed to create account: ", said)
}

/// What the account layer knows of the money of an account.
#[derive(Debug)]
pub struct AccountFigures<S = String> {
    pub account_id: S,
    pub balance: i64,
    /// The available money.
    pub money: i64,
    pub close_profit: i64,
    pub risk_ratio: i64,
    /// The margin of all positions.
    pub position_margin: i64,
    /// The margin of all open orders.
    pub frozen_margin: i64,
}

impl View for AccountFigures<String> {
    type V = AccountFigures<Seq<char>>;

    open spec fn view(&self) -> AccountFigures<Seq<char>> {
        AccountFigures {
            account_id: self.account_id@,
            balance: self.balance,
            money: self.money,
            close_profit: self.close_profit,
            risk_ratio: self.risk_ratio,
            position_margin: self.position_margin,
            frozen_margin: self.frozen_margin,
        }
    }
}

/// What is kept of an account besides its money.
#[derive(Debug)]
pub struct AccountMetadata<S = String> {
    pub account_name: S,
    pub account_type: AccountType,
    pub created_at: i64,
}

impl View for AccountMetadata<String> {
    type V = AccountMetadata<Seq<char>>;

    open spec fn view(&self) -> AccountMetadata<Seq<char>> {
        AccountMetadata {
            account_name: self.account_name@,
            account_type: self.account_type,
            created_at: self.created_at,
        }
    }
}

/// What is shown of an account.
#[derive(Debug)]
pub struct AccountInfo<S = String> {
    pub user_id: S,
    pub user_name: S,
    pub balance: i64,
    pub available: i64,
    pub frozen: i64,
    pub margin: i64,
    pub profit: i64,
    pub risk_ratio: i64,
    pub account_type: S,
    pub created_at: i64,
}

impl View for AccountInfo<String> {
    type V = AccountInfo<Seq<char>>;

    open spec fn view(&self) -> AccountInfo<Seq<char>> {
        AccountInfo {
            user_id: self.user_id@,
            user_name: self.user_name@,
            balance: self.balance,
            available: self.available,
            frozen: self.frozen,
            margin: self.margin,
            profit: self.profit,
            risk_ratio: self.risk_ratio,
            account_type: self.account_type@,
            created_at: self.created_at,
        }
    }
}

/// What is kept of an account, or what stands for it where nothing is kept: an
/// individual account, named by its identifier.
pub open spec fn metadata_or(
    metadata: Option<AccountMetadata<Seq<char>>>,
    account_id: Seq<char>,
) -> AccountMetadata<Seq<char>> {
    match metadata {
        Some(m) => m,
        None => AccountMetadata {
            account_name: account_id,
            account_type: AccountType::Individual,
            created_at: 0,
        },
    }
}

/// The view of what is kept of an account, where something is.
pub open spec fn metadata_view(m: Option<AccountMetadata>) -> Option<AccountMetadata<Seq<char>>> {
    match m {
        Some(m) => Some(m@),
        None => None,
    }
}

/// What is shown of an account: what is not available counts as frozen, and the
/// margin is that of positions and open orders together.
pub open spec fn account_info(
    f: AccountFigures<Seq<char>>,
    metadata: Option<AccountMetadata<Seq<char>>>,
    account_id: Seq<char>,
) -> AccountInfo<Seq<char>> {
    let m = metadata_or(metadata, account_id);
    AccountInfo {
        user_id: f.account_id,
        user_name: m.account_name,
        balance: f.balance,
        available: f.money,
        frozen: amounts::clamp64(f.balance - f.money) as i64,
        margin: amounts::clamp64(f.position_margin + f.frozen_margin) as i64,
        profit: f.close_profit,
        risk_ratio: f.risk_ratio,
        account_type: m.account_type.lower_name(),
        created_at: m.created_at,
    }
}

fn metadata_for(metadata: Option<AccountMetadata>, account_id: &str) -> (r: AccountMetadata)
    ensures
        r@ == metadata_or(metadata_view(metadata), account_id@),
{
    match metadata {
        Some(m) => m,
        None => AccountMetadata {
            account_name: account_id.to_string(),
            account_type: AccountType::Individual,
            created_at: 0,
        },
    }
}

/// Shows an account, or tells that there is none.
pub fn query_account(
    account_id: &str,
    found: Result<AccountFigures, ExchangeError>,
    metadata: Option<AccountMetadata>,
) -> (r: Result<AccountInfo, ApiError>)
    ensures
        match (r, found) {
            (Ok(info), Ok(figures)) => info@ == account_info(
                figures@,
                metadata_view(metadata),
                account_id@,
            ),
            (Err(e), Err(cause)) => e@ == service::not_found(
                "Account not found: "@ + cause@.debug_form(),
            ),
            _ => false,
        },
{
    match found {
        Ok(f) => {
            let m: AccountMetadata = metadata_for(metadata, account_id);
            Ok(
                AccountInfo {
                    user_id: f.account_id,
                    user_name: m.account_name,
                    balance: f.balance,
                    available: f.money,
                    frozen: amounts::minus(f.balance, f.money),
                    margin: amounts::plus(f.position_margin, f.frozen_margin),
                    profit: f.close_profit,
                    risk_ratio: f.risk_ratio,
                    account_type: m.account_type.lower_name_text(),
                    created_at: m.created_at,
                },
            )
        },
        Err(e) => Err(service::missing(text::joined("Account not found: ", &e.debug_text()))),
    }
}

/// What is shown of one of the accounts of a user.
#[derive(Debug)]
pub struct AccountSummary<S = String> {
    pub account_id: S,
    pub account_name: S,
    pub account_type: S,
    pub balance: i64,
    pub available: i64,
    pub margin: i64,
    pub frozen_margin: i64,
    pub risk_ratio: i64,
    pub created_at: i64,
}

impl View for AccountSummary<String> {
    type V = AccountSummary<Seq<char>>;

    open spec fn view(&self) -> AccountSummary<Seq<char>> {
        AccountSummary {
            account_id: self.account_id@,
            account_name: self.account_name@,
            account_type: self.account_type@,
            balance: self.balance,
            available: self.available,
            margin: self.margin,
            frozen_margin: self.frozen_margin,
            risk_ratio: self.risk_ratio,
            created_at: self.created_at,
        }
    }
}

/// What is shown of one of the accounts of a user.
pub open spec fn account_summary(
    f: AccountFigures<Seq<char>>,
    metadata: Option<AccountMetadata<Seq<char>>>,
) -> AccountSummary<Seq<char>> {
    let m = metadata_or(metadata, f.account_id);
    AccountSummary {
        account_id: f.account_id,
        account_name: m.account_name,
        account_type: m.account_type.name(),
        balance: f.balance,
        available: f.money,
        margin: amounts::clamp64(f.position_margin + f.frozen_margin) as i64,
        frozen_margin: f.frozen_margin,
        risk_ratio: f.risk_ratio,
        created_at: m.created_at,
    }
}

/// Shows one of the accounts of a user.
pub fn summarize_account(f: AccountFigures, metadata: Option<AccountMetadata>) -> (r: AccountSummary)
    ensures
        r@ == account_summary(f@, metadata_view(metadata)),
{
    let m: AccountMetadata = metadata_for(metadata, &f.account_id);
    AccountSummary {
        account_id: f.account_id,
        account_name: m.account_name,
        account_type: m.account_type.name_text(),
        balance: f.balance,
        available: f.money,
        margin: amounts::plus(f.position_margin, f.frozen_margin),
        frozen_margin: f.frozen_margin,
        risk_ratio: f.risk_ratio,
        created_at: m.created_at,
    }
}

/// Shows the accounts of a user, in their order.
pub fn get_user_accounts(accounts: Vec<(AccountFigures, Option<AccountMetadata>)>) -> (r: Vec<
    AccountSummary,
>)
    ensures
        r@.map_values(|s: AccountSummary| s@) == accounts@.map_values(
            |a: (AccountFigures, Option<AccountMetadata>)|
                account_summary(a.0@, metadata_view(a.1)),
        ),
{
    let mut left: Vec<(AccountFigures, Option<AccountMetadata>)> = accounts;
    let mut out: Vec<AccountSummary> = Vec::new();
    let ghost shown = accounts@.map_values(
        |a: (AccountFigures, Option<AccountMetadata>)| account_summary(a.0@, metadata_view(a.1)),
    );
    while left.len() > 0
        invariant
            out@.len() + left@.len() == accounts@.len(),
            left@ == accounts@.skip(out@.len() as int),
            shown == accounts@.map_values(
                |a: (AccountFigures, Option<AccountMetadata>)|
                    account_summary(a.0@, metadata_view(a.1)),
            ),
            out@.map_values(|s: AccountSummary| s@) == shown.take(out@.len() as int),
        decreases left@.len(),
    {
        let ghost n = out@.len() as int;
        let (figures, metadata): (AccountFigures, Option<AccountMetadata>) = left.remove(0);
        assert((figures, metadata) == accounts@[n]);
        out.push(summarize_account(figures, metadata));
        assert(left@ =~= accounts@.skip(n + 1));
        assert(out@.map_values(|s: AccountSummary| s@) =~= shown.take(n + 1));
    }
    assert(shown.take(out@.len() as int) =~= shown);
    out
}

/// Which account a request is for.
#[derive(Debug)]
pub enum AccountChoice<S = String> {
    /// The account that it names, if it belongs to the user.
    Named { account_id: S, user_id: S },
    /// The default account of the user.
    Default { user_id: S },
}

impl View for AccountChoice<String> {
    type V = AccountChoice<Seq<char>>;

    open spec fn view(&self) -> AccountChoice<Seq<char>> {
        match self {
            AccountChoice::Named { account_id, user_id } => AccountChoice::Named {
                account_id: account_id@,
                user_id: user_id@,
            },
            AccountChoice::Default { user_id } => AccountChoice::Default { user_id: user_id@ },
        }
    }
}

/// Which account a request is for: the one that it names, or else the default one.
pub open spec fn choice_of(account_id: Option<Seq<char>>, user_id: Seq<char>) -> AccountChoice<
    Seq<char>,
> {
    match account_id {
        Some(account_id) => AccountChoice::Named { account_id, user_id },
        None => AccountChoice::Default { user_id },
    }
}

/// Says which account a request is for.
pub fn choose_account(account_id: &Option<String>, user_id: &str) -> (r: AccountChoice)
    ensures
        r@ == match text::opt_text(*account_id) {
            Some(account_id) => AccountChoice::Named { account_id, user_id: user_id@ },
            None => AccountChoice::Default { user_id: user_id@ },
        },
        r@ == choice_of(text::opt_text(*account_id), user_id@),
{
    match account_id {
        Some(account_id) => AccountChoice::Named {
            account_id: account_id.clone(),
            user_id: user_id.to_string(),
        },
        None => AccountChoice::Default { user_id: user_id.to_string() },
    }
}

/// The account of a request, given what the account layer said: that the named
/// account belongs to the user, or which account is the default.
pub open spec fn chosen_account(
    choice: AccountChoice<Seq<char>>,
    said: Result<Seq<char>, Seq<char>>,
) -> Result<Seq<char>, ApiError<Seq<char>>> {
    match (choice, said) {
        (AccountChoice::Named { account_id, .. }, Ok(_)) => Ok(account_id),
        (AccountChoice::Named { .. }, Err(e)) => Err(
            ApiError {
                http_status: 403,
                code: 4003,
                message: "Account verification failed: "@ + e,
            },
        ),
        (AccountChoice::Default { .. }, Ok(account_id)) => Ok(account_id),
        (AccountChoice::Default { user_id }, Err(e)) => Err(
            service::bad_request(4000, "Account not found for user "@ + user_id + ": "@ + e),
        ),
    }
}

/// The view of what the account layer said.
pub open spec fn said_view(r: Result<String, ExchangeError>) -> Result<Seq<char>, Seq<char>> {
    match r {
        Ok(id) => Ok(id@),
        Err(e) => Err(e@.text()),
    }
}

/// Settles the account of a request.
pub fn resolve_account(choice: AccountChoice, said: Result<String, ExchangeError>) -> (r: Result<
    String,
    ApiError,
>)
    ensures
        match (r, chosen_account(choice@, said_view(said))) {
            (Ok(id), Ok(expected)) => id@ == expected,
            (Err(e), Err(expected)) => e@ == expected,
            _ => false,
        },
{
    match (choice, said) {
        (AccountChoice::Named { account_id, .. }, Ok(_)) => Ok(account_id),
        (AccountChoice::Named { .. }, Err(e)) => Err(
            ApiError {
                http_status: 403,
                code: 4003,
                message: text::joined("Account verification failed: ", &e.to_string()),
            },
        ),
        (AccountChoice::Default { .. }, Ok(account_id)) => Ok(account_id),
        (AccountChoice::Default { user_id }, Err(e)) => {
            let head: String = text::joined("Account not found for user ", &user_id);
            Err(
                service::bad(
                    4000,
                    text::joined(&text::joined(&head, ": "), &e.to_string()),
                ),
            )
        },
    }
}

/// The account of a request belongs to its user: a named account is taken only
/// where the account layer did not object.
pub proof fn foreign_accounts_are_refused(
    account_id: Seq<char>,
    user_id: Seq<char>,
    objection: Seq<char>,
)
    ensures
        chosen_account(AccountChoice::Named { account_id, user_id }, Err(objection)) matches Err(e)
            && e.http_status == 403 && e.code == 4003,
{
}

/// A client opens an account for an individual or an institution, by these words
/// and no others; an account of a market maker is made only for a user.
pub proof fn words_name_kinds_of_accounts(word: Seq<char>)
    ensures
        word == "individual"@ <==> client_account_type(word) == Some(AccountType::Individual),
        word == "institutional"@ <==> client_account_type(word) == Some(
            AccountType::Institutional,
        ),
        client_account_type(word) != Some(AccountType::MarketMaker),
        word == "market_maker"@ <==> user_account_type(word) == Some(AccountType::MarketMaker),
        word != "market_maker"@ ==> user_account_type(word) == client_account_type(word),
        word != "individual"@ && word != "institutional"@ && word != "market_maker"@
            ==> user_account_type(word) is None,
        AccountType::Individual.name() == "Individual"@,
        AccountType::Institutional.name() == "Institutional"@,
        AccountType::MarketMaker.name() == "MarketMaker"@,
        AccountType::Individual.lower_name() == "individual"@,
        AccountType::Institutional.lower_name() == "institutional"@,
        AccountType::MarketMaker.lower_name() == "marketmaker"@,
{
    reveal_strlit("individual");
    reveal_strlit("institutional");
    reveal_strlit("market_maker");
    assert("individual"@.len() == 10 && "institutional"@.len() == 13 && "market_maker"@.len()
        == 12);
}

/// An account is opened with what the request says, for its user and without an
/// identifier of its own, exactly where the kind of account is known.
pub proof fn accounts_are_opened_as_requested(
    user_id: Seq<char>,
    account_name: Seq<char>,
    init_cash: i64,
    kind: Option<AccountType>,
)
    ensures
        opening(user_id, account_name, init_cash, kind) is Ok <==> kind is Some,
        opening(user_id, account_name, init_cash, kind) matches Ok(r) ==> {
            &&& r.user_id == user_id
            &&& r.account_id is None
            &&& r.account_name == account_name
            &&& r.init_cash == init_cash
            &&& Some(r.account_type) == kind
        },
        opening(user_id, account_name, init_cash, kind) matches Err(e) ==> e.http_status == 400
            && e.code == 400 && e.message == "Invalid account type"@,
{
}

/// The identifier that the account layer gave to a new account is the answer; where
/// it gave none, the answer is an error of the server with the cause.
pub proof fn openings_are_answered(
    attempt: Seq<char>,
    said: Result<Seq<char>, ExchangeError<Seq<char>>>,
)
    ensures
        said matches Ok(id) ==> opened(attempt, said) == Ok::<Seq<char>, ApiError<Seq<char>>>(id),
        said matches Err(cause) ==> (opened(attempt, said) matches Err(e) && e.http_status == 500
            && e.code == 500 && e.message == attempt + cause.debug_form()),
{
}

/// An account is shown with its own figures: the balance is what is available and
/// what is frozen together, and the margin that of its positions and its open orders.
pub proof fn accounts_are_shown_as_they_stand(
    f: AccountFigures<Seq<char>>,
    metadata: Option<AccountMetadata<Seq<char>>>,
    account_id: Seq<char>,
)
    requires
        i64::MIN <= f.balance - f.money <= i64::MAX,
        i64::MIN <= f.position_margin + f.frozen_margin <= i64::MAX,
    ensures
        ({
            let info = account_info(f, metadata, account_id);
            &&& info.user_id == f.account_id
            &&& info.balance == f.balance
            &&& info.available == f.money
            &&& info.available + info.frozen == info.balance
            &&& info.margin == f.position_margin + f.frozen_margin
            &&& info.profit == f.close_profit
            &&& info.risk_ratio == f.risk_ratio
            &&& metadata matches Some(m) ==> {
                &&& info.user_name == m.account_name
                &&& info.account_type == m.account_type.lower_name()
                &&& info.created_at == m.created_at
            }
            &&& metadata is None ==> {
                &&& info.user_name == account_id
                &&& info.account_type == "individual"@
                &&& info.created_at == 0
            }
        }),
        ({
            let summary = account_summary(f, metadata);
            &&& summary.account_id == f.account_id
            &&& summary.balance == f.balance
            &&& summary.available == f.money
            &&& summary.margin == f.position_margin + f.frozen_margin
            &&& summary.frozen_margin == f.frozen_margin
            &&& summary.risk_ratio == f.risk_ratio
            &&& metadata matches Some(m) ==> {
                &&& summary.account_name == m.account_name
                &&& summary.account_type == m.account_type.name()
                &&& summary.created_at == m.created_at
            }
            &&& metadata is None ==> {
                &&& summary.account_name == f.account_id
                &&& summary.account_type == "Individual"@
                &&& summary.created_at == 0
            }
        }),
{
}

/// A request that names an account is for that account, and one that names none for
/// the default account that the account layer gave; a user without one is told so.
pub proof fn requests_find_their_account(
    account_id: Seq<char>,
    user_id: Seq<char>,
    said: Seq<char>,
)
    ensures
        chosen_account(AccountChoice::Named { account_id, user_id }, Ok(said)) == Ok::<
            Seq<char>,
            ApiError<Seq<char>>,
        >(account_id),
        chosen_account(AccountChoice::Default { user_id }, Ok(said)) == Ok::<
            Seq<char>,
            ApiError<Seq<char>>,
        >(said),
        chosen_account(AccountChoice::Default { user_id }, Err(said)) matches Err(e)
            && e.http_status == 400 && e.code == 4000 && e.message == "Account not found for user "@
            + user_id + ": "@ + said,
        chosen_account(AccountChoice::Named { account_id, user_id }, Err(said)) matches Err(e)
            && e.message == "Account verification failed: "@ + said,
{
}

/// A request that names an account ends with that account or with an error, whatever
/// the account layer says; one that names none ends with what the account layer gave.
pub proof fn named_accounts_are_taken(
    account_id: Option<Seq<char>>,
    user_id: Seq<char>,
    said: Result<Seq<char>, Seq<char>>,
)
    ensures
        ({
            let r = chosen_account(choice_of(account_id, user_id), said);
            &&& r is Ok <==> said is Ok
            &&& r matches Ok(id) ==> (account_id matches Some(named) ==> id == named)
            &&& r matches Ok(id) ==> (account_id is None ==> said == Ok::<Seq<char>, Seq<char>>(id))
            &&& choice_of(account_id, user_id) matches AccountChoice::Named { user_id: u, .. } ==> u
                == user_id
            &&& choice_of(account_id, user_id) matches AccountChoice::Default { user_id: u } ==> u
                == user_id
        }),
{
}

} // verus!
