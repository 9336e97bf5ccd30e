//! Positions of accounts.
use crate::orders::ExchangeError;
use crate::service;
use crate::service::transfers;
use crate::service::ApiError;
use crate::text;
use vstd::prelude::*;

verus! {

/// What an account holds of an instrument.
#[derive(Debug)]
pub struct Holding<S = String> {
    pub instrument_id: S,
    pub volume_long: i64,
    pub volume_short: i64,
    pub volume_long_frozen: i64,
    pub volume_short_frozen: i64,
    pub cost_long: i64,
    pub cost_short: i64,
    pub profit_long: i64,
    pub profit_short: i64,
}

impl View for Holding<String> {
    type V = Holding<Seq<char>>;

    open spec fn view(&self) -> Holding<Seq<char>> {
        Holding {
            instrument_id: self.instrument_id@,
            volume_long: self.volume_long,
            volume_short: self.volume_short,
            volume_long_frozen: self.volume_long_frozen,
            volume_short_frozen: self.volume_short_frozen,
            cost_long: self.cost_long,
            cost_short: self.cost_short,
            profit_long: self.profit_long,
            profit_short: self.profit_short,
        }
    }
}

/// What is shown of a position.
#[derive(Debug)]
pub struct PositionInfo<S = String> {
    pub account_id: S,
    pub holding: Holding<S>,
}

impl View for PositionInfo<String> {
    type V = PositionInfo<Seq<char>>;

    open spec fn view(&self) -> PositionInfo<Seq<char>> {
        PositionInfo { account_id: self.account_id@, holding: self.holding@ }
    }
}

/// The view of a list of positions.
pub open spec fn positions_view(v: Seq<PositionInfo>) -> Seq<PositionInfo<Seq<char>>> {
    v.map_values(|p: PositionInfo| p@)
}

/// What is shown of the positions of an account.
pub open spec fn positions_of(account_id: Seq<char>, holdings: Seq<Holding>) -> Seq<
    PositionInfo<Seq<char>>,
> {
    holdings.map_values(|h: Holding| (PositionInfo { account_id, holding: h@ }))
}

/// What is shown of the positions of accounts, account by account.
pub open spec fn positions_of_accounts(accounts: Seq<(String, Vec<Holding>)>) -> Seq<
    PositionInfo<Seq<char>>,
>
    decreases accounts.len(),
{
    if accounts.len() == 0 {
        Seq::empty()
    } else {
        positions_of(accounts[0].0@, accounts[0].1@) + positions_of_accounts(
            accounts.drop_first(),
        )
    }
}

fn append_positions(out: &mut Vec<PositionInfo>, account_id: &str, holdings: Vec<Holding>)
    ensures
        positions_view(final(out)@) == positions_view(old(out)@) + positions_of(
            account_id@,
            holdings@,
        ),
{
    let ghost expected = positions_of(account_id@, holdings@);
    let ghost start = positions_view(out@);
    let mut left: Vec<Holding> = holdings;
    let ghost mut done: int = 0;
    while left.len() > 0
        invariant
            0 <= done <= holdings@.len(),
            left@ == holdings@.skip(done),
            expected == positions_of(account_id@, holdings@),
            positions_view(out@) == start + expected.take(done),
        decreases left@.len(),
    {
        let ghost before = out@;
        let holding: Holding = left.remove(0);
        assert(holding == holdings@[done]);
        out.push(PositionInfo { account_id: account_id.to_string(), holding });
        proof {
            assert(positions_view(out@) =~= positions_view(before).push(expected[done]));
            assert(expected.take(done + 1) =~= expected.take(done).push(expected[done]));
            assert(positions_view(out@) =~= start + expected.take(done + 1));
            done = done + 1;
            assert(left@ =~= holdings@.skip(done));
        }
    }
    assert(expected.take(done) =~= expected);
}

/// Shows the positions of an account, or tells that there is no account.
pub fn query_position(account_id: &str, found: Result<Vec<Holding>, ExchangeError>) -> (r: Result<
    Vec<PositionInfo>,
    ApiError,
>)
    ensures
        match (r, found) {
            (Ok(positions), Ok(holdings)) => positions_view(positions@) == positions_of(
                account_id@,
                holdings@,
            ),
            (Err(e), Err(cause)) => e@ == transfers::account_missing(cause@),
            _ => false,
        },
{
    match found {
        Ok(holdings) => {
            let mut out: Vec<PositionInfo> = Vec::new();
            assert(positions_view(out@) =~= Seq::empty());
            append_positions(&mut out, account_id, holdings);
            assert(positions_view(out@) =~= positions_of(account_id@, holdings@));
            Ok(out)
        },
        Err(e) => Err(transfers::account_not_found(&e)),
    }
}

/// Shows the positions of all accounts of a user, or tells that the user has
/// none.
pub fn query_positions_by_user(user_id: &str, accounts: Vec<(String, Vec<Holding>)>) -> (r: Result<
    Vec<PositionInfo>,
    ApiError,
>)
    ensures
        match r {
            Ok(positions) => accounts@.len() > 0 && positions_view(positions@)
                == positions_of_accounts(accounts@),
            Err(e) => accounts@.len() == 0 && e@ == service::not_found(
                "No accounts found for user: "@ + user_id@,
            ),
        },
{
    if accounts.len() == 0 {
        return Err(service::missing(text::joined("No accounts found for user: ", user_id)));
    }
    let mut left: Vec<(String, Vec<Holding>)> = accounts;
    let mut out: Vec<PositionInfo> = Vec::new();
    assert(positions_view(out@) =~= Seq::empty());
    assert(positions_view(out@) + positions_of_accounts(left@) =~= positions_of_accounts(
        accounts@,
    ));
    while left.len() > 0
        invariant
            positions_view(out@) + positions_of_accounts(left@) == positions_of_accounts(
                accounts@,
            ),
        decreases left@.len(),
    {
        let ghost before = left@;
        let ghost shown = positions_view(out@);
        let (account_id, holdings): (String, Vec<Holding>) = left.remove(0);
        assert(left@ =~= before.drop_first());
        assert(before[0] == (account_id, holdings));
        append_positions(&mut out, &account_id, holdings);
        assert(positions_view(out@) + positions_of_accounts(left@) =~= shown + (positions_of(
            account_id@,
            holdings@,
        ) + positions_of_accounts(left@)));
    }
    assert(positions_view(out@) =~= positions_of_accounts(accounts@));
    Ok(out)
}

/// Every holding of an account is shown as a position of that account, in its place;
/// the positions of more accounts follow those of the accounts before them.
pub proof fn holdings_are_shown_by_account(
    account_id: Seq<char>,
    holdings: Seq<Holding>,
    accounts: Seq<(String, Vec<Holding>)>,
    more: Seq<(String, Vec<Holding>)>,
)
    ensures
        positions_of(account_id, holdings).len() == holdings.len(),
        forall|i: int|
            0 <= i < holdings.len() ==> (#[trigger] positions_of(account_id, holdings)[i]).account_id
                == account_id && positions_of(account_id, holdings)[i].holding == holdings[i]@,
        accounts.len() == 1 ==> positions_of_accounts(accounts) == positions_of(
            accounts[0].0@,
            accounts[0].1@,
        ),
        positions_of_accounts(accounts + more) == positions_of_accounts(accounts)
            + positions_of_accounts(more),
    decreases accounts.len(),
{
    if accounts.len() == 0 {
        assert(accounts + more =~= more);
        assert(positions_of_accounts(accounts) + positions_of_accounts(more)
            =~= positions_of_accounts(more));
    } else {
        holdings_are_shown_by_account(account_id, holdings, accounts.drop_first(), more);
        assert((accounts + more).drop_first() =~= accounts.drop_first() + more);
        assert((accounts + more)[0] == accounts[0]);
        let first = positions_of(accounts[0].0@, accounts[0].1@);
        assert(first + (positions_of_accounts(accounts.drop_first()) + positions_of_accounts(more))
            =~= (first + positions_of_accounts(accounts.drop_first())) + positions_of_accounts(
            more,
        ));
        if accounts.len() == 1 {
            assert(positions_of_accounts(accounts.drop_first()) =~= Seq::empty());
            assert(positions_of_accounts(accounts) =~= first);
        }
    }
}

} // verus!
