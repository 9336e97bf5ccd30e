//! The order router: it takes orders in, lets them be checked, routes them to
//! the matching engine and handles what comes back.
//!
//! The router decides and remembers. What only its surroundings can do, it asks
//! for: a request becomes a flow that says what it waits for, and goes on with
//! the answer.
use crate::clock::Clock;
use crate::orders::OrderRouteInfo;
use crate::protocol::TickRecord;
use crate::protocol;
use crate::tables;
use crate::text;
use dashmap::DashMap;
use state::{PrioritySettings, RouterState};
use vstd::prelude::*;

pub mod agreement;
pub mod answering;
pub mod asking;
pub mod cancelling;
pub mod flushing;
pub mod laws;
pub mod matching;
pub mod progress;
pub mod queries;
pub mod repeating;
pub mod reporting;
pub mod restoring;
pub mod state;
pub mod submission;

verus! {

/// The order router.
pub struct OrderRouter {
    orders: DashMap<String, OrderRouteInfo>,
    user_orders: DashMap<String, Vec<String>>,
    engine_id_to_order: DashMap<u64, String>,
    engine_id_to_user: DashMap<u64, String>,
    order_seq: u64,
    trade_count: u64,
    trade_volume: i128,
    trade_amount: i128,
    last_snapshot_time: DashMap<String, u64>,
    snapshot_interval: u64,
    tick_buffer: Vec<TickRecord>,
    storage: bool,
    market_broadcaster: bool,
    trading_state_machine: bool,
    flush_stop_signal: bool,
    priority_queue: Option<PrioritySettings>,
    priority_queue_enabled: bool,
    clock: Clock,
}

impl View for PrioritySettings {
    type V = PrioritySettings<Seq<Seq<char>>>;

    open spec fn view(&self) -> PrioritySettings<Seq<Seq<char>>> {
        PrioritySettings {
            low_queue_limit: self.low_queue_limit,
            critical_amount_threshold: self.critical_amount_threshold,
            vip_users: text::texts(self.vip_users@),
        }
    }
}

impl View for OrderRouter {
    type V = RouterState;

    closed spec fn view(&self) -> RouterState {
        RouterState {
            orders: tables::order_table(self.orders),
            user_orders: tables::list_table(self.user_orders),
            engine_orders: tables::id_table(self.engine_id_to_order),
            engine_users: tables::id_table(self.engine_id_to_user),
            order_seq: self.order_seq,
            trade_count: self.trade_count,
            trade_volume: self.trade_volume,
            trade_amount: self.trade_amount,
            snapshot_times: tables::time_table(self.last_snapshot_time),
            snapshot_interval: self.snapshot_interval,
            ticks: protocol::ticks_view(self.tick_buffer@),
            storage: self.storage,
            broadcaster: self.market_broadcaster,
            trading_state: self.trading_state_machine,
            flush_stopped: self.flush_stop_signal,
            priority: match self.priority_queue {
                Some(q) => Some(q@),
                None => None,
            },
            priority_enabled: self.priority_queue_enabled,
        }
    }
}

/// What a new router knows: nothing, with orders numbered from one, no trades,
/// at most one snapshot a second, and nothing attached.
pub open spec fn fresh() -> RouterState {
    RouterState {
        orders: Map::empty(),
        user_orders: Map::empty(),
        engine_orders: Map::empty(),
        engine_users: Map::empty(),
        order_seq: 1,
        trade_count: 0,
        trade_volume: 0,
        trade_amount: 0,
        snapshot_times: Map::empty(),
        snapshot_interval: 1_000_000_000,
        ticks: Seq::empty(),
        storage: false,
        broadcaster: false,
        trading_state: false,
        flush_stopped: false,
        priority: None,
        priority_enabled: false,
    }
}

impl OrderRouter {
    /// A new router.
    pub fn new() -> (r: Self)
        ensures
            r@ == fresh(),
    {
        let r: OrderRouter = OrderRouter {
            orders: tables::new_orders(),
            user_orders: tables::new_lists(),
            engine_id_to_order: tables::new_ids(),
            engine_id_to_user: tables::new_ids(),
            order_seq: 1,
            trade_count: 0,
            trade_volume: 0,
            trade_amount: 0,
            last_snapshot_time: tables::new_times(),
            snapshot_interval: 1_000_000_000,
            tick_buffer: Vec::new(),
            storage: false,
            market_broadcaster: false,
            trading_state_machine: false,
            flush_stop_signal: false,
            priority_queue: None,
            priority_queue_enabled: false,
            clock: Clock::new(),
        };
        assert(r@ =~= fresh());
        r
    }

    /// A new router for an exchange with a risk checker of its own. The router
    /// asks its surroundings about every risk, so that it is the same router.
    pub fn with_risk_checker() -> (r: Self)
        ensures
            r@ == fresh(),
    {
        OrderRouter::new()
    }

    /// Lets matches and changes of the order book be broadcast from now on.
    pub fn set_market_broadcaster(&mut self)
        ensures
            final(self)@ == (RouterState { broadcaster: true, ..old(self)@ }),
    {
        self.market_broadcaster = true;
    }

    /// Lets ticks and snapshots be recorded from now on.
    pub fn set_storage(&mut self)
        ensures
            final(self)@ == (RouterState { storage: true, ..old(self)@ }),
    {
        self.storage = true;
    }

    /// Lets the trading state be asked about every order and every cancellation
    /// from now on.
    pub fn set_trading_state_machine(&mut self)
        ensures
            final(self)@ == (RouterState { trading_state: true, ..old(self)@ }),
    {
        self.trading_state_machine = true;
    }

    /// Whether the trading state is asked.
    pub fn get_trading_state_machine(&self) -> (r: bool)
        ensures
            r == self@.trading_state,
    {
        self.trading_state_machine
    }

    /// Puts a new priority queue in use, with no preferred users.
    pub fn enable_priority_queue(&mut self, low_queue_limit: usize, critical_amount_threshold: i64)
        ensures
            final(self)@ == (RouterState {
                priority: Some(
                    PrioritySettings {
                        low_queue_limit,
                        critical_amount_threshold,
                        vip_users: Seq::empty(),
                    },
                ),
                priority_enabled: true,
                ..old(self)@
            }),
    {
        let settings: PrioritySettings = PrioritySettings {
            low_queue_limit,
            critical_amount_threshold,
            vip_users: Vec::new(),
        };
        assert(settings@.vip_users =~= Seq::empty());
        self.priority_queue = Some(settings);
        self.priority_queue_enabled = true;
    }

    /// Puts the priority queue out of use; its settings stay.
    pub fn disable_priority_queue(&mut self)
        ensures
            final(self)@ == (RouterState { priority_enabled: false, ..old(self)@ }),
    {
        self.priority_queue_enabled = false;
    }

    /// Adds a preferred user, where there is a priority queue.
    pub fn add_vip_user(&mut self, user_id: String)
        ensures
            final(self)@ == preferring(old(self)@, seq![user_id@]),
    {
        let mut users: Vec<String> = Vec::new();
        users.push(user_id);
        assert(text::texts(users@) =~= seq![user_id@]);
        self.add_vip_users(users);
    }

    /// Adds preferred users, where there is a priority queue.
    pub fn add_vip_users(&mut self, users: Vec<String>)
        ensures
            final(self)@ == preferring(old(self)@, text::texts(users@)),
    {
        let mut users: Vec<String> = users;
        let ghost added = text::texts(users@);
        let settings: Option<PrioritySettings> = self.priority_queue.take();
        self.priority_queue = match settings {
            Some(settings) => {
                let mut settings: PrioritySettings = settings;
                let ghost before = settings@.vip_users;
                settings.vip_users.append(&mut users);
                assert(settings@.vip_users =~= before + added);
                Some(settings)
            },
            None => None,
        };
    }

    /// The settings of the priority queue, where there is one.
    pub fn get_priority_queue(&self) -> (r: Option<&PrioritySettings>)
        ensures
            match (r, self@.priority) {
                (Some(q), Some(settings)) => q@ == settings,
                (None, None) => true,
                _ => false,
            },
    {
        self.priority_queue.as_ref()
    }
}

/// The state with more preferred users, where there is a priority queue.
pub open spec fn preferring(s: RouterState, users: Seq<Seq<char>>) -> RouterState {
    match s.priority {
        Some(q) => RouterState {
            priority: Some(PrioritySettings { vip_users: q.vip_users + users, ..q }),
            ..s
        },
        None => s,
    }
}

} // verus!
