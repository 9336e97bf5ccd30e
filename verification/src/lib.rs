//! The core of a futures exchange: it takes orders in, routes them to the
//! matching engine, handles what comes back, and answers the clients.
//!
//! The core decides and remembers; what only its surroundings can do, it asks
//! for. Prices, volumes and sums of money are whole numbers of ten-thousandths,
//! so that every comparison and every sum is exact.

pub mod account;
pub mod amounts;
pub mod book;
pub mod broadcast;
pub mod clock;
pub mod conditions;
pub mod metrics;
pub mod orders;
pub mod protocol;
pub mod router;
pub mod service;
pub mod tables;
pub mod text;
