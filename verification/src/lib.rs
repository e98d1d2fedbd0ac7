//! Verified core of a terminal dashboard that monitors a Solana cluster.
//!
//! The library holds the logic that the dashboard's two loops share: deriving
//! a transactions-per-second reading from a performance sample, keeping a
//! bounded history of those readings, ranking validators by blocks produced,
//! and the state machine that guarantees the terminal is restored exactly
//! once on shutdown. All network and terminal I/O stays outside the library;
//! callers hand in the fetched values and apply the results.

pub mod cli;
pub mod metrics;
pub mod rank;
pub mod rpc;
pub mod session;
pub mod state;
