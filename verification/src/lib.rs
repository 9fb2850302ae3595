//! Core ledger logic of a crowdfunding platform: donation accounting with
//! platform fees and fee exemption, bounded sorted top-donor leaderboards,
//! campaign lifecycle (start, stop, liquidation with pro-rata redistribution),
//! and donor incentive/reward procedures.
//!
//! The crate holds the state-transition engine only. Account persistence,
//! signature checks, wall-clock time, and token transfers are the host's job:
//! every operation takes the current record snapshots and plain scalar inputs
//! (balances, timestamps) and returns the amounts the host must move.

pub mod config;
pub mod error;
pub mod state;
pub mod utils;
pub mod instructions;
