//! Verified core of the Astria sequencer: state model, checked actions and helpers.

pub mod map;
pub mod text;
pub mod keys;
pub mod fees;
pub mod primitive;
pub mod error;
pub mod state;
pub mod cache;
pub mod address;
pub mod chain;
pub mod accounts;
pub mod actions;
pub mod checked_actions;
pub mod authority;
pub mod checked_transaction;
pub mod fee_query;
pub mod handlers;
pub mod components;
pub mod sorting;
pub mod mempool_console;
pub mod consensus;
pub mod laws;
