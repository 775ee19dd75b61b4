//! Core of an algorithmic-trading platform: a typed publish/subscribe message
//! bus with a memoizing topic switchboard, a component lifecycle state machine,
//! a data-actor core that builds subscription and request commands, an
//! event-sourced order state machine, and a backtest execution client that
//! routes trading commands into a simulated venue.
//!
//! Every data structure is modelled over plain values (strings, integers,
//! vectors), and every public operation carries a contract checked by Verus.

pub mod actor;
pub mod chain;
pub mod clock;
pub mod component;
pub mod enums;
pub mod events;
pub mod execution;
pub mod ids;
pub mod market;
pub mod messages;
pub mod msgbus;
pub mod order;
pub mod position;
pub mod responses;
pub mod runner;
pub mod switchboard;
pub mod testdata;
pub mod text;
pub mod types;
pub mod uuid4;
