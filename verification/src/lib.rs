//! Backend discovery for a blockchain node.
//!
//! The discovery loop probes candidate node addresses, admits each reachable
//! one at most once and hands the admissions to a pool of endpoints. Its
//! decisions are a state machine that is driven from outside: the caller
//! performs each requested action and reports what happened.
//!
//! The crate also holds an in-memory stand-in for the block data service, so
//! that code which queries chain data can be exercised without storage.

pub mod database;
pub mod discover;
pub mod header;
pub mod laws;
pub mod mock_db;
pub mod model;
pub mod probe;
pub mod service;
