//! Verified core of a mobile-money bookkeeping backend: pagination, money
//! amounts, pockets, categories, transactions and their balance effects,
//! the notification inbox, authentication helpers and configuration.

pub mod pagination;
pub mod amount;
pub mod text;
pub mod ledger;
pub mod ids;
pub mod clock;
pub mod pockets;
pub mod categories;
pub mod transactions;
pub mod ai;
pub mod notifications;
pub mod search;
pub mod extraction;
pub mod inbox;
pub mod error;
pub mod auth;
pub mod analysis;
pub mod stream;
pub mod assistant;
pub mod config;
pub mod seed;
pub mod queries;
