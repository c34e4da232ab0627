//! Per-user conversational session store: bounded FIFO histories of
//! question/answer exchanges, keyed by (tenant, user), with lazy creation,
//! a scheduled store-wide flush, and rollback of the last exchange.

pub mod bot;
pub mod chat;
pub mod config;
pub mod store;
