//! Economic and dispatch core of an account-abstraction bundler.

pub mod address;
pub mod bundle;
pub mod chain;
pub mod da;
pub mod dispatcher;
pub mod error;
pub mod fee;
pub mod gas;
pub mod history;
pub mod ids;
pub mod pool;
pub mod ratio;
pub mod registry;
pub mod scheduler;
pub mod tracker;
