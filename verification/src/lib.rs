//! Verified decision logic of the Codex Pet desktop companion: the account
//! login state machine, runtime selection, window-state transitions with
//! native rollback, quota refresh scheduling and settings bookkeeping.

pub mod text;
pub mod account;
pub mod codex_adapter;
pub mod account_session;
pub mod window_state;
pub mod paths;
pub mod version;
pub mod runtime;
pub mod startup_metrics;
pub mod settings;
pub mod quota;
