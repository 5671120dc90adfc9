//! Primary-role enforcement for chat servers: a per-server configuration
//! store, a member classifier, a reactive enforcer and a bulk sweep.

pub mod classifier;
pub mod commands;
pub mod data;
pub mod dispatch;
pub mod enforcer;
pub mod guard;
pub mod simulation;
pub mod statements;
pub mod storage;
pub mod sweep;
pub mod text;
pub mod throttle;
