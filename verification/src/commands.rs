//! The commands that server administrators give.

pub mod bot_management;
pub mod commands;
pub mod disable;
pub mod enable;
pub mod primary_role;
pub mod set_primary_role;
pub mod sweep;
