//! The interactive flows of the commands.

pub mod add;
pub mod init;
pub mod list;
pub mod remove;
