//! The logic of the individual commands.

pub mod fix;
pub mod derive;
pub mod review;
pub mod status;
pub mod commit;
pub mod common;
pub mod config;
pub mod init;
