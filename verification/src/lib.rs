//! Verified core of a cross-distribution Linux cache cleaner.
pub mod detect;
pub mod text;
pub mod utils;
pub mod plan;
pub mod clean;
pub mod parse;
pub mod paths;
pub mod packages;
pub mod system;
pub mod bundles;
pub mod usercache;
pub mod dev;
pub mod cli;
pub mod update;
pub mod session;
pub mod laws;
