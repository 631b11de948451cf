//! The logic of the Lightning Payjoin regtest channel opener.

pub mod config;
pub mod course;
pub mod error;
pub mod funding;
pub mod help;
pub mod json;
pub mod keys;
pub mod lines;
pub mod opener;
pub mod report;
pub mod script;
pub mod text;
pub mod transaction;
pub mod wallet;
