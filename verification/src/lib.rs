//! Configuration and remote lists of a base16 colour-scheme manager.

pub mod config;
pub mod failure;
pub mod list;
pub mod run;
pub mod table;
pub mod urls;
