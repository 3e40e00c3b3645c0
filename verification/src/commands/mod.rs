//! The command-line commands: their options and the decisions they make.
//! Reading files, running programs and talking to services is the
//! caller's part.
pub mod api;
pub mod bench;
pub mod bisect;
pub mod compare;
pub mod config;
pub mod init;
pub mod push;
pub mod query;
pub mod run;
pub mod trend;
