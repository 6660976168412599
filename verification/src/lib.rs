//! Release packaging for the `scie-pikesquares` executable.
//!
//! The crate holds the decisions of the packaging pipeline: where the
//! artifacts live, which tool is asked to do what and in which order, and
//! what counts as success. Running tools and touching the file system is
//! left to the caller, which performs each requested step and reports
//! what came of it.
pub mod checksum;
pub mod commands;
pub mod components;
pub mod config;
pub mod context;
pub mod failure;
pub mod machine;
pub mod package;
pub mod paths;
pub mod process;
pub mod scie;
pub mod science;
pub mod testing;
pub mod text;
