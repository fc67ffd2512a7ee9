//! Core of a desktop front-end for the `derivegr` inspiral-discovery tool.
//!
//! The front-end collects a few parameters, launches the tool with them as
//! command-line flags, shows what the tool printed and the three fitted
//! values it left in a JSON file. This crate holds the parts of that which
//! are plain computation: the command line, the bookkeeping of a run and the
//! reading of the fitted values.
pub mod command;
pub mod results;
pub mod session;
pub mod text;
