//! Library behind a small command-line client for the nibl package
//! directory: it parses the command line into a search request, builds the
//! request URLs, validates the `{status, message, content}` envelopes the
//! directory returns, and resolves the first search result to the bot that
//! hosts it.

pub mod cli;
pub mod decimal;
pub mod model;
pub mod resolve;
pub mod url;
