//! Verified core of an identifier-presence checker: for each catalog site a
//! probe request is planned, its response is classified by the site's own
//! detection rule, and the results are aggregated into a report.
//!
//! The network, the command line and the terminal display live outside this
//! crate; the logic here is pure and carries contracts.

pub mod cli;
pub mod data;
pub mod email;
pub mod engine;
pub mod gate;
pub mod laws;
pub mod output;
pub mod pattern;
pub mod ratelimit;
pub mod scrape;
pub mod text;
pub mod tui;
pub mod ua;
pub mod variations;
