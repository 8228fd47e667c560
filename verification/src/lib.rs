//! Interactive catalog of recommended Rust crates.
//!
//! The library models a terminal catalog browser: a fixed set of categories,
//! each holding an ordered list of recommended crates; per-crate optional
//! feature lists that arrive asynchronously from a registry; selection
//! toggling; and the reconciliation that derives the canonical list of
//! crates to add from the current selection flags. All state transitions
//! are driven through a single dispatch function, one message at a time;
//! the concurrent work around it (fetching, installing, input, rendering)
//! communicates only by sending messages back in.

pub mod backend;
pub mod content_parser;
pub mod dependency_builder;
pub mod scraper;
pub mod tui;
pub mod utils;
pub mod view;
