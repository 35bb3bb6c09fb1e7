//! A directory-tree lister: the rules of the walk, the text of each line and
//! the summary.
//!
//! The library does no input or output. A [`walker::Walker`] is a state
//! machine: it says what it waits for, takes what the file system answered,
//! and hands back the line to write, if any. A front end drives it:
//!
//! - while the status is `Opening`, it lists the directory at
//!   `Walker::target` and passes the outcome to `Walker::crawl_target`;
//! - while the status is `Reading`, it takes the next item of the innermost
//!   open listing and passes it to `Walker::read_target`;
//! - it writes every line that comes back, at once and in order: a report
//!   to the error stream, any other line to the output stream;
//! - it stops when the status is `Done` or `Failed`.
//!
//! [`model`] describes a file system as a tree and the walk over it, and
//! [`laws`] proves what holds of every such walk: the counters match the
//! lines, hidden entries leave no trace, and the order is pre-order.

pub mod entry;
pub mod laws;
pub mod line;
pub mod model;
pub mod text;
pub mod tree;
pub mod walker;
