//! Batch auditing pipeline for an HTML-normalization transform.
//!
//! Each input file yields one record: the file's identity, its size before
//! the transform, extracted features (language, title, redirect target,
//! selector match counts), and the transform's outcome (a serialized size on
//! success, a rendered error on failure). Records are emitted as one
//! tab-delimited row each, after a header row, in input order.

pub mod digits;
pub mod extract;
pub mod record;
pub mod row;
pub mod sink;
