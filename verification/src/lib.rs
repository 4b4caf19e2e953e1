//! Planning layer for merge-on-read compaction of Iceberg tables.
//!
//! Given the data files, position-delete files and equality-delete files of
//! one partition, the crate derives the schemas that expose the hidden
//! bookkeeping columns, groups the equality-delete files by their key
//! columns, writes the query that reads the surviving rows, and decides how
//! the output of that query is repartitioned for the destination table.

pub mod context;
pub mod error;
pub mod fields;
pub mod grouping;
pub mod metadata;
pub mod names;
pub mod partition;
pub mod processor;
pub mod schema;
pub mod sql;
pub mod task;
pub mod text;
