//! The errors of compaction planning.

use vstd::prelude::*;

verus! {

/// Why planning failed.
#[derive(Debug)]
pub enum CompactionError {
    /// The caller's input is inconsistent: a name is missing or an id cannot be resolved.
    Config(String),
    /// A schema could not be built.
    Iceberg(iceberg::Error),
}

impl CompactionError {
    /// Whether this is a configuration error with exactly this message.
    pub open spec fn is_config(self, message: Seq<char>) -> bool {
        self matches CompactionError::Config(m) && m@ == message
    }

    /// Makes a configuration error.
    pub fn config(message: &str) -> (error: CompactionError)
        ensures
            error.is_config(message@),
    {
        CompactionError::Config(String::from_str(message))
    }
}

} // verus!
