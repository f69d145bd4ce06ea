use vstd::prelude::*;

verus! {

/// A fatal error inside one bench task. It stops that task only; metric
/// contributions already made by the task are kept.
#[derive(Clone, Copy, PartialEq, Eq, Structural, Debug)]
pub enum TaskError {
    /// A response chunk carried a choice whose content fragment was absent.
    MissingContent,
    /// The tokenizer rejected a string.
    Tokenize,
    /// The transport or protocol layer failed (mapped in by the caller).
    Transport,
}

impl TaskError {
    /// A short human-readable description of the error.
    pub fn describe(&self) -> (r: &'static str)
        ensures
            r@ == self.describe_spec(),
    {
        match self {
            TaskError::MissingContent => "no content",
            TaskError::Tokenize => "tokenizer error",
            TaskError::Transport => "transport error",
        }
    }

    pub open spec fn describe_spec(self) -> Seq<char> {
        match self {
            TaskError::MissingContent => "no content"@,
            TaskError::Tokenize => "tokenizer error"@,
            TaskError::Transport => "transport error"@,
        }
    }
}

/// A fatal error while turning dataset records into prompts. It aborts the
/// run before any task starts.
#[derive(Clone, Copy, PartialEq, Eq, Structural, Debug)]
pub enum DatasetError {
    /// A record lacked the expected columns.
    MissingColumns,
}

impl DatasetError {
    /// A short human-readable description of the error.
    pub fn describe(&self) -> (r: &'static str)
        ensures
            r@ == "record is missing expected columns"@,
    {
        match self {
            DatasetError::MissingColumns => "record is missing expected columns",
        }
    }
}

} // verus!
