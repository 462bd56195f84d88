//! The options of the model operations.

use vstd::prelude::*;

verus! {

/// What the caller asked of the model operations.
#[derive(Debug, Clone, PartialEq, Eq)]
pub struct CliModels {
    /// The identifier of a model to delete.
    pub delete: Option<String>,
}

impl CliModels {
    /// The identifier of a model to delete.
    pub fn delete(&self) -> (value: &Option<String>)
        ensures
            *value == self.delete,
    {
        &self.delete
    }
}

} // verus!
