//! The options of the file operations.

use vstd::prelude::*;

verus! {

/// What the caller asked of the file operations.
#[derive(Debug, Clone, PartialEq, Eq)]
pub struct CliFiles {
    /// The path of a file to upload.
    pub file: Option<String>,
    /// What an uploaded file is for.
    pub purpose: String,
    /// The identifier of a file to delete.
    pub delete: Option<String>,
}

impl CliFiles {
    /// The path of a file to upload.
    pub fn file(&self) -> (value: Option<String>)
        ensures
            value == self.file,
    {
        match &self.file {
            Some(path) => Some(path.clone()),
            None => None,
        }
    }

    /// What an uploaded file is for.
    pub fn purpose(&self) -> (value: &String)
        ensures
            *value == self.purpose,
    {
        &self.purpose
    }

    /// The identifier of a file to delete.
    pub fn delete(&self) -> (value: Option<String>)
        ensures
            value == self.delete,
    {
        match &self.delete {
            Some(identifier) => Some(identifier.clone()),
            None => None,
        }
    }
}

} // verus!
