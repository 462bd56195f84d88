//! The options of the embedding operation.

use vstd::prelude::*;

use crate::cli::system_username;

verus! {

/// What the caller asked of the embedding operation.
#[derive(Debug, Clone, PartialEq, Eq)]
pub struct CliEmbeddings {
    /// The text to embed.
    pub input: String,
    /// The model that embeds.
    pub model: String,
    /// The end user on whose behalf requests are made.
    pub user: Option<String>,
}

impl CliEmbeddings {
    /// The end user on whose behalf requests are made: the one that was
    /// given, or else `fallback`.
    pub fn user_or(&self, fallback: String) -> (name: String)
        ensures
            name == match self.user {
                Some(user) => user,
                None => fallback,
            },
    {
        match &self.user {
            Some(user) => user.clone(),
            None => fallback,
        }
    }

    /// The end user on whose behalf requests are made: the one that was
    /// given, or else the name under which the caller is logged in.
    pub fn user(&self) -> (name: String)
        ensures
            self.user matches Some(user) ==> name == user,
    {
        match &self.user {
            Some(user) => user.clone(),
            None => system_username(),
        }
    }

    /// The model that embeds.
    pub fn model(&self) -> (value: &String)
        ensures
            *value == self.model,
    {
        &self.model
    }

    /// The text to embed.
    pub fn input(&self) -> (value: &String)
        ensures
            *value == self.input,
    {
        &self.input
    }
}

} // verus!
