//! The options of the image operations.

use vstd::prelude::*;

use crate::cli::system_username;

verus! {

/// What the caller asked of the image operations.
#[derive(Debug, Clone, PartialEq, Eq)]
pub struct CliImage {
    /// A description of the wanted image.
    pub prompt: Option<String>,
    /// Where generated content is saved.
    pub out_path: String,
    /// The path of an image to edit.
    pub image: Option<String>,
    /// The path of an image that marks where to edit.
    pub mask: Option<String>,
    /// How many images to generate.
    pub n: u32,
    /// The size of the generated images.
    pub size: String,
    /// The format in which the images come back.
    pub response_format: String,
    /// The end user on whose behalf requests are made.
    pub user: Option<String>,
}

impl CliImage {
    /// The end user on whose behalf requests are made: the one that was
    /// given, or else `fallback`.
    pub fn user_or(&self, fallback: String) -> (name: String)
        ensures
            name == match self.user {
                Some(user) => user,
                None => fallback,
            },
    {
        match &self.user {
            Some(user) => user.clone(),
            None => fallback,
        }
    }

    /// The end user on whose behalf requests are made: the one that was
    /// given, or else the name under which the caller is logged in.
    pub fn user(&self) -> (name: String)
        ensures
            self.user matches Some(user) ==> name == user,
    {
        match &self.user {
            Some(user) => user.clone(),
            None => system_username(),
        }
    }

    /// Whether a description of the wanted image was given.
    pub fn is_prompt(&self) -> (value: bool)
        ensures
            value == self.prompt is Some,
    {
        self.prompt.is_some()
    }

    /// The description of the wanted image; empty when none was given.
    pub fn prompt(&self) -> (value: String)
        ensures
            value@ == match self.prompt {
                Some(prompt) => prompt@,
                None => Seq::empty(),
            },
    {
        match &self.prompt {
            Some(prompt) => prompt.clone(),
            None => String::new(),
        }
    }

    /// Where generated content is saved.
    pub fn out_path(&self) -> (value: &String)
        ensures
            *value == self.out_path,
    {
        &self.out_path
    }

    /// The path of an image to edit.
    pub fn image(&self) -> (value: &Option<String>)
        ensures
            *value == self.image,
    {
        &self.image
    }

    /// The path of an image that marks where to edit.
    pub fn mask(&self) -> (value: &Option<String>)
        ensures
            *value == self.mask,
    {
        &self.mask
    }

    /// How many images to generate.
    pub fn n(&self) -> (value: &u32)
        ensures
            *value == self.n,
    {
        &self.n
    }

    /// The size of the generated images.
    pub fn size(&self) -> (value: &String)
        ensures
            *value == self.size,
    {
        &self.size
    }

    /// The format in which the images come back.
    pub fn response_format(&self) -> (value: &String)
        ensures
            *value == self.response_format,
    {
        &self.response_format
    }
}

} // verus!
