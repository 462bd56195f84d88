//! The files of the account.

use vstd::prelude::*;

use crate::openai::json::{Json, JsonView};
use crate::openai::response::{read_list, spec_read_list, spec_views, FromDocument};

verus! {

/// An uploaded file, as the service describes it.
#[derive(Debug, Clone, PartialEq, Eq)]
pub struct OpenAIFile {
    /// The identifier of the file.
    pub id: String,
    /// The name under which the file was uploaded.
    pub filename: String,
    /// What the file is for.
    pub purpose: String,
}

/// The mathematical value of an [`OpenAIFile`].
pub struct FileView {
    pub id: Seq<char>,
    pub filename: Seq<char>,
    pub purpose: Seq<char>,
}

/// The answer to a request for the list of files.
#[derive(Debug, Clone, PartialEq, Eq)]
pub struct OpenAIFilesResponse {
    /// The files, in the order of the answer.
    pub data: Vec<OpenAIFile>,
}

/// The answer to an upload.
#[derive(Debug, Clone, PartialEq, Eq)]
pub struct OpenAIFileUploadResponse {
    /// The file as the service stored it.
    pub file: OpenAIFile,
}

/// The answer to the deletion of a file.
#[derive(Debug, Clone, PartialEq, Eq)]
pub struct OpenAIFileDeleteResponse {
    /// The identifier of the file.
    pub id: String,
    /// Whether the file was deleted.
    pub deleted: bool,
}

impl View for OpenAIFile {
    type V = FileView;

    open spec fn view(&self) -> FileView {
        FileView { id: self.id@, filename: self.filename@, purpose: self.purpose@ }
    }
}

impl View for OpenAIFilesResponse {
    type V = Seq<FileView>;

    open spec fn view(&self) -> Seq<FileView> {
        spec_views(self.data@)
    }
}

impl View for OpenAIFileUploadResponse {
    type V = FileView;

    open spec fn view(&self) -> FileView {
        self.file@
    }
}

impl View for OpenAIFileDeleteResponse {
    type V = (Seq<char>, bool);

    open spec fn view(&self) -> (Seq<char>, bool) {
        (self.id@, self.deleted)
    }
}

impl FromDocument for OpenAIFile {
    open spec fn spec_read(document: JsonView) -> Option<FileView> {
        match (
            document.spec_get_text("id"@),
            document.spec_get_text("filename"@),
            document.spec_get_text("purpose"@),
        ) {
            (Some(id), Some(filename), Some(purpose)) => Some(FileView { id, filename, purpose }),
            _ => None,
        }
    }

    fn read(document: &Json) -> (value: Option<OpenAIFile>) {
        match (
            document.member_text("id"),
            document.member_text("filename"),
            document.member_text("purpose"),
        ) {
            (Some(id), Some(filename), Some(purpose)) => Some(
                OpenAIFile { id: id.clone(), filename: filename.clone(), purpose: purpose.clone() },
            ),
            _ => None,
        }
    }
}

impl FromDocument for OpenAIFilesResponse {
    open spec fn spec_read(document: JsonView) -> Option<Seq<FileView>> {
        spec_read_list::<OpenAIFile>(document, "data"@)
    }

    fn read(document: &Json) -> (value: Option<OpenAIFilesResponse>) {
        match read_list::<OpenAIFile>(document, "data") {
            Some(data) => Some(OpenAIFilesResponse { data }),
            None => None,
        }
    }
}

impl FromDocument for OpenAIFileUploadResponse {
    open spec fn spec_read(document: JsonView) -> Option<FileView> {
        OpenAIFile::spec_read(document)
    }

    fn read(document: &Json) -> (value: Option<OpenAIFileUploadResponse>) {
        match OpenAIFile::read(document) {
            Some(file) => Some(OpenAIFileUploadResponse { file }),
            None => None,
        }
    }
}

impl FromDocument for OpenAIFileDeleteResponse {
    open spec fn spec_read(document: JsonView) -> Option<(Seq<char>, bool)> {
        match (document.spec_get_text("id"@), document.spec_get_flag("deleted"@)) {
            (Some(id), Some(deleted)) => Some((id, deleted)),
            _ => None,
        }
    }

    fn read(document: &Json) -> (value: Option<OpenAIFileDeleteResponse>) {
        match (document.member_text("id"), document.member_flag("deleted")) {
            (Some(id), Some(deleted)) => Some(OpenAIFileDeleteResponse { id: id.clone(), deleted }),
            _ => None,
        }
    }
}

} // verus!
