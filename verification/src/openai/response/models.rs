//! The models of the account.

use vstd::prelude::*;

use crate::openai::json::{Json, JsonView};
use crate::openai::response::{read_list, spec_read_list, spec_views, FromDocument};

verus! {

/// A model, as the service describes it.
#[derive(Debug, Clone, PartialEq, Eq)]
pub struct OpenAIModel {
    /// The identifier of the model.
    pub id: String,
    /// The organisation that owns the model.
    pub owned_by: String,
}

/// The mathematical value of an [`OpenAIModel`].
pub struct ModelView {
    pub id: Seq<char>,
    pub owned_by: Seq<char>,
}

/// The answer to a request for the list of models.
#[derive(Debug, Clone, PartialEq, Eq)]
pub struct OpenAIModelsResponse {
    /// The models, in the order of the answer.
    pub data: Vec<OpenAIModel>,
}

/// The answer to the deletion of a model.
#[derive(Debug, Clone, PartialEq, Eq)]
pub struct OpenAIModelDeleteResponse {
    /// The identifier of the model.
    pub id: String,
    /// Whether the model was deleted.
    pub deleted: bool,
}

impl View for OpenAIModel {
    type V = ModelView;

    open spec fn view(&self) -> ModelView {
        ModelView { id: self.id@, owned_by: self.owned_by@ }
    }
}

impl View for OpenAIModelsResponse {
    type V = Seq<ModelView>;

    open spec fn view(&self) -> Seq<ModelView> {
        spec_views(self.data@)
    }
}

impl View for OpenAIModelDeleteResponse {
    type V = (Seq<char>, bool);

    open spec fn view(&self) -> (Seq<char>, bool) {
        (self.id@, self.deleted)
    }
}

impl FromDocument for OpenAIModel {
    open spec fn spec_read(document: JsonView) -> Option<ModelView> {
        match (document.spec_get_text("id"@), document.spec_get_text("owned_by"@)) {
            (Some(id), Some(owned_by)) => Some(ModelView { id, owned_by }),
            _ => None,
        }
    }

    fn read(document: &Json) -> (value: Option<OpenAIModel>) {
        match (document.member_text("id"), document.member_text("owned_by")) {
            (Some(id), Some(owned_by)) => Some(
                OpenAIModel { id: id.clone(), owned_by: owned_by.clone() },
            ),
            _ => None,
        }
    }
}

impl FromDocument for OpenAIModelsResponse {
    open spec fn spec_read(document: JsonView) -> Option<Seq<ModelView>> {
        spec_read_list::<OpenAIModel>(document, "data"@)
    }

    fn read(document: &Json) -> (value: Option<OpenAIModelsResponse>) {
        match read_list::<OpenAIModel>(document, "data") {
            Some(data) => Some(OpenAIModelsResponse { data }),
            None => None,
        }
    }
}

impl FromDocument for OpenAIModelDeleteResponse {
    open spec fn spec_read(document: JsonView) -> Option<(Seq<char>, bool)> {
        match (document.spec_get_text("id"@), document.spec_get_flag("deleted"@)) {
            (Some(id), Some(deleted)) => Some((id, deleted)),
            _ => None,
        }
    }

    fn read(document: &Json) -> (value: Option<OpenAIModelDeleteResponse>) {
        match (document.member_text("id"), document.member_flag("deleted")) {
            (Some(id), Some(deleted)) => Some(OpenAIModelDeleteResponse { id: id.clone(), deleted }),
            _ => None,
        }
    }
}

} // verus!
