//! The images that the service generated.

use vstd::prelude::*;

use crate::openai::json::{Json, JsonView};
use crate::openai::response::{read_list, spec_read_list, spec_views, FromDocument};

verus! {

/// A generated image: where it can be fetched, or its content in base 64,
/// whichever the request asked for.
#[derive(Debug, Clone, PartialEq, Eq)]
pub struct OpenAIImage {
    /// The address of the image.
    pub url: Option<String>,
    /// The content of the image, in base 64.
    pub b64_json: Option<String>,
}

/// The mathematical value of an [`OpenAIImage`].
pub struct ImageView {
    pub url: Option<Seq<char>>,
    pub b64_json: Option<Seq<char>>,
}

/// The answer to a request for variations of an image.
#[derive(Debug, Clone, PartialEq, Eq)]
pub struct OpenAIImageVariationResponse {
    /// The images, in the order of the answer.
    pub data: Vec<OpenAIImage>,
}

/// What an optional text member holds: its text, nothing when the member is
/// missing or null, and no reading at all when it is of another kind.
pub open spec fn spec_optional_text(document: JsonView, name: Seq<char>) -> Option<
    Option<Seq<char>>,
> {
    match document.spec_get(name) {
        None => Some(None),
        Some(JsonView::Null) => Some(None),
        Some(JsonView::Text(text)) => Some(Some(text)),
        Some(_) => None,
    }
}

/// Reads an optional text member.
fn optional_text(document: &Json, name: &str) -> (value: Option<Option<String>>)
    ensures
        value matches Some(Some(text)) ==> spec_optional_text(document@, name@) == Some(
            Some(text@),
        ),
        value matches Some(None) ==> spec_optional_text(document@, name@) == Some(
            None::<Seq<char>>,
        ),
        value is None ==> spec_optional_text(document@, name@) is None,
{
    match document.member(name) {
        None => Some(None),
        Some(Json::Null) => Some(None),
        Some(Json::Text(text)) => Some(Some(text.clone())),
        Some(_) => None,
    }
}

impl View for OpenAIImage {
    type V = ImageView;

    open spec fn view(&self) -> ImageView {
        ImageView {
            url: match self.url {
                Some(text) => Some(text@),
                None => None,
            },
            b64_json: match self.b64_json {
                Some(text) => Some(text@),
                None => None,
            },
        }
    }
}

impl View for OpenAIImageVariationResponse {
    type V = Seq<ImageView>;

    open spec fn view(&self) -> Seq<ImageView> {
        spec_views(self.data@)
    }
}

impl FromDocument for OpenAIImage {
    open spec fn spec_read(document: JsonView) -> Option<ImageView> {
        match (spec_optional_text(document, "url"@), spec_optional_text(document, "b64_json"@)) {
            (Some(url), Some(b64_json)) => Some(ImageView { url, b64_json }),
            _ => None,
        }
    }

    fn read(document: &Json) -> (value: Option<OpenAIImage>) {
        match (optional_text(document, "url"), optional_text(document, "b64_json")) {
            (Some(url), Some(b64_json)) => Some(OpenAIImage { url, b64_json }),
            _ => None,
        }
    }
}

impl FromDocument for OpenAIImageVariationResponse {
    open spec fn spec_read(document: JsonView) -> Option<Seq<ImageView>> {
        spec_read_list::<OpenAIImage>(document, "data"@)
    }

    fn read(document: &Json) -> (value: Option<OpenAIImageVariationResponse>) {
        match read_list::<OpenAIImage>(document, "data") {
            Some(data) => Some(OpenAIImageVariationResponse { data }),
            None => None,
        }
    }
}

} // verus!
