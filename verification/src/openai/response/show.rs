//! What a response shows to the caller: the lines of text that present it.

use vstd::prelude::*;

use crate::openai::response::{
    choice_lines, spec_choice_lines, spec_views, FileView, FineTuneEventView, FineTuneView,
    ImageView, ModelView, OpenAIFile, OpenAIFineTune, OpenAIFineTuneEvent, OpenAIImage,
    OpenAIModel, OpenAIResponse, ResponseView,
};

verus! {

/// A value that is presented on one line.
pub trait Line: View {
    /// The line that presents the value.
    spec fn spec_line(value: Self::V) -> Seq<char>;

    /// Writes the line that presents the value.
    fn line(&self) -> (text: String)
        ensures
            text@ == Self::spec_line(self@),
    ;
}

/// The lines that present a run of values, one line each.
pub open spec fn spec_lines_of<T: Line>(values: Seq<T::V>) -> Seq<Seq<char>> {
    Seq::new(values.len(), |i: int| T::spec_line(values[i]))
}

/// The line that presents a deletion: the identifier, and whether the
/// resource is gone.
pub open spec fn spec_deletion_line(deletion: (Seq<char>, bool)) -> Seq<char> {
    if deletion.1 {
        deletion.0 + " deleted"@
    } else {
        deletion.0 + " not deleted"@
    }
}

/// Writes the lines that present a run of values.
pub fn lines_of<T: Line>(values: &Vec<T>) -> (lines: Vec<String>)
    ensures
        spec_views(lines@) == spec_lines_of::<T>(spec_views(values@)),
{
    let mut lines: Vec<String> = Vec::new();
    let mut i: usize = 0;
    while i < values.len()
        invariant
            i <= values.len(),
            lines.len() == i,
            forall|k: int| 0 <= k < i ==> (#[trigger] lines[k])@ == T::spec_line(values[k]@),
        decreases values.len() - i,
    {
        lines.push(values[i].line());
        i = i + 1;
    }
    assert(spec_views(lines@) =~= spec_lines_of::<T>(spec_views(values@)));
    lines
}

/// Writes the line that presents a deletion.
pub fn deletion_line(id: &String, deleted: bool) -> (text: String)
    ensures
        text@ == spec_deletion_line((id@, deleted)),
{
    if deleted {
        id.clone().concat(" deleted")
    } else {
        id.clone().concat(" not deleted")
    }
}

/// A single line.
fn one_line(text: String) -> (lines: Vec<String>)
    ensures
        spec_views(lines@) == seq![text@],
{
    let mut lines: Vec<String> = Vec::new();
    lines.push(text);
    assert(spec_views(lines@) =~= seq![text@]);
    lines
}

impl Line for OpenAIFile {
    /// The identifier, the name and the purpose of the file.
    open spec fn spec_line(value: FileView) -> Seq<char> {
        value.id + " "@ + value.filename + " "@ + value.purpose
    }

    fn line(&self) -> (text: String) {
        let mut text = self.id.clone();
        text.append(" ");
        text.append(self.filename.as_str());
        text.append(" ");
        text.append(self.purpose.as_str());
        text
    }
}

impl Line for OpenAIModel {
    /// The identifier and the owner of the model.
    open spec fn spec_line(value: ModelView) -> Seq<char> {
        value.id + " "@ + value.owned_by
    }

    fn line(&self) -> (text: String) {
        let mut text = self.id.clone();
        text.append(" ");
        text.append(self.owned_by.as_str());
        text
    }
}

impl Line for OpenAIFineTune {
    /// The identifier, the base model and the status of the job.
    open spec fn spec_line(value: FineTuneView) -> Seq<char> {
        value.id + " "@ + value.model + " "@ + value.status
    }

    fn line(&self) -> (text: String) {
        let mut text = self.id.clone();
        text.append(" ");
        text.append(self.model.as_str());
        text.append(" ");
        text.append(self.status.as_str());
        text
    }
}

impl Line for OpenAIFineTuneEvent {
    /// The level of the event and what happened.
    open spec fn spec_line(value: FineTuneEventView) -> Seq<char> {
        value.level + ": "@ + value.message
    }

    fn line(&self) -> (text: String) {
        let mut text = self.level.clone();
        text.append(": ");
        text.append(self.message.as_str());
        text
    }
}

impl Line for OpenAIImage {
    /// The address of the image if it has one, else its content if it has
    /// that, else nothing.
    open spec fn spec_line(value: ImageView) -> Seq<char> {
        match (value.url, value.b64_json) {
            (Some(url), _) => url,
            (None, Some(content)) => content,
            (None, None) => Seq::empty(),
        }
    }

    fn line(&self) -> (text: String) {
        match (&self.url, &self.b64_json) {
            (Some(url), _) => url.clone(),
            (None, Some(content)) => content.clone(),
            (None, None) => String::new(),
        }
    }
}

impl ResponseView {
    /// The lines that present the response: the text of a transcript, the
    /// completions, one line for each item of a list, one line for a single
    /// resource, and nothing for the empty response.
    pub open spec fn spec_lines(self) -> Seq<Seq<char>> {
        match self {
            ResponseView::AudioTranslation(text) => seq![text],
            ResponseView::AudioTranscription(text) => seq![text],
            ResponseView::Completions(choices) => spec_choice_lines(choices, "OpenAI Response: "@),
            ResponseView::Files(files) => spec_lines_of::<OpenAIFile>(files),
            ResponseView::FileDelete(deletion) => seq![spec_deletion_line(deletion)],
            ResponseView::FileUpload(file) => seq![OpenAIFile::spec_line(file)],
            ResponseView::FineTunes(jobs) => spec_lines_of::<OpenAIFineTune>(jobs),
            ResponseView::FineTuneCreate(job) => seq![OpenAIFineTune::spec_line(job)],
            ResponseView::FineTuneCancel(job) => seq![OpenAIFineTune::spec_line(job)],
            ResponseView::FineTuneDetail(job) => seq![OpenAIFineTune::spec_line(job)],
            ResponseView::FineTuneEvents(events) => spec_lines_of::<OpenAIFineTuneEvent>(events),
            ResponseView::ImageVariation(images) => spec_lines_of::<OpenAIImage>(images),
            ResponseView::Models(models) => spec_lines_of::<OpenAIModel>(models),
            ResponseView::ModelDelete(deletion) => seq![spec_deletion_line(deletion)],
            ResponseView::Empty => Seq::empty(),
        }
    }
}

impl OpenAIResponse {
    /// Writes the lines that present the response to the caller.
    pub fn lines(&self) -> (lines: Vec<String>)
        ensures
            spec_views(lines@) == self@.spec_lines(),
    {
        match self {
            OpenAIResponse::OpenAIAudioTranslationResponse(r) => one_line(r.text.clone()),
            OpenAIResponse::OpenAIAudioTranscriptionResponse(r) => one_line(r.text.clone()),
            OpenAIResponse::OpenAICompletionsResponse(r) => choice_lines(
                &r.choices,
                "OpenAI Response: ",
            ),
            OpenAIResponse::OpenAIFilesResponse(r) => lines_of(&r.data),
            OpenAIResponse::OpenAIFileDeleteResponse(r) => one_line(
                deletion_line(&r.id, r.deleted),
            ),
            OpenAIResponse::OpenAIFileUploadResponse(r) => one_line(r.file.line()),
            OpenAIResponse::OpenAIFineTunesResponse(r) => lines_of(&r.data),
            OpenAIResponse::OpenAIFineTuneCreateResponse(r) => one_line(r.job.line()),
            OpenAIResponse::OpenAIFineTuneCancelResponse(r) => one_line(r.job.line()),
            OpenAIResponse::OpenAIFineTuneDetailResponse(r) => one_line(r.job.line()),
            OpenAIResponse::OpenAIFineTuneEventsResponse(r) => lines_of(&r.data),
            OpenAIResponse::OpenAIImageVariationResponse(r) => lines_of(&r.data),
            OpenAIResponse::OpenAIModelsResponse(r) => lines_of(&r.data),
            OpenAIResponse::OpenAIModelDeleteResponse(r) => one_line(
                deletion_line(&r.id, r.deleted),
            ),
            OpenAIResponse::Empty => {
                let lines: Vec<String> = Vec::new();
                assert(spec_views(lines@) =~= Seq::<Seq<char>>::empty());
                lines
            },
        }
    }
}

} // verus!
