//! From the options of the command line to the request that is made.

use vstd::prelude::*;

use crate::cli::{CliAudio, CliFiles, CliFineTune, CliInterface, CliModels, CliRequest};
use crate::openai::request::{
    OpenAIAudioTranscriptionRequest, OpenAIAudioTranslationRequest, OpenAICompletionsRequest,
    OpenAIFileDeleteRequest, OpenAIFileUploadRequest, OpenAIFilesRequest,
    OpenAIFineTuneCancelRequest, OpenAIFineTuneCreateRequest, OpenAIFineTuneDetailRequest,
    OpenAIFineTuneEventsRequest, OpenAIFineTunesRequest, OpenAIModelDeleteRequest,
    OpenAIModelsRequest, OpenAIRequest,
};

verus! {

/// What the options of the command line lead to.
#[derive(Debug, Clone, PartialEq, Eq)]
pub enum CliStep {
    /// The caller named an operation: this request is made.
    Dispatch(OpenAIRequest),
    /// The caller named no operation: a prompt is completed, once the
    /// prompt and the end user have been found out.
    Complete(CliInterface),
}

/// The upload of the file at `file_path`.
pub open spec fn spec_file_upload_request(settings: CliFiles, file_path: String) -> OpenAIRequest {
    OpenAIRequest::OpenAIFileUploadRequest(
        OpenAIFileUploadRequest { file: file_path, purpose: settings.purpose },
    )
}

/// The deletion of a file if one is named for deletion, and the list of
/// the files otherwise.
pub open spec fn spec_file_delete_request(settings: CliFiles) -> OpenAIRequest {
    match settings.delete {
        Some(filename) => OpenAIRequest::OpenAIFileDeleteRequest(
            OpenAIFileDeleteRequest { filename },
        ),
        None => OpenAIRequest::OpenAIFilesRequest(OpenAIFilesRequest {  }),
    }
}

/// The request of the file operations: an upload if a file is given, and
/// otherwise a deletion or the list.
pub open spec fn spec_file_request(settings: CliFiles) -> OpenAIRequest {
    match settings.file {
        Some(file_path) => spec_file_upload_request(settings, file_path),
        None => spec_file_delete_request(settings),
    }
}

/// The request of the model operations: a deletion if a model is named for
/// deletion, and the list of the models otherwise.
pub open spec fn spec_models_request(settings: CliModels) -> OpenAIRequest {
    match settings.delete {
        Some(model_name) => OpenAIRequest::OpenAIModelDeleteRequest(
            OpenAIModelDeleteRequest { model_name },
        ),
        None => OpenAIRequest::OpenAIModelsRequest(OpenAIModelsRequest {  }),
    }
}

/// The start of a fine-tune job on the training data in `file`.
pub open spec fn spec_finetune_create_request(settings: CliFineTune, file: String) -> OpenAIRequest {
    OpenAIRequest::OpenAIFineTuneCreateRequest(
        OpenAIFineTuneCreateRequest {
            training_file: file,
            validation_file: settings.validation_file,
            model: settings.model,
            n_epochs: settings.n_epochs,
            batch_size: settings.batch_size,
            prompt_loss_weight: settings.prompt_loss_weight,
            compute_classification_metrics: settings.compute_classification_metrics,
            classification_n_classes: settings.classification_n_classes,
            classification_positive_class: settings.classification_positive_class,
            classification_betas: settings.classification_betas,
            suffix: settings.suffix,
        },
    )
}

/// The request about one fine-tune job: its events if they are asked for,
/// else its cancellation if that is asked for, else its details.
pub open spec fn spec_finetune_request(settings: CliFineTune, fine_tune_id: String) -> OpenAIRequest {
    if settings.events {
        OpenAIRequest::OpenAIFineTuneEventsRequest(OpenAIFineTuneEventsRequest { fine_tune_id })
    } else if settings.cancel {
        OpenAIRequest::OpenAIFineTuneCancelRequest(OpenAIFineTuneCancelRequest { fine_tune_id })
    } else {
        OpenAIRequest::OpenAIFineTuneDetailRequest(OpenAIFineTuneDetailRequest { fine_tune_id })
    }
}

/// The request of the fine-tune operations: the start of a job if training
/// data is given, else a request about the job that is named, else the list
/// of the jobs.
pub open spec fn spec_finetunes_request(settings: CliFineTune) -> OpenAIRequest {
    match settings.training_file {
        Some(file) => spec_finetune_create_request(settings, file),
        None => match settings.fine_tune_id {
            Some(fine_tune_id) => spec_finetune_request(settings, fine_tune_id),
            None => OpenAIRequest::OpenAIFineTunesRequest(OpenAIFineTunesRequest {  }),
        },
    }
}

/// The request of the audio operations: the translation operation unless
/// `translations` is set, and the transcription operation, which alone
/// takes the language of the speech, when it is.
pub open spec fn spec_audio_request(settings: CliAudio) -> OpenAIRequest {
    if !settings.translations {
        OpenAIRequest::OpenAIAudioTranslationRequest(
            OpenAIAudioTranslationRequest {
                file: settings.file,
                model: settings.model,
                prompt: settings.prompt,
                response_format: settings.response_format,
                temperature: settings.temperature,
            },
        )
    } else {
        OpenAIRequest::OpenAIAudioTranscriptionRequest(
            OpenAIAudioTranscriptionRequest {
                file: settings.file,
                model: settings.model,
                prompt: settings.prompt,
                response_format: settings.response_format,
                temperature: settings.temperature,
                language: settings.language,
            },
        )
    }
}

/// The completion of `prompt` on behalf of `user`, with the sampling
/// options of the command line.
pub open spec fn spec_completions_request(
    settings: CliInterface,
    prompt: String,
    user: String,
) -> OpenAIRequest {
    OpenAIRequest::OpenAICompletionsRequest(
        OpenAICompletionsRequest {
            model: settings.model,
            prompt,
            max_tokens: settings.max_tokens,
            temperature: settings.temperature,
            user,
            logit_bias: settings.logit_bias,
            best_of: settings.best_of,
            frequency_penalty: settings.frequency_penalty,
            presence_penalty: settings.presence_penalty,
            stop: settings.stop,
            echo: settings.echo,
            logprobs: settings.logprobs,
            stream: settings.stream,
            n: settings.n,
            top_p: settings.top_p,
            suffix: settings.suffix,
        },
    )
}

/// What the options of the command line lead to: the request of the
/// operation that the caller named, or the completion of a prompt when none
/// was named. The image operations lead to no request.
pub open spec fn spec_cli_step(cli_options: CliInterface) -> CliStep {
    match cli_options.args {
        Some(CliRequest::CliFiles(settings)) => CliStep::Dispatch(spec_file_request(settings)),
        Some(CliRequest::CliModels(settings)) => CliStep::Dispatch(spec_models_request(settings)),
        Some(CliRequest::CliFineTune(settings)) => CliStep::Dispatch(
            spec_finetunes_request(settings),
        ),
        Some(CliRequest::CliAudio(settings)) => CliStep::Dispatch(spec_audio_request(settings)),
        Some(CliRequest::CliImage(_)) => CliStep::Dispatch(OpenAIRequest::Empty),
        None => CliStep::Complete(cli_options),
    }
}

/// The upload of the file at `file_path`.
pub fn create_file_upload_request(settings: CliFiles, file_path: String) -> (request: OpenAIRequest)
    ensures
        request == spec_file_upload_request(settings, file_path),
{
    OpenAIRequest::OpenAIFileUploadRequest(
        OpenAIFileUploadRequest { file: file_path, purpose: settings.purpose },
    )
}

/// The deletion of a file if one is named for deletion, and the list of
/// the files otherwise.
pub fn create_file_delete_request(settings: CliFiles) -> (request: OpenAIRequest)
    ensures
        request == spec_file_delete_request(settings),
{
    match settings.delete {
        Some(filename) => OpenAIRequest::OpenAIFileDeleteRequest(
            OpenAIFileDeleteRequest { filename },
        ),
        None => OpenAIRequest::OpenAIFilesRequest(OpenAIFilesRequest {  }),
    }
}

/// The request of the file operations.
pub fn create_file_request(settings: CliFiles) -> (request: OpenAIRequest)
    ensures
        request == spec_file_request(settings),
{
    match &settings.file {
        Some(file_path) => {
            let file_path = file_path.clone();
            create_file_upload_request(settings, file_path)
        },
        None => create_file_delete_request(settings),
    }
}

/// The request of the model operations.
pub fn create_models_request(settings: CliModels) -> (request: OpenAIRequest)
    ensures
        request == spec_models_request(settings),
{
    match settings.delete {
        Some(model_name) => OpenAIRequest::OpenAIModelDeleteRequest(
            OpenAIModelDeleteRequest { model_name },
        ),
        None => OpenAIRequest::OpenAIModelsRequest(OpenAIModelsRequest {  }),
    }
}

/// The start of a fine-tune job on the training data in `file`.
pub fn create_finetune_create_request(settings: CliFineTune, file: String) -> (request:
    OpenAIRequest)
    ensures
        request == spec_finetune_create_request(settings, file),
{
    OpenAIRequest::OpenAIFineTuneCreateRequest(
        OpenAIFineTuneCreateRequest {
            training_file: file,
            validation_file: settings.validation_file,
            model: settings.model,
            n_epochs: settings.n_epochs,
            batch_size: settings.batch_size,
            prompt_loss_weight: settings.prompt_loss_weight,
            compute_classification_metrics: settings.compute_classification_metrics,
            classification_n_classes: settings.classification_n_classes,
            classification_positive_class: settings.classification_positive_class,
            classification_betas: settings.classification_betas,
            suffix: settings.suffix,
        },
    )
}

/// The request about one fine-tune job.
pub fn create_finetune_request(settings: CliFineTune, fine_tune_id: String) -> (request:
    OpenAIRequest)
    ensures
        request == spec_finetune_request(settings, fine_tune_id),
{
    if settings.events {
        OpenAIRequest::OpenAIFineTuneEventsRequest(OpenAIFineTuneEventsRequest { fine_tune_id })
    } else if settings.cancel {
        OpenAIRequest::OpenAIFineTuneCancelRequest(OpenAIFineTuneCancelRequest { fine_tune_id })
    } else {
        OpenAIRequest::OpenAIFineTuneDetailRequest(OpenAIFineTuneDetailRequest { fine_tune_id })
    }
}

/// The request of the fine-tune operations.
pub fn create_finetunes_request(settings: CliFineTune) -> (request: OpenAIRequest)
    ensures
        request == spec_finetunes_request(settings),
{
    match (&settings.training_file, &settings.fine_tune_id) {
        (Some(file), _) => {
            let file = file.clone();
            create_finetune_create_request(settings, file)
        },
        (None, Some(fine_tune_id)) => {
            let fine_tune_id = fine_tune_id.clone();
            create_finetune_request(settings, fine_tune_id)
        },
        (None, None) => OpenAIRequest::OpenAIFineTunesRequest(OpenAIFineTunesRequest {  }),
    }
}

/// The request of the audio operations.
pub fn create_audio_request(settings: CliAudio) -> (request: OpenAIRequest)
    ensures
        request == spec_audio_request(settings),
{
    if settings.transcriptions() {
        OpenAIRequest::OpenAIAudioTranslationRequest(
            OpenAIAudioTranslationRequest {
                file: settings.file,
                model: settings.model,
                prompt: settings.prompt,
                response_format: settings.response_format,
                temperature: settings.temperature,
            },
        )
    } else {
        OpenAIRequest::OpenAIAudioTranscriptionRequest(
            OpenAIAudioTranscriptionRequest {
                file: settings.file,
                model: settings.model,
                prompt: settings.prompt,
                response_format: settings.response_format,
                temperature: settings.temperature,
                language: settings.language,
            },
        )
    }
}

/// The completion of `prompt` on behalf of `user`.
pub fn create_completions_request(settings: CliInterface, prompt: String, user: String) -> (request:
    OpenAIRequest)
    ensures
        request == spec_completions_request(settings, prompt, user),
{
    OpenAIRequest::OpenAICompletionsRequest(
        OpenAICompletionsRequest {
            model: settings.model,
            prompt,
            max_tokens: settings.max_tokens,
            temperature: settings.temperature,
            user,
            logit_bias: settings.logit_bias,
            best_of: settings.best_of,
            frequency_penalty: settings.frequency_penalty,
            presence_penalty: settings.presence_penalty,
            stop: settings.stop,
            echo: settings.echo,
            logprobs: settings.logprobs,
            stream: settings.stream,
            n: settings.n,
            top_p: settings.top_p,
            suffix: settings.suffix,
        },
    )
}

/// Decides what the options of the command line lead to.
pub fn process_cli_request(cli_options: CliInterface) -> (step: CliStep)
    ensures
        step == spec_cli_step(cli_options),
{
    match cli_options.args {
        Some(CliRequest::CliFiles(settings)) => CliStep::Dispatch(create_file_request(settings)),
        Some(CliRequest::CliModels(settings)) => CliStep::Dispatch(create_models_request(settings)),
        Some(CliRequest::CliFineTune(settings)) => CliStep::Dispatch(
            create_finetunes_request(settings),
        ),
        Some(CliRequest::CliAudio(settings)) => CliStep::Dispatch(create_audio_request(settings)),
        Some(CliRequest::CliImage(_)) => CliStep::Dispatch(OpenAIRequest::Empty),
        None => CliStep::Complete(cli_options),
    }
}

} // verus!
