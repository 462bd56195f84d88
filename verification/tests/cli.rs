use chatgbt_buddy::cli::select::{
    create_audio_request, create_completions_request, create_file_delete_request,
    create_file_request, create_file_upload_request, create_finetune_create_request,
    create_finetune_request, create_finetunes_request, create_models_request,
    process_cli_request, CliStep,
};
use chatgbt_buddy::cli::{
    file_reference, followed, joined, CliAudio, CliEmbeddings, CliFiles, CliFineTune, CliImage,
    CliInterface, CliModels, CliRequest, PromptPlan,
};
use chatgbt_buddy::openai::failure::Failure;
use chatgbt_buddy::openai::request::{
    OpenAIAudioTranscriptionRequest, OpenAIAudioTranslationRequest, OpenAICompletionsRequest,
    OpenAIFileDeleteRequest, OpenAIFileUploadRequest, OpenAIFilesRequest,
    OpenAIFineTuneCancelRequest, OpenAIFineTuneCreateRequest, OpenAIFineTuneDetailRequest,
    OpenAIFineTuneEventsRequest, OpenAIFineTunesRequest, OpenAIModelDeleteRequest,
    OpenAIModelsRequest, OpenAIRequest,
};

fn options() -> CliInterface {
    CliInterface {
        verbose: 0,
        prompt: Some("Hello".to_string()),
        instruction: None,
        model: "text-davinci-003".to_string(),
        max_tokens: 2048,
        temperature: "0.5".to_string(),
        api_auth_token: Some("sk-test".to_string()),
        user: None,
        suffix: None,
        top_p: "1".to_string(),
        n: 1,
        stream: false,
        logprobs: None,
        echo: false,
        stop: None,
        presence_penalty: "0".to_string(),
        frequency_penalty: "0".to_string(),
        best_of: 1,
        logit_bias: None,
        args: None,
    }
}

fn files() -> CliFiles {
    CliFiles { file: None, purpose: "fine-tune".to_string(), delete: None }
}

fn fine_tune() -> CliFineTune {
    CliFineTune {
        fine_tune_id: None,
        events: false,
        training_file: None,
        validation_file: None,
        model: "davinci".to_string(),
        n_epochs: 4,
        prompt_loss_weight: "0.01".to_string(),
        compute_classification_metrics: false,
        suffix: None,
        batch_size: None,
        classification_n_classes: None,
        classification_positive_class: None,
        classification_betas: None,
        cancel: false,
    }
}

fn audio() -> CliAudio {
    CliAudio {
        file: "speech.mp3".to_string(),
        transcriptions: false,
        translations: false,
        model: "whisper-1".to_string(),
        prompt: Some("Names".to_string()),
        response_format: "json".to_string(),
        temperature: "0".to_string(),
        language: Some("de".to_string()),
    }
}

fn image() -> CliImage {
    CliImage {
        prompt: None,
        out_path: String::new(),
        image: None,
        mask: None,
        n: 1,
        size: "1024x1024".to_string(),
        response_format: "b64_json".to_string(),
        user: None,
    }
}

#[test]
fn cli_files_without_options_lists() {
    let expected = OpenAIRequest::OpenAIFilesRequest(OpenAIFilesRequest {});
    assert_eq!(create_file_request(files()), expected);
    assert_eq!(create_file_delete_request(files()), expected);
}

#[test]
fn cli_files_with_file_uploads() {
    let mut settings = files();
    settings.file = Some("sets/data.jsonl".to_string());
    settings.delete = Some("file-1".to_string());
    settings.purpose = "answers".to_string();
    let expected = OpenAIRequest::OpenAIFileUploadRequest(OpenAIFileUploadRequest {
        file: "sets/data.jsonl".to_string(),
        purpose: "answers".to_string(),
    });
    assert_eq!(create_file_request(settings.clone()), expected);
    assert_eq!(create_file_upload_request(settings, "sets/data.jsonl".to_string()), expected);
}

#[test]
fn cli_files_with_delete_deletes() {
    let mut settings = files();
    settings.delete = Some("file-1".to_string());
    let expected = OpenAIRequest::OpenAIFileDeleteRequest(OpenAIFileDeleteRequest {
        filename: "file-1".to_string(),
    });
    assert_eq!(create_file_request(settings), expected);
}

#[test]
fn cli_models_lists_or_deletes() {
    assert_eq!(
        create_models_request(CliModels { delete: None }),
        OpenAIRequest::OpenAIModelsRequest(OpenAIModelsRequest {})
    );
    assert_eq!(
        create_models_request(CliModels { delete: Some("curie:ft-x".to_string()) }),
        OpenAIRequest::OpenAIModelDeleteRequest(OpenAIModelDeleteRequest {
            model_name: "curie:ft-x".to_string(),
        })
    );
}

#[test]
fn cli_fine_tunes_without_options_lists() {
    assert_eq!(
        create_finetunes_request(fine_tune()),
        OpenAIRequest::OpenAIFineTunesRequest(OpenAIFineTunesRequest {})
    );
}

#[test]
fn cli_fine_tunes_with_training_file_creates() {
    let mut settings = fine_tune();
    settings.training_file = Some("file-train".to_string());
    settings.fine_tune_id = Some("ft-1".to_string());
    settings.validation_file = Some("file-check".to_string());
    settings.batch_size = Some(8);
    settings.suffix = Some("mine".to_string());
    settings.n_epochs = 2;
    let expected = OpenAIRequest::OpenAIFineTuneCreateRequest(OpenAIFineTuneCreateRequest {
        training_file: "file-train".to_string(),
        validation_file: Some("file-check".to_string()),
        model: "davinci".to_string(),
        n_epochs: 2,
        batch_size: Some(8),
        prompt_loss_weight: "0.01".to_string(),
        compute_classification_metrics: false,
        classification_n_classes: None,
        classification_positive_class: None,
        classification_betas: None,
        suffix: Some("mine".to_string()),
    });
    assert_eq!(create_finetunes_request(settings.clone()), expected);
    assert_eq!(create_finetune_create_request(settings, "file-train".to_string()), expected);
}

#[test]
fn cli_fine_tunes_with_job_asks_for_details() {
    let mut settings = fine_tune();
    settings.fine_tune_id = Some("ft-1".to_string());
    let expected = OpenAIRequest::OpenAIFineTuneDetailRequest(OpenAIFineTuneDetailRequest {
        fine_tune_id: "ft-1".to_string(),
    });
    assert_eq!(create_finetunes_request(settings.clone()), expected);
    assert_eq!(create_finetune_request(settings, "ft-1".to_string()), expected);
}

#[test]
fn cli_fine_tunes_with_job_and_cancel_cancels() {
    let mut settings = fine_tune();
    settings.fine_tune_id = Some("ft-1".to_string());
    settings.cancel = true;
    assert_eq!(
        create_finetunes_request(settings),
        OpenAIRequest::OpenAIFineTuneCancelRequest(OpenAIFineTuneCancelRequest {
            fine_tune_id: "ft-1".to_string(),
        })
    );
}

#[test]
fn cli_fine_tunes_events_go_before_cancel() {
    let mut settings = fine_tune();
    settings.fine_tune_id = Some("ft-1".to_string());
    settings.cancel = true;
    settings.events = true;
    assert_eq!(
        create_finetunes_request(settings),
        OpenAIRequest::OpenAIFineTuneEventsRequest(OpenAIFineTuneEventsRequest {
            fine_tune_id: "ft-1".to_string(),
        })
    );
}

#[test]
fn cli_audio_without_translations() {
    let settings = audio();
    assert!(settings.transcriptions());
    assert_eq!(
        create_audio_request(settings),
        OpenAIRequest::OpenAIAudioTranslationRequest(OpenAIAudioTranslationRequest {
            file: "speech.mp3".to_string(),
            model: "whisper-1".to_string(),
            prompt: Some("Names".to_string()),
            response_format: "json".to_string(),
            temperature: "0".to_string(),
        })
    );
}

#[test]
fn cli_audio_with_translations() {
    let mut settings = audio();
    settings.translations = true;
    assert!(!settings.transcriptions());
    assert_eq!(
        create_audio_request(settings),
        OpenAIRequest::OpenAIAudioTranscriptionRequest(OpenAIAudioTranscriptionRequest {
            file: "speech.mp3".to_string(),
            model: "whisper-1".to_string(),
            prompt: Some("Names".to_string()),
            response_format: "json".to_string(),
            temperature: "0".to_string(),
            language: Some("de".to_string()),
        })
    );
}

#[test]
fn cli_completion_takes_the_sampling_options() {
    let mut settings = options();
    settings.stop = Some(vec!["END".to_string()]);
    settings.logprobs = Some(2);
    settings.suffix = Some("!".to_string());
    settings.echo = true;
    let expected = OpenAIRequest::OpenAICompletionsRequest(OpenAICompletionsRequest {
        model: "text-davinci-003".to_string(),
        prompt: "What now?".to_string(),
        max_tokens: 2048,
        temperature: "0.5".to_string(),
        user: "ada".to_string(),
        logit_bias: None,
        best_of: 1,
        frequency_penalty: "0".to_string(),
        presence_penalty: "0".to_string(),
        stop: Some(vec!["END".to_string()]),
        echo: true,
        logprobs: Some(2),
        stream: false,
        n: 1,
        top_p: "1".to_string(),
        suffix: Some("!".to_string()),
    });
    assert_eq!(
        create_completions_request(settings, "What now?".to_string(), "ada".to_string()),
        expected
    );
}

#[test]
fn cli_step_without_operation_completes() {
    assert_eq!(process_cli_request(options()), CliStep::Complete(options()));
}

#[test]
fn cli_step_with_operation_dispatches() {
    let mut with_models = options();
    with_models.args = Some(CliRequest::CliModels(CliModels { delete: None }));
    assert_eq!(
        process_cli_request(with_models),
        CliStep::Dispatch(OpenAIRequest::OpenAIModelsRequest(OpenAIModelsRequest {}))
    );
    let mut with_files = options();
    with_files.args = Some(CliRequest::CliFiles(files()));
    assert_eq!(
        process_cli_request(with_files),
        CliStep::Dispatch(OpenAIRequest::OpenAIFilesRequest(OpenAIFilesRequest {}))
    );
    let mut with_jobs = options();
    with_jobs.args = Some(CliRequest::CliFineTune(fine_tune()));
    assert_eq!(
        process_cli_request(with_jobs),
        CliStep::Dispatch(OpenAIRequest::OpenAIFineTunesRequest(OpenAIFineTunesRequest {}))
    );
    let mut with_audio = options();
    with_audio.args = Some(CliRequest::CliAudio(audio()));
    assert_eq!(process_cli_request(with_audio), CliStep::Dispatch(create_audio_request(audio())));
}

#[test]
fn cli_step_for_images_selects_nothing() {
    let mut with_image = options();
    with_image.args = Some(CliRequest::CliImage(image()));
    assert_eq!(process_cli_request(with_image), CliStep::Dispatch(OpenAIRequest::Empty));
}

#[test]
fn cli_file_reference_begins_with_the_flag() {
    assert_eq!(file_reference("@notes.txt"), Some("notes.txt".to_string()));
    assert_eq!(file_reference("@dir/@odd@.txt"), Some("dir/odd.txt".to_string()));
    assert_eq!(file_reference("@"), Some(String::new()));
    assert_eq!(file_reference("notes@home.txt"), None);
    assert_eq!(file_reference("Hello"), None);
    assert_eq!(file_reference(""), None);
    assert_eq!(file_reference("\u{e9}@"), None);
}

#[test]
fn cli_followed_text_is_the_file_or_the_text() {
    let reference = "@notes.txt".to_string();
    assert_eq!(followed(&reference, Some("from file".to_string())), "from file");
    assert_eq!(followed(&reference, None), "@notes.txt");
    let plain = "Hello".to_string();
    assert_eq!(followed(&plain, Some("from file".to_string())), "Hello");
    assert_eq!(followed(&plain, None), "Hello");
}

#[test]
fn cli_joined_lines_have_nothing_between_them() {
    assert_eq!(joined(&vec![]), "");
    assert_eq!(joined(&vec!["one".to_string()]), "one");
    assert_eq!(
        joined(&vec!["one".to_string(), String::new(), " two".to_string(), "3".to_string()]),
        "one two3"
    );
}

#[test]
fn cli_prompt_plan_for_a_given_prompt() {
    let settings = options();
    assert_eq!(settings.prompt_with(true), PromptPlan::Ready("Hello".to_string()));
    assert_eq!(settings.prompt_with(false), PromptPlan::Ready("Hello".to_string()));
    assert_eq!(settings.prompt(), PromptPlan::Ready("Hello".to_string()));
    assert_eq!(settings.prompt_file(), None);
}

#[test]
fn cli_prompt_plan_for_a_file_reference() {
    let mut settings = options();
    settings.prompt = Some("@question.txt".to_string());
    let expected = PromptPlan::ReadFile {
        path: "question.txt".to_string(),
        fallback: "@question.txt".to_string(),
    };
    assert_eq!(settings.prompt_with(true), expected);
    assert_eq!(settings.prompt(), expected);
    assert_eq!(settings.prompt_file(), Some("question.txt".to_string()));
}

#[test]
fn cli_prompt_plan_without_prompt() {
    let mut settings = options();
    settings.prompt = None;
    assert_eq!(settings.prompt_with(false), PromptPlan::ReadInput);
    assert_eq!(settings.prompt_with(true), PromptPlan::ShowHelp);
    let plan = settings.prompt();
    assert!(plan == PromptPlan::ReadInput || plan == PromptPlan::ShowHelp);
    assert_eq!(settings.prompt_file(), None);
}

#[test]
fn cli_prompt_string_follows_the_reference() {
    let mut settings = options();
    assert_eq!(settings.prompt_string(None), Some("Hello".to_string()));
    assert_eq!(settings.prompt_string(Some("file".to_string())), Some("Hello".to_string()));
    settings.prompt = Some("@question.txt".to_string());
    assert_eq!(settings.prompt_string(Some("file".to_string())), Some("file".to_string()));
    assert_eq!(settings.prompt_string(None), Some("@question.txt".to_string()));
    settings.prompt = None;
    assert_eq!(settings.prompt_string(Some("file".to_string())), None);
}

#[test]
fn cli_instruction_follows_the_reference() {
    let mut settings = options();
    assert_eq!(settings.instruction(None), None);
    assert_eq!(settings.instruction_file(), None);
    settings.instruction = Some("Fix the spelling".to_string());
    assert_eq!(settings.instruction(Some("file".to_string())), Some("Fix the spelling".to_string()));
    assert_eq!(settings.instruction_file(), None);
    settings.instruction = Some("@how.txt".to_string());
    assert_eq!(settings.instruction_file(), Some("how.txt".to_string()));
    assert_eq!(settings.instruction(Some("file".to_string())), Some("file".to_string()));
    assert_eq!(settings.instruction(None), Some("@how.txt".to_string()));
}

#[test]
fn cli_file_flag_is_the_at_sign() {
    let settings = options();
    assert!(settings.is_file_flag('@'));
    assert!(!settings.is_file_flag('a'));
    assert!(!settings.is_file_flag(' '));
}

#[test]
fn cli_user_is_the_given_one() {
    let mut settings = options();
    settings.user = Some("ada".to_string());
    assert_eq!(settings.user(), "ada");
    assert_eq!(settings.user_or("login".to_string()), "ada");
    settings.user = None;
    assert_eq!(settings.user_or("login".to_string()), "login");
    let mut pictures = image();
    pictures.user = Some("grace".to_string());
    assert_eq!(pictures.user(), "grace");
    assert_eq!(pictures.user_or("login".to_string()), "grace");
    pictures.user = None;
    assert_eq!(pictures.user_or("login".to_string()), "login");
    let embeddings = CliEmbeddings {
        input: "text".to_string(),
        model: "text-embedding-ada-002".to_string(),
        user: Some("lin".to_string()),
    };
    assert_eq!(embeddings.user(), "lin");
    assert_eq!(embeddings.user_or("login".to_string()), "lin");
    assert_eq!(embeddings.input(), "text");
    assert_eq!(embeddings.model(), "text-embedding-ada-002");
}

#[test]
fn cli_token_is_required() {
    let mut settings = options();
    assert_eq!(settings.api_auth_token(), Ok("sk-test".to_string()));
    settings.api_auth_token = None;
    assert_eq!(settings.api_auth_token(), Err(Failure::Configuration));
}

#[test]
fn cli_image_prompt() {
    let mut pictures = image();
    assert!(!pictures.is_prompt());
    assert_eq!(pictures.prompt(), "");
    pictures.prompt = Some("an otter".to_string());
    assert!(pictures.is_prompt());
    assert_eq!(pictures.prompt(), "an otter");
    assert_eq!(pictures.n(), &1);
    assert_eq!(pictures.size(), "1024x1024");
    assert_eq!(pictures.response_format(), "b64_json");
    assert_eq!(pictures.image(), &None);
    assert_eq!(pictures.mask(), &None);
    assert_eq!(pictures.out_path(), "");
}

#[test]
fn cli_accessors_give_the_options() {
    let settings = options();
    assert_eq!(settings.model(), "text-davinci-003");
    assert_eq!(settings.max_tokens(), 2048);
    assert_eq!(settings.temperature(), "0.5");
    assert_eq!(settings.top_p(), "1");
    assert_eq!(settings.n(), &1);
    assert_eq!(settings.best_of(), &1);
    assert_eq!(settings.stream(), &false);
    assert_eq!(settings.echo(), &false);
    assert_eq!(settings.suffix(), &None);
    assert_eq!(settings.stop(), &None);
    assert_eq!(settings.logprobs(), &None);
    assert_eq!(settings.logit_bias(), &None);
    assert_eq!(settings.presence_penalty(), "0");
    assert_eq!(settings.frequency_penalty(), "0");
    let sound = audio();
    assert_eq!(sound.translations(), &false);
    assert_eq!(sound.language(), &Some("de".to_string()));
    assert_eq!(sound.temperature(), "0");
    assert_eq!(sound.response_format(), "json");
    assert_eq!(sound.prompt(), &Some("Names".to_string()));
    assert_eq!(sound.model(), "whisper-1");
    assert_eq!(sound.file(), "speech.mp3");
    let jobs = fine_tune();
    assert_eq!(jobs.training_file(), None);
    assert!(!jobs.cancel());
    assert_eq!(jobs.n_epochs(), &4);
    assert_eq!(jobs.model(), "davinci");
    assert_eq!(jobs.prompt_loss_weight(), "0.01");
    assert_eq!(jobs.events(), &false);
    assert_eq!(jobs.fine_tune_id(), &None);
    let stored = files();
    assert_eq!(stored.file(), None);
    assert_eq!(stored.delete(), None);
    assert_eq!(stored.purpose(), "fine-tune");
    assert_eq!(CliModels { delete: Some("m".to_string()) }.delete(), &Some("m".to_string()));
}
