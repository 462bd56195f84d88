use chatgbt_buddy::openai::failure::Failure;
use chatgbt_buddy::openai::json::{Json, Member};
use chatgbt_buddy::openai::request::{
    OpenAIAudioTranscriptionRequest, OpenAIAudioTranslationRequest, OpenAICompletionsRequest,
    OpenAIFileDeleteRequest, OpenAIFileUploadRequest, OpenAIFilesRequest,
    OpenAIFineTuneCancelRequest, OpenAIFineTuneCreateRequest, OpenAIFineTuneDetailRequest,
    OpenAIFineTuneEventsRequest, OpenAIFineTunesRequest, OpenAIImageVariationRequest,
    OpenAIModelDeleteRequest, OpenAIModelsRequest, OpenAIRequest,
};
use chatgbt_buddy::openai::response::{
    Choice, OpenAIAudioTranscriptionResponse, OpenAIAudioTranslationResponse,
    OpenAICompletionsResponse, OpenAIFile, OpenAIFileDeleteResponse, OpenAIFileUploadResponse,
    OpenAIFilesResponse, OpenAIFineTune, OpenAIFineTuneCancelResponse,
    OpenAIFineTuneCreateResponse, OpenAIFineTuneDetailResponse, OpenAIFineTuneEvent,
    OpenAIFineTuneEventsResponse, OpenAIFineTunesResponse, OpenAIImage,
    OpenAIImageVariationResponse, OpenAIModel, OpenAIModelDeleteResponse, OpenAIModelsResponse,
    OpenAIResponse,
};

const COMPLETION_BODY: &str = "{\"id\":\"cmpl-1\",\"object\":\"text_completion\",\"choices\":[{\"text\":\"\\n\\nHi there\",\"index\":0,\"logprobs\":null,\"finish_reason\":\"stop\"}],\"usage\":{\"total_tokens\":7}}";
const MODELS_BODY: &str = "{\"object\":\"list\",\"data\":[{\"id\":\"davinci\",\"object\":\"model\",\"owned_by\":\"openai\"},{\"id\":\"curie:ft-x\",\"object\":\"model\",\"owned_by\":\"acme\"}]}";
const FILES_BODY: &str = "{\"object\":\"list\",\"data\":[{\"id\":\"file-1\",\"object\":\"file\",\"bytes\":140,\"created_at\":1613779121,\"filename\":\"train.jsonl\",\"purpose\":\"fine-tune\"}]}";
const FILE_BODY: &str = "{\"id\":\"file-2\",\"object\":\"file\",\"bytes\":9,\"filename\":\"data.jsonl\",\"purpose\":\"fine-tune\"}";
const DELETED_BODY: &str = "{\"id\":\"file-1\",\"object\":\"file\",\"deleted\":true}";
const JOB_BODY: &str = "{\"id\":\"ft-1\",\"object\":\"fine-tune\",\"model\":\"curie\",\"status\":\"pending\",\"events\":[]}";
const JOBS_BODY: &str = "{\"object\":\"list\",\"data\":[{\"id\":\"ft-1\",\"model\":\"curie\",\"status\":\"pending\"},{\"id\":\"ft-2\",\"model\":\"davinci\",\"status\":\"succeeded\"}]}";
const EVENTS_BODY: &str = "{\"object\":\"list\",\"data\":[{\"object\":\"fine-tune-event\",\"created_at\":1,\"level\":\"info\",\"message\":\"Job enqueued.\"}]}";
const TRANSCRIPT_BODY: &str = "{\"text\":\"Hello there.\"}";
const IMAGES_BODY: &str = "{\"created\":1,\"data\":[{\"url\":\"https://example.test/a.png\"},{\"b64_json\":\"QUJD\"},{\"url\":null}]}";

fn completion() -> OpenAICompletionsRequest {
    OpenAICompletionsRequest {
        model: "text-davinci-003".to_string(),
        prompt: "Hello".to_string(),
        max_tokens: 16,
        temperature: "0.5".to_string(),
        user: "u".to_string(),
        logit_bias: None,
        best_of: 1,
        frequency_penalty: "0".to_string(),
        presence_penalty: "0".to_string(),
        stop: None,
        echo: false,
        logprobs: None,
        stream: false,
        n: 1,
        top_p: "1".to_string(),
        suffix: None,
    }
}

fn fine_tune_create() -> OpenAIFineTuneCreateRequest {
    OpenAIFineTuneCreateRequest {
        training_file: "file-train".to_string(),
        validation_file: None,
        model: "davinci".to_string(),
        n_epochs: 4,
        batch_size: None,
        prompt_loss_weight: "0.01".to_string(),
        compute_classification_metrics: false,
        classification_n_classes: None,
        classification_positive_class: None,
        classification_betas: None,
        suffix: None,
    }
}

fn translation() -> OpenAIAudioTranslationRequest {
    OpenAIAudioTranslationRequest {
        file: "speech.mp3".to_string(),
        model: "whisper-1".to_string(),
        prompt: None,
        response_format: "json".to_string(),
        temperature: "0".to_string(),
    }
}

fn transcription() -> OpenAIAudioTranscriptionRequest {
    OpenAIAudioTranscriptionRequest {
        file: "speech.mp3".to_string(),
        model: "whisper-1".to_string(),
        prompt: None,
        response_format: "json".to_string(),
        temperature: "0".to_string(),
        language: None,
    }
}

fn job(id: &str, model: &str, status: &str) -> OpenAIFineTune {
    OpenAIFineTune { id: id.to_string(), model: model.to_string(), status: status.to_string() }
}

fn every_request() -> Vec<OpenAIRequest> {
    vec![
        OpenAIRequest::OpenAIAudioTranslationRequest(translation()),
        OpenAIRequest::OpenAIAudioTranscriptionRequest(transcription()),
        OpenAIRequest::OpenAICompletionsRequest(completion()),
        OpenAIRequest::OpenAIFilesRequest(OpenAIFilesRequest {}),
        OpenAIRequest::OpenAIFileDeleteRequest(OpenAIFileDeleteRequest {
            filename: "file-1".to_string(),
        }),
        OpenAIRequest::OpenAIFileUploadRequest(OpenAIFileUploadRequest {
            file: "data.jsonl".to_string(),
            purpose: "fine-tune".to_string(),
        }),
        OpenAIRequest::OpenAIFineTunesRequest(OpenAIFineTunesRequest {}),
        OpenAIRequest::OpenAIFineTuneCreateRequest(fine_tune_create()),
        OpenAIRequest::OpenAIFineTuneCancelRequest(OpenAIFineTuneCancelRequest {
            fine_tune_id: "ft-1".to_string(),
        }),
        OpenAIRequest::OpenAIFineTuneDetailRequest(OpenAIFineTuneDetailRequest {
            fine_tune_id: "ft-1".to_string(),
        }),
        OpenAIRequest::OpenAIFineTuneEventsRequest(OpenAIFineTuneEventsRequest {
            fine_tune_id: "ft-1".to_string(),
        }),
        OpenAIRequest::OpenAIModelsRequest(OpenAIModelsRequest {}),
        OpenAIRequest::OpenAIModelDeleteRequest(OpenAIModelDeleteRequest {
            model_name: "curie:ft-x".to_string(),
        }),
    ]
}

#[test]
fn decode_completion() {
    let expected = OpenAIResponse::OpenAICompletionsResponse(OpenAICompletionsResponse {
        choices: vec![Choice { text: "\n\nHi there".to_string() }],
    });
    assert_eq!(completion().process_response(COMPLETION_BODY), Ok(expected.clone()));
    let request = OpenAIRequest::OpenAICompletionsRequest(completion());
    assert_eq!(request.decode(COMPLETION_BODY), Ok(expected));
}

#[test]
fn decode_models_body_as_completion_fails() {
    let request = OpenAIRequest::OpenAICompletionsRequest(completion());
    assert_eq!(request.decode(MODELS_BODY), Err(Failure::Decode));
    assert_eq!(completion().process_response(MODELS_BODY), Err(Failure::Decode));
}

#[test]
fn decode_completion_body_as_models_fails() {
    let request = OpenAIRequest::OpenAIModelsRequest(OpenAIModelsRequest {});
    assert_eq!(request.decode(COMPLETION_BODY), Err(Failure::Decode));
}

#[test]
fn decode_same_body_by_request() {
    let as_translation = OpenAIRequest::OpenAIAudioTranslationRequest(translation());
    let as_transcription = OpenAIRequest::OpenAIAudioTranscriptionRequest(transcription());
    assert_eq!(
        as_translation.decode(TRANSCRIPT_BODY),
        Ok(OpenAIResponse::OpenAIAudioTranslationResponse(OpenAIAudioTranslationResponse {
            text: "Hello there.".to_string(),
        }))
    );
    assert_eq!(
        as_transcription.decode(TRANSCRIPT_BODY),
        Ok(OpenAIResponse::OpenAIAudioTranscriptionResponse(OpenAIAudioTranscriptionResponse {
            text: "Hello there.".to_string(),
        }))
    );
}

#[test]
fn decode_response_variant_mirrors_request_variant() {
    let bodies = [
        COMPLETION_BODY,
        MODELS_BODY,
        FILES_BODY,
        FILE_BODY,
        DELETED_BODY,
        JOB_BODY,
        JOBS_BODY,
        EVENTS_BODY,
        TRANSCRIPT_BODY,
    ];
    for request in every_request() {
        for body in bodies {
            if let Ok(response) = request.decode(body) {
                let mirrors = match (&request, &response) {
                    (
                        OpenAIRequest::OpenAIAudioTranslationRequest(_),
                        OpenAIResponse::OpenAIAudioTranslationResponse(_),
                    ) => true,
                    (
                        OpenAIRequest::OpenAIAudioTranscriptionRequest(_),
                        OpenAIResponse::OpenAIAudioTranscriptionResponse(_),
                    ) => true,
                    (
                        OpenAIRequest::OpenAICompletionsRequest(_),
                        OpenAIResponse::OpenAICompletionsResponse(_),
                    ) => true,
                    (OpenAIRequest::OpenAIFilesRequest(_), OpenAIResponse::OpenAIFilesResponse(_)) => {
                        true
                    }
                    (
                        OpenAIRequest::OpenAIFileDeleteRequest(_),
                        OpenAIResponse::OpenAIFileDeleteResponse(_),
                    ) => true,
                    (
                        OpenAIRequest::OpenAIFileUploadRequest(_),
                        OpenAIResponse::OpenAIFileUploadResponse(_),
                    ) => true,
                    (
                        OpenAIRequest::OpenAIFineTunesRequest(_),
                        OpenAIResponse::OpenAIFineTunesResponse(_),
                    ) => true,
                    (
                        OpenAIRequest::OpenAIFineTuneCreateRequest(_),
                        OpenAIResponse::OpenAIFineTuneCreateResponse(_),
                    ) => true,
                    (
                        OpenAIRequest::OpenAIFineTuneCancelRequest(_),
                        OpenAIResponse::OpenAIFineTuneCancelResponse(_),
                    ) => true,
                    (
                        OpenAIRequest::OpenAIFineTuneDetailRequest(_),
                        OpenAIResponse::OpenAIFineTuneDetailResponse(_),
                    ) => true,
                    (
                        OpenAIRequest::OpenAIFineTuneEventsRequest(_),
                        OpenAIResponse::OpenAIFineTuneEventsResponse(_),
                    ) => true,
                    (OpenAIRequest::OpenAIModelsRequest(_), OpenAIResponse::OpenAIModelsResponse(_)) => {
                        true
                    }
                    (
                        OpenAIRequest::OpenAIModelDeleteRequest(_),
                        OpenAIResponse::OpenAIModelDeleteResponse(_),
                    ) => true,
                    _ => false,
                };
                assert!(mirrors, "{:?} answered by {:?}", request, response);
            }
        }
    }
}

#[test]
fn decode_malformed_body_fails_for_every_request() {
    for request in every_request() {
        assert_eq!(request.decode("<html>oops</html>"), Err(Failure::Decode));
        assert_eq!(request.decode(""), Err(Failure::Decode));
        assert_eq!(request.decode("[]"), Err(Failure::Decode));
        assert_eq!(request.decode("{}"), Err(Failure::Decode));
    }
}

#[test]
fn decode_for_the_empty_request_is_a_configuration_failure() {
    assert_eq!(OpenAIRequest::Empty.decode(COMPLETION_BODY), Err(Failure::Configuration));
    assert_eq!(OpenAIRequest::Empty.decode("not json"), Err(Failure::Configuration));
    assert_eq!(OpenAIRequest::Empty.decode_document(&Json::Null), Err(Failure::Configuration));
}

#[test]
fn decode_document_reads_a_document_at_hand() {
    let document = Json::Object(vec![
        Member { name: "id".to_string(), value: Json::Text("curie:ft-x".to_string()) },
        Member { name: "deleted".to_string(), value: Json::Bool(false) },
    ]);
    let request = OpenAIRequest::OpenAIModelDeleteRequest(OpenAIModelDeleteRequest {
        model_name: "curie:ft-x".to_string(),
    });
    assert_eq!(
        request.decode_document(&document),
        Ok(OpenAIResponse::OpenAIModelDeleteResponse(OpenAIModelDeleteResponse {
            id: "curie:ft-x".to_string(),
            deleted: false,
        }))
    );
    let other = OpenAIRequest::OpenAIModelsRequest(OpenAIModelsRequest {});
    assert_eq!(other.decode_document(&document), Err(Failure::Decode));
}

#[test]
fn decode_completion_wants_text_in_every_choice() {
    let body = "{\"choices\":[{\"text\":\"a\"},{\"index\":1}]}";
    assert_eq!(completion().process_response(body), Err(Failure::Decode));
    let body = "{\"choices\":[{\"text\":\"a\"},{\"text\":5}]}";
    assert_eq!(completion().process_response(body), Err(Failure::Decode));
    let body = "{\"choices\":{\"text\":\"a\"}}";
    assert_eq!(completion().process_response(body), Err(Failure::Decode));
}

#[test]
fn decode_completion_without_choices_is_empty() {
    let expected =
        OpenAIResponse::OpenAICompletionsResponse(OpenAICompletionsResponse { choices: vec![] });
    assert_eq!(completion().process_response("{\"choices\":[]}"), Ok(expected));
}

#[test]
fn decode_files_list() {
    let expected = OpenAIResponse::OpenAIFilesResponse(OpenAIFilesResponse {
        data: vec![OpenAIFile {
            id: "file-1".to_string(),
            filename: "train.jsonl".to_string(),
            purpose: "fine-tune".to_string(),
        }],
    });
    assert_eq!(OpenAIFilesRequest {}.process_response(FILES_BODY), Ok(expected));
}

#[test]
fn decode_file_upload() {
    let request =
        OpenAIFileUploadRequest { file: "data.jsonl".to_string(), purpose: "fine-tune".to_string() };
    let expected = OpenAIResponse::OpenAIFileUploadResponse(OpenAIFileUploadResponse {
        file: OpenAIFile {
            id: "file-2".to_string(),
            filename: "data.jsonl".to_string(),
            purpose: "fine-tune".to_string(),
        },
    });
    assert_eq!(request.process_response(FILE_BODY), Ok(expected));
    assert_eq!(request.process_response(DELETED_BODY), Err(Failure::Decode));
}

#[test]
fn decode_file_delete() {
    let request = OpenAIFileDeleteRequest { filename: "file-1".to_string() };
    let expected = OpenAIResponse::OpenAIFileDeleteResponse(OpenAIFileDeleteResponse {
        id: "file-1".to_string(),
        deleted: true,
    });
    assert_eq!(request.process_response(DELETED_BODY), Ok(expected));
    assert_eq!(request.process_response(FILE_BODY), Err(Failure::Decode));
    assert_eq!(
        request.process_response("{\"id\":\"file-1\",\"deleted\":\"true\"}"),
        Err(Failure::Decode)
    );
}

#[test]
fn decode_models_list() {
    let expected = OpenAIResponse::OpenAIModelsResponse(OpenAIModelsResponse {
        data: vec![
            OpenAIModel { id: "davinci".to_string(), owned_by: "openai".to_string() },
            OpenAIModel { id: "curie:ft-x".to_string(), owned_by: "acme".to_string() },
        ],
    });
    assert_eq!(OpenAIModelsRequest {}.process_response(MODELS_BODY), Ok(expected));
}

#[test]
fn decode_model_delete() {
    let request = OpenAIModelDeleteRequest { model_name: "curie:ft-x".to_string() };
    let expected = OpenAIResponse::OpenAIModelDeleteResponse(OpenAIModelDeleteResponse {
        id: "curie:ft-x".to_string(),
        deleted: true,
    });
    assert_eq!(
        request.process_response("{\"id\":\"curie:ft-x\",\"object\":\"model\",\"deleted\":true}"),
        Ok(expected)
    );
}

#[test]
fn decode_fine_tunes_list() {
    let expected = OpenAIResponse::OpenAIFineTunesResponse(OpenAIFineTunesResponse {
        data: vec![job("ft-1", "curie", "pending"), job("ft-2", "davinci", "succeeded")],
    });
    assert_eq!(OpenAIFineTunesRequest {}.process_response(JOBS_BODY), Ok(expected));
}

#[test]
fn decode_fine_tune_create_cancel_detail() {
    assert_eq!(
        fine_tune_create().process_response(JOB_BODY),
        Ok(OpenAIResponse::OpenAIFineTuneCreateResponse(OpenAIFineTuneCreateResponse {
            job: job("ft-1", "curie", "pending"),
        }))
    );
    let cancel = OpenAIFineTuneCancelRequest { fine_tune_id: "ft-1".to_string() };
    assert_eq!(
        cancel.process_response(JOB_BODY),
        Ok(OpenAIResponse::OpenAIFineTuneCancelResponse(OpenAIFineTuneCancelResponse {
            job: job("ft-1", "curie", "pending"),
        }))
    );
    let detail = OpenAIFineTuneDetailRequest { fine_tune_id: "ft-1".to_string() };
    assert_eq!(
        detail.process_response(JOB_BODY),
        Ok(OpenAIResponse::OpenAIFineTuneDetailResponse(OpenAIFineTuneDetailResponse {
            job: job("ft-1", "curie", "pending"),
        }))
    );
    assert_eq!(detail.process_response(JOBS_BODY), Err(Failure::Decode));
}

#[test]
fn decode_fine_tune_events() {
    let request = OpenAIFineTuneEventsRequest { fine_tune_id: "ft-1".to_string() };
    let expected = OpenAIResponse::OpenAIFineTuneEventsResponse(OpenAIFineTuneEventsResponse {
        data: vec![OpenAIFineTuneEvent {
            level: "info".to_string(),
            message: "Job enqueued.".to_string(),
        }],
    });
    assert_eq!(request.process_response(EVENTS_BODY), Ok(expected));
    assert_eq!(request.process_response(JOBS_BODY), Err(Failure::Decode));
}

#[test]
fn decode_audio_transcripts() {
    assert_eq!(
        translation().process_response(TRANSCRIPT_BODY),
        Ok(OpenAIResponse::OpenAIAudioTranslationResponse(OpenAIAudioTranslationResponse {
            text: "Hello there.".to_string(),
        }))
    );
    assert_eq!(
        transcription().process_response(TRANSCRIPT_BODY),
        Ok(OpenAIResponse::OpenAIAudioTranscriptionResponse(OpenAIAudioTranscriptionResponse {
            text: "Hello there.".to_string(),
        }))
    );
    assert_eq!(transcription().process_response("Hello there."), Err(Failure::Decode));
}

#[test]
fn decode_image_variation() {
    let request = OpenAIImageVariationRequest {
        image: Some("otter.png".to_string()),
        n: 3,
        size: "1024x1024".to_string(),
        response_format: "url".to_string(),
        user: None,
    };
    let expected = OpenAIResponse::OpenAIImageVariationResponse(OpenAIImageVariationResponse {
        data: vec![
            OpenAIImage { url: Some("https://example.test/a.png".to_string()), b64_json: None },
            OpenAIImage { url: None, b64_json: Some("QUJD".to_string()) },
            OpenAIImage { url: None, b64_json: None },
        ],
    });
    assert_eq!(request.process_response(IMAGES_BODY), Ok(expected));
    assert_eq!(request.process_response("{\"data\":[{\"url\":7}]}"), Err(Failure::Decode));
    assert_eq!(request.process_response(TRANSCRIPT_BODY), Err(Failure::Decode));
}

#[test]
fn choice_without_leading_break() {
    let strip = |text: &str| Choice { text: text.to_string() }.remove_newline_prepend();
    assert_eq!(strip("\n\nHi there"), "Hi there");
    assert_eq!(strip("\n\n\n\nHi"), "\n\nHi");
    assert_eq!(strip("\nHi"), "\nHi");
    assert_eq!(strip("Hi\n\nthere"), "Hi\n\nthere");
    assert_eq!(strip("\n\n"), "");
    assert_eq!(strip("\n"), "\n");
    assert_eq!(strip(""), "");
    assert_eq!(strip("\n\n\u{e9}t\u{e9}"), "\u{e9}t\u{e9}");
}

#[test]
fn choice_lines_of_one_and_of_several() {
    let one = OpenAICompletionsResponse { choices: vec![Choice { text: "\n\nHi".to_string() }] };
    assert_eq!(one.choice_lines(), vec!["Hi".to_string()]);
    let two = OpenAICompletionsResponse {
        choices: vec![Choice { text: "\n\nHi".to_string() }, Choice { text: "Ho".to_string() }],
    };
    assert_eq!(
        two.choice_lines(),
        vec!["OpenAI Response: Hi".to_string(), "OpenAI Response: Ho".to_string()]
    );
    let none = OpenAICompletionsResponse { choices: vec![] };
    assert_eq!(none.choice_lines(), Vec::<String>::new());
}

#[test]
fn response_lines_of_each_variant() {
    let file = OpenAIFile {
        id: "file-1".to_string(),
        filename: "train.jsonl".to_string(),
        purpose: "fine-tune".to_string(),
    };
    let lines = |response: OpenAIResponse| response.lines();
    assert_eq!(
        lines(OpenAIResponse::OpenAIAudioTranslationResponse(OpenAIAudioTranslationResponse {
            text: "Hello there.".to_string(),
        })),
        vec!["Hello there."]
    );
    assert_eq!(
        lines(OpenAIResponse::OpenAIAudioTranscriptionResponse(
            OpenAIAudioTranscriptionResponse { text: "Guten Tag.".to_string() }
        )),
        vec!["Guten Tag."]
    );
    assert_eq!(
        lines(OpenAIResponse::OpenAICompletionsResponse(OpenAICompletionsResponse {
            choices: vec![Choice { text: "\n\nHi there".to_string() }],
        })),
        vec!["Hi there"]
    );
    assert_eq!(
        lines(OpenAIResponse::OpenAIFilesResponse(OpenAIFilesResponse {
            data: vec![file.clone(), file.clone()],
        })),
        vec!["file-1 train.jsonl fine-tune", "file-1 train.jsonl fine-tune"]
    );
    assert_eq!(
        lines(OpenAIResponse::OpenAIFileUploadResponse(OpenAIFileUploadResponse { file })),
        vec!["file-1 train.jsonl fine-tune"]
    );
    assert_eq!(
        lines(OpenAIResponse::OpenAIFileDeleteResponse(OpenAIFileDeleteResponse {
            id: "file-1".to_string(),
            deleted: true,
        })),
        vec!["file-1 deleted"]
    );
    assert_eq!(
        lines(OpenAIResponse::OpenAIModelDeleteResponse(OpenAIModelDeleteResponse {
            id: "curie:ft-x".to_string(),
            deleted: false,
        })),
        vec!["curie:ft-x not deleted"]
    );
    assert_eq!(
        lines(OpenAIResponse::OpenAIModelsResponse(OpenAIModelsResponse {
            data: vec![OpenAIModel { id: "davinci".to_string(), owned_by: "openai".to_string() }],
        })),
        vec!["davinci openai"]
    );
    assert_eq!(
        lines(OpenAIResponse::OpenAIFineTunesResponse(OpenAIFineTunesResponse {
            data: vec![job("ft-1", "curie", "pending"), job("ft-2", "davinci", "succeeded")],
        })),
        vec!["ft-1 curie pending", "ft-2 davinci succeeded"]
    );
    assert_eq!(
        lines(OpenAIResponse::OpenAIFineTuneCreateResponse(OpenAIFineTuneCreateResponse {
            job: job("ft-1", "curie", "pending"),
        })),
        vec!["ft-1 curie pending"]
    );
    assert_eq!(
        lines(OpenAIResponse::OpenAIFineTuneCancelResponse(OpenAIFineTuneCancelResponse {
            job: job("ft-1", "curie", "cancelled"),
        })),
        vec!["ft-1 curie cancelled"]
    );
    assert_eq!(
        lines(OpenAIResponse::OpenAIFineTuneDetailResponse(OpenAIFineTuneDetailResponse {
            job: job("ft-1", "curie", "running"),
        })),
        vec!["ft-1 curie running"]
    );
    assert_eq!(
        lines(OpenAIResponse::OpenAIFineTuneEventsResponse(OpenAIFineTuneEventsResponse {
            data: vec![OpenAIFineTuneEvent {
                level: "info".to_string(),
                message: "Job enqueued.".to_string(),
            }],
        })),
        vec!["info: Job enqueued."]
    );
    assert_eq!(
        lines(OpenAIResponse::OpenAIImageVariationResponse(OpenAIImageVariationResponse {
            data: vec![
                OpenAIImage { url: Some("https://example.test/a.png".to_string()), b64_json: None },
                OpenAIImage { url: None, b64_json: Some("QUJD".to_string()) },
                OpenAIImage { url: None, b64_json: None },
                OpenAIImage { url: Some("u".to_string()), b64_json: Some("b".to_string()) },
            ],
        })),
        vec!["https://example.test/a.png", "QUJD", "", "u"]
    );
    assert_eq!(lines(OpenAIResponse::Empty), Vec::<String>::new());
}
