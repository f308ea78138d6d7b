use std::time::Duration;

use cohere_provider::credentials::{
    default_api_key_location, plan_credentials, CohereCredentials, Credential, CredentialLocation,
    CredentialPlan, InferenceCredentials,
};
use cohere_provider::error::{Error, ErrorDetails};
use cohere_provider::inference::{
    ContentBlock, Latency, ModelInferenceRequest, ModelInferenceRequestJsonMode, RequestMessage,
    Role,
};
use cohere_provider::provider::{
    checked_url, cohere_api_base, get_chat_url, infer_answered, infer_parsed, CohereProvider,
    CredentialReply, InferAction, COHERE_API_BASE, PROVIDER_NAME, PROVIDER_TYPE,
};
use cohere_provider::response::{
    CohereFinishReason, CohereResponse, CohereResponseChoice, CohereResponseMessage, CohereUsage,
};
use cohere_provider::tool::ToolCall;
use secrecy::{ExposeSecret, SecretString};

fn provider(credentials: CohereCredentials<SecretString>) -> CohereProvider<SecretString> {
    CohereProvider::new("command-r".to_string(), CredentialReply::Known(credentials)).unwrap()
}

fn keys() -> InferenceCredentials<SecretString> {
    let mut keys = InferenceCredentials::new();
    keys.insert("mine".to_string(), SecretString::from("secret"));
    keys.insert("other".to_string(), SecretString::from("different"));
    keys
}

fn request<'a>() -> ModelInferenceRequest<'a, f32> {
    ModelInferenceRequest {
        messages: vec![RequestMessage {
            role: Role::User,
            content: vec!["hello".to_string().into()],
        }],
        system: Some("be brief".to_string()),
        temperature: None,
        top_p: None,
        presence_penalty: None,
        frequency_penalty: None,
        max_tokens: None,
        seed: None,
        stream: false,
        json_mode: ModelInferenceRequestJsonMode::Off,
        tool_config: None,
        stop_sequences: None,
    }
}

#[test]
fn the_names_of_the_provider() {
    assert_eq!(PROVIDER_NAME, "Cohere");
    assert_eq!(PROVIDER_TYPE, "cohere");
}

#[test]
fn urls_of_the_api() {
    assert_eq!(url::Url::parse(COHERE_API_BASE).unwrap().as_str(), COHERE_API_BASE);
    assert_eq!(cohere_api_base().unwrap(), "https://api.cohere.ai/v2/");
    assert_eq!(
        get_chat_url().unwrap(),
        "https://api.cohere.ai/v2/chat/completions"
    );
}

#[test]
fn what_is_no_url_is_an_error() {
    assert_eq!(
        checked_url(Err("relative URL without a base".to_string()))
            .unwrap_err()
            .get_owned_details(),
        ErrorDetails::InvalidBaseUrl {
            message: "relative URL without a base".to_string()
        }
    );
    assert_eq!(checked_url(Ok("u".to_string())).unwrap(), "u");
}

#[test]
fn a_provider_takes_its_credentials_from_the_reply() {
    let made = provider(CohereCredentials::Absent);
    assert_eq!(made.model_name(), "command-r");
    assert!(matches!(made.credentials(), CohereCredentials::Absent));

    let found = CohereProvider::new(
        "command".to_string(),
        CredentialReply::Found(Credential::Static(SecretString::from("k"))),
    )
    .unwrap();
    assert!(matches!(
        found.credentials(),
        CohereCredentials::Static(key) if key.expose_secret() == "k"
    ));

    let invalid: [Credential<SecretString>; 3] = [
        Credential::FileContents(SecretString::from("k")),
        Credential::Sdk,
        Credential::Unset,
    ];
    for credential in invalid {
        assert_eq!(
            CohereProvider::new("command".to_string(), CredentialReply::Found(credential))
                .unwrap_err()
                .get_owned_details(),
            ErrorDetails::Config {
                message: "Invalid api_key_location for Cohere provider".to_string()
            }
        );
    }

    let failed: CredentialReply<SecretString> =
        CredentialReply::Failed(Error::new(ErrorDetails::ApiKeyMissing {
            provider_name: "cohere".to_string(),
        }));
    assert_eq!(
        CohereProvider::new("command".to_string(), failed)
            .unwrap_err()
            .get_owned_details(),
        ErrorDetails::ApiKeyMissing {
            provider_name: "cohere".to_string()
        }
    );
}

#[test]
fn the_default_location_is_looked_at_once() {
    assert_eq!(
        default_api_key_location(),
        CredentialLocation::Env("COHERE_API_KEY".to_string())
    );
    let first: CredentialPlan<SecretString> = plan_credentials(None, None);
    assert!(matches!(
        first,
        CredentialPlan::Load { location: CredentialLocation::Env(name), remember: true }
            if name == "COHERE_API_KEY"
    ));
    let named: CredentialPlan<SecretString> =
        plan_credentials(Some(CredentialLocation::Env("COHERE_API_KEY".to_string())), None);
    assert!(matches!(
        named,
        CredentialPlan::Load { location: CredentialLocation::Env(name), remember: false }
            if name == "COHERE_API_KEY"
    ));
    let kept = CohereCredentials::Static(SecretString::from("kept"));
    assert!(matches!(
        plan_credentials(None, Some(kept.clone())),
        CredentialPlan::Known(CohereCredentials::Static(key)) if key.expose_secret() == "kept"
    ));
    assert!(matches!(
        plan_credentials(Some(CredentialLocation::Dynamic("mine".to_string())), Some(kept)),
        CredentialPlan::Load { location: CredentialLocation::Dynamic(name), remember: false }
            if name == "mine"
    ));
}

#[test]
fn which_key_a_request_is_sent_with() {
    let keys = keys();
    let own = CohereCredentials::Static(SecretString::from("own"));
    assert_eq!(own.get_api_key(&keys).unwrap().expose_secret(), "own");
    let brought: CohereCredentials<SecretString> = CohereCredentials::Dynamic("mine".to_string());
    assert_eq!(brought.get_api_key(&keys).unwrap().expose_secret(), "secret");

    let missing = ErrorDetails::ApiKeyMissing {
        provider_name: "Cohere".to_string(),
    };
    let unknown: CohereCredentials<SecretString> = CohereCredentials::Dynamic("none".to_string());
    assert_eq!(unknown.get_api_key(&keys).unwrap_err().get_owned_details(), missing);
    let absent: CohereCredentials<SecretString> = CohereCredentials::Absent;
    assert_eq!(absent.get_api_key(&keys).unwrap_err().get_owned_details(), missing);
}

#[test]
fn where_a_request_is_sent() {
    let keys = keys();
    let provider = provider(CohereCredentials::Dynamic("mine".to_string()));
    let destination = match provider.destination(Ok(()), &keys) {
        Ok(destination) => destination,
        Err(error) => panic!("{:?}", error),
    };
    assert_eq!(destination.url, "https://api.cohere.ai/v2/chat/completions");
    assert_eq!(destination.api_key.expose_secret(), "secret");
}

#[test]
fn a_request_that_cannot_be_written_fails_first() {
    let keys = keys();
    let provider = provider(CohereCredentials::Absent);
    match provider.destination(Err("too deep".to_string()), &keys) {
        Err(error) => assert_eq!(
            error.get_owned_details(),
            ErrorDetails::Serialization {
                message: "Error serializing Cohere request: too deep".to_string()
            }
        ),
        Ok(_) => panic!("it was not written"),
    }
    match provider.destination(Ok(()), &keys) {
        Err(error) => assert_eq!(
            error.get_owned_details(),
            ErrorDetails::ApiKeyMissing {
                provider_name: "Cohere".to_string()
            }
        ),
        Ok(_) => panic!("there is no key"),
    }
}

#[test]
fn a_request_names_the_model_of_the_provider() {
    let provider = provider(CohereCredentials::Absent);
    let request = request();
    let body = provider.request_body(&request).unwrap();
    assert_eq!(body.model, "command-r");
    assert_eq!(body.messages.len(), 2);
}

#[test]
fn there_are_no_batches() {
    let provider = provider(CohereCredentials::Absent);
    let started: Result<(), Error> = provider.start_batch_inference();
    assert_eq!(
        started.unwrap_err().get_owned_details(),
        ErrorDetails::UnsupportedModelProviderForBatchInference {
            provider_type: "Cohere".to_string()
        }
    );
    let polled: Result<(), Error> = provider.poll_batch_inference();
    assert_eq!(
        polled.unwrap_err().get_owned_details(),
        ErrorDetails::UnsupportedModelProviderForBatchInference {
            provider_type: "cohere".to_string()
        }
    );
}

#[test]
fn only_a_success_is_read() {
    for status in [200u16, 204, 299] {
        assert!(matches!(
            infer_answered(status, Ok("body".to_string()), "sent".to_string()),
            InferAction::Parse { raw_request, raw_response }
                if raw_request == "sent" && raw_response == "body"
        ));
    }
    for status in [0u16, 99, 199, 300, 404, 500, 1000] {
        match infer_answered(status, Ok("body".to_string()), "sent".to_string()) {
            InferAction::Finish(Err(error)) => assert_eq!(
                error.get_owned_details(),
                ErrorDetails::InferenceServer {
                    message: "body".to_string(),
                    provider_type: "cohere".to_string(),
                    raw_request: None,
                    raw_response: None,
                }
            ),
            _ => panic!("{} is no success", status),
        }
    }
    assert!(matches!(
        infer_answered(401, Ok("who?".to_string()), "sent".to_string()),
        InferAction::Finish(Err(error))
            if matches!(&error.details, ErrorDetails::InferenceClient { message, status_code: Some(401), .. } if message == "who?")
    ));
}

#[test]
fn a_body_that_is_not_received_is_an_error() {
    for (status, message) in [
        (200u16, "Error parsing text response: cut off"),
        (500, "Error parsing error response: cut off"),
    ] {
        match infer_answered(status, Err("cut off".to_string()), "sent".to_string()) {
            InferAction::Finish(Err(error)) => assert_eq!(
                error.get_owned_details(),
                ErrorDetails::InferenceServer {
                    message: message.to_string(),
                    provider_type: "cohere".to_string(),
                    raw_request: Some("sent".to_string()),
                    raw_response: None,
                }
            ),
            _ => panic!("nothing was received"),
        }
    }
}

#[test]
fn an_answer_that_cannot_be_read_is_an_error() {
    let request = request();
    let error = infer_parsed(
        Err("EOF".to_string()),
        "sent".to_string(),
        "{".to_string(),
        Latency::Batch,
        &request,
    )
    .unwrap_err();
    assert_eq!(
        error.get_owned_details(),
        ErrorDetails::InferenceServer {
            message: "Error parsing JSON response: EOF".to_string(),
            provider_type: "cohere".to_string(),
            raw_request: Some("sent".to_string()),
            raw_response: Some("{".to_string()),
        }
    );
}

#[test]
fn an_answer_that_is_read_becomes_the_response() {
    let request = request();
    let latency = Latency::NonStreaming {
        response_time: Duration::from_millis(3),
    };
    let response = infer_parsed(
        Ok(CohereResponse {
            choices: vec![CohereResponseChoice {
                index: 0,
                message: CohereResponseMessage {
                    content: Some("hi".to_string()),
                    tool_calls: None,
                },
                finish_reason: CohereFinishReason::Stop,
            }],
            usage: CohereUsage {
                prompt_tokens: 4,
                completion_tokens: 5,
                total_tokens: 9,
            },
        }),
        "sent".to_string(),
        "got".to_string(),
        latency,
        &request,
    )
    .unwrap();
    assert_eq!(response.output, vec!["hi".to_string().into()]);
    assert_eq!(response.system, Some("be brief".to_string()));
    assert_eq!(response.input_messages, request.messages);
    assert_eq!(response.latency, latency);
    assert_eq!(response.raw_request, "sent");
    assert_eq!(response.raw_response, "got");
}

/// The error of the steps before sending, the request's JSON being written as `written`
/// says.
fn error_before_sending(
    provider: &CohereProvider<SecretString>,
    request: &ModelInferenceRequest<f32>,
    written: Result<(), String>,
) -> Option<ErrorDetails> {
    let keys = keys();
    let prepared = provider
        .request_body(request)
        .and_then(|_| provider.destination(written, &keys));
    match prepared {
        Ok(_) => None,
        Err(error) => Some(error.get_owned_details()),
    }
}

#[test]
fn the_first_failure_before_sending_is_reported() {
    let unwritten = || Err("too deep".to_string());
    let without_key = provider(CohereCredentials::Absent);
    let mut refused = request();
    refused.messages[0].content = vec![ContentBlock::ToolCall(ToolCall {
        id: "1".to_string(),
        name: "lookup".to_string(),
        arguments: "{}".to_string(),
    })];
    for written in [Ok(()), unwritten()] {
        assert_eq!(
            error_before_sending(&without_key, &refused, written),
            Some(ErrorDetails::InvalidMessage {
                message: "Tool calls are not supported in user messages".to_string()
            })
        );
    }
    assert_eq!(
        error_before_sending(&without_key, &request(), unwritten()),
        Some(ErrorDetails::Serialization {
            message: "Error serializing Cohere request: too deep".to_string()
        })
    );
    assert_eq!(
        error_before_sending(&without_key, &request(), Ok(())),
        Some(ErrorDetails::ApiKeyMissing {
            provider_name: "Cohere".to_string()
        })
    );
    let with_key = provider(CohereCredentials::Dynamic("mine".to_string()));
    assert_eq!(error_before_sending(&with_key, &request(), Ok(())), None);
}
