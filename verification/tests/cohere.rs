use std::time::Duration;

use cohere_provider::credentials::{CohereCredentials, Credential};
use cohere_provider::error::ErrorDetails;
use cohere_provider::inference::{
    ContentBlockOutput, FinishReason, Latency, ModelInferenceRequest,
    ModelInferenceRequestJsonMode, ProviderInferenceResponse, RequestMessage, Role,
};
use cohere_provider::provider::{cohere_api_base, PROVIDER_TYPE};
use cohere_provider::request::{CohereRequest, CohereResponseFormat, CohereToolChoice};
use cohere_provider::response::{
    handle_cohere_error, CohereFinishReason, CohereResponse, CohereResponseChoice,
    CohereResponseFunctionCall, CohereResponseMessage, CohereResponseToolCall,
    CohereResponseWithMetadata, CohereUsage,
};
use cohere_provider::tool::{ToolCall, ToolCallConfig, ToolChoice, ToolConfig};
use reqwest::StatusCode;
use secrecy::SecretString;

fn weather_tool() -> ToolConfig {
    ToolConfig {
        name: "get_temperature".to_string(),
        description: "Get the current temperature in a given location".to_string(),
        parameters: serde_json::from_str(
            r#"{
                "type": "object",
                "properties": {
                    "location": {"type": "string"},
                    "unit": {"type": "string", "enum": ["celsius", "fahrenheit"]}
                },
                "required": ["location"]
            }"#,
        )
        .unwrap(),
        strict: false,
    }
}

fn weather_tool_config() -> ToolCallConfig {
    ToolCallConfig {
        tools_available: vec![weather_tool()],
        tool_choice: ToolChoice::Specific("get_temperature".to_string()),
    }
}

#[test]
fn test_cohere_request_new() {
    let tool_config = weather_tool_config();
    let request_with_tools = ModelInferenceRequest {
        messages: vec![RequestMessage {
            role: Role::User,
            content: vec!["What's the weather?".to_string().into()],
        }],
        system: None,
        temperature: Some(0.5f32),
        max_tokens: Some(100),
        seed: Some(69),
        top_p: None,
        presence_penalty: None,
        frequency_penalty: None,
        stream: false,
        json_mode: ModelInferenceRequestJsonMode::On,
        tool_config: Some(&tool_config),
        stop_sequences: None,
    };

    let cohere_request = CohereRequest::new("command-a-03-2025", &request_with_tools).unwrap();

    assert_eq!(cohere_request.model, "command-a-03-2025");
    assert_eq!(cohere_request.messages.len(), 1);
    assert_eq!(cohere_request.temperature, Some(0.5));
    assert_eq!(cohere_request.max_tokens, Some(100));
    assert!(!cohere_request.stream);
    assert_eq!(
        cohere_request.response_format,
        Some(CohereResponseFormat::JsonObject)
    );
    assert!(cohere_request.tools.is_some());
    let tools = cohere_request.tools.as_ref().unwrap();
    assert_eq!(tools.len(), 1);
    let weather_tool = weather_tool();
    assert_eq!(tools[0].function.name, weather_tool.name());
    assert_eq!(tools[0].function.parameters, weather_tool.parameters());
    assert_eq!(cohere_request.tool_choice, Some(CohereToolChoice::Any));
}

#[test]
fn test_try_from_cohere_response() {
    // A valid response with content.
    let valid_response = CohereResponse {
        choices: vec![CohereResponseChoice {
            index: 0,
            message: CohereResponseMessage {
                content: Some("Hello, world!".to_string()),
                tool_calls: None,
            },
            finish_reason: CohereFinishReason::Stop,
        }],
        usage: CohereUsage {
            prompt_tokens: 10,
            completion_tokens: 20,
            total_tokens: 30,
        },
    };
    let tool_config = weather_tool_config();
    let generic_request = ModelInferenceRequest {
        messages: vec![RequestMessage {
            role: Role::User,
            content: vec!["test_user".to_string().into()],
        }],
        system: None,
        temperature: Some(0.5f32),
        max_tokens: Some(100),
        seed: Some(69),
        top_p: None,
        presence_penalty: None,
        frequency_penalty: None,
        stream: false,
        json_mode: ModelInferenceRequestJsonMode::On,
        tool_config: Some(&tool_config),
        stop_sequences: None,
    };
    let raw_request = concat_request("0.5", "0.5");
    let raw_response = "test_response".to_string();
    let result = ProviderInferenceResponse::try_from(CohereResponseWithMetadata {
        response: valid_response,
        latency: Latency::NonStreaming {
            response_time: Duration::from_millis(100),
        },
        raw_request: raw_request.clone(),
        generic_request: &generic_request,
        raw_response: raw_response.clone(),
    });
    assert!(result.is_ok());
    let inference_response = result.unwrap();
    assert_eq!(
        inference_response.output,
        vec!["Hello, world!".to_string().into()]
    );
    assert_eq!(inference_response.usage.input_tokens, 10);
    assert_eq!(inference_response.usage.output_tokens, 20);
    assert_eq!(
        inference_response.latency,
        Latency::NonStreaming {
            response_time: Duration::from_millis(100)
        }
    );
    assert_eq!(inference_response.raw_request, raw_request);
    assert_eq!(inference_response.raw_response, raw_response);
    assert_eq!(inference_response.finish_reason, Some(FinishReason::Stop));
    assert_eq!(inference_response.system, None);
    assert_eq!(
        inference_response.input_messages,
        vec![RequestMessage {
            role: Role::User,
            content: vec!["test_user".to_string().into()],
        }]
    );

    // A valid response with tool calls.
    let valid_response_with_tools = CohereResponse {
        choices: vec![CohereResponseChoice {
            index: 0,
            message: CohereResponseMessage {
                content: None,
                tool_calls: Some(vec![CohereResponseToolCall {
                    id: "call1".to_string(),
                    function: CohereResponseFunctionCall {
                        name: "test_function".to_string(),
                        arguments: "{}".to_string(),
                    },
                }]),
            },
            finish_reason: CohereFinishReason::ToolCalls,
        }],
        usage: CohereUsage {
            prompt_tokens: 15,
            completion_tokens: 25,
            total_tokens: 40,
        },
    };
    let generic_request = ModelInferenceRequest {
        messages: vec![RequestMessage {
            role: Role::Assistant,
            content: vec!["test_assistant".to_string().into()],
        }],
        system: Some("test_system".to_string()),
        temperature: Some(0.5f32),
        max_tokens: Some(100),
        seed: Some(69),
        top_p: Some(0.9),
        presence_penalty: Some(0.1),
        frequency_penalty: Some(0.1),
        stream: false,
        json_mode: ModelInferenceRequestJsonMode::On,
        tool_config: Some(&tool_config),
        stop_sequences: None,
    };
    let raw_request = concat_request("0.5", "0.5");
    let result = ProviderInferenceResponse::try_from(CohereResponseWithMetadata {
        response: valid_response_with_tools,
        latency: Latency::NonStreaming {
            response_time: Duration::from_millis(110),
        },
        raw_request: raw_request.clone(),
        generic_request: &generic_request,
        raw_response: raw_response.clone(),
    });
    assert!(result.is_ok());
    let inference_response = result.unwrap();
    assert_eq!(
        inference_response.output,
        vec![ContentBlockOutput::ToolCall(ToolCall {
            id: "call1".to_string(),
            name: "test_function".to_string(),
            arguments: "{}".to_string(),
        })]
    );
    assert_eq!(inference_response.usage.input_tokens, 15);
    assert_eq!(inference_response.usage.output_tokens, 25);
    assert_eq!(
        inference_response.latency,
        Latency::NonStreaming {
            response_time: Duration::from_millis(110)
        }
    );
    assert_eq!(inference_response.raw_request, raw_request);
    assert_eq!(inference_response.raw_response, raw_response);
    assert_eq!(inference_response.system, Some("test_system".to_string()));
    assert_eq!(
        inference_response.input_messages,
        vec![RequestMessage {
            role: Role::Assistant,
            content: vec!["test_assistant".to_string().into()],
        }]
    );

    // An invalid response with no choices.
    let invalid_response_no_choices = CohereResponse {
        choices: vec![],
        usage: CohereUsage {
            prompt_tokens: 5,
            completion_tokens: 0,
            total_tokens: 5,
        },
    };
    let result = ProviderInferenceResponse::try_from(CohereResponseWithMetadata {
        response: invalid_response_no_choices,
        latency: Latency::NonStreaming {
            response_time: Duration::from_millis(120),
        },
        raw_request: concat_request("0.5", "0.1"),
        generic_request: &generic_request,
        raw_response: raw_response.clone(),
    });
    let details = result.unwrap_err().get_owned_details();
    assert!(matches!(details, ErrorDetails::InferenceServer { .. }));

    // An invalid response with multiple choices.
    let invalid_response_multiple_choices = CohereResponse {
        choices: vec![
            CohereResponseChoice {
                index: 0,
                message: CohereResponseMessage {
                    content: Some("Choice 1".to_string()),
                    tool_calls: None,
                },
                finish_reason: CohereFinishReason::Stop,
            },
            CohereResponseChoice {
                index: 1,
                message: CohereResponseMessage {
                    content: Some("Choice 2".to_string()),
                    tool_calls: None,
                },
                finish_reason: CohereFinishReason::Stop,
            },
        ],
        usage: CohereUsage {
            prompt_tokens: 10,
            completion_tokens: 10,
            total_tokens: 20,
        },
    };
    let result = ProviderInferenceResponse::try_from(CohereResponseWithMetadata {
        response: invalid_response_multiple_choices,
        latency: Latency::NonStreaming {
            response_time: Duration::from_millis(130),
        },
        raw_request: concat_request("0.9", "0.1"),
        generic_request: &generic_request,
        raw_response: raw_response.clone(),
    });
    let details = result.unwrap_err().get_owned_details();
    assert!(matches!(details, ErrorDetails::InferenceServer { .. }));
}

/// The JSON text of a request without messages.
fn concat_request(p: &str, penalty: &str) -> String {
    format!(
        "{{\"messages\":[],\"model\":\"command-a-03-2025\",\"temperature\":0.5,\"p\":{},\
         \"presence_penalty\":{},\"frequency_penalty\":{},\"max_tokens\":100,\"seed\":69,\
         \"stream\":false,\"response_format\":{{\"type\":\"json_object\"}}}}",
        p, penalty, penalty
    )
}

#[test]
fn test_handle_cohere_error() {
    // Unauthorized.
    let unauthorized = handle_cohere_error(StatusCode::UNAUTHORIZED.as_u16(), "Unauthorized access");
    let details = unauthorized.unwrap_err().get_owned_details();
    assert!(matches!(details, ErrorDetails::InferenceClient { .. }));
    if let ErrorDetails::InferenceClient {
        message,
        status_code,
        provider_type: provider,
        raw_request,
        raw_response,
    } = details
    {
        assert_eq!(message, "Unauthorized access");
        assert_eq!(status_code, Some(StatusCode::UNAUTHORIZED.as_u16()));
        assert_eq!(provider, PROVIDER_TYPE.to_string());
        assert_eq!(raw_request, None);
        assert_eq!(raw_response, None);
    }

    // Forbidden.
    let forbidden = handle_cohere_error(StatusCode::FORBIDDEN.as_u16(), "Forbidden access");
    let details = forbidden.unwrap_err().get_owned_details();
    assert!(matches!(details, ErrorDetails::InferenceClient { .. }));
    if let ErrorDetails::InferenceClient {
        message,
        status_code,
        provider_type: provider,
        raw_request,
        raw_response,
    } = details
    {
        assert_eq!(message, "Forbidden access");
        assert_eq!(status_code, Some(StatusCode::FORBIDDEN.as_u16()));
        assert_eq!(provider, PROVIDER_TYPE.to_string());
        assert_eq!(raw_request, None);
        assert_eq!(raw_response, None);
    }

    // Rate limit.
    let rate_limit =
        handle_cohere_error(StatusCode::TOO_MANY_REQUESTS.as_u16(), "Rate limit exceeded");
    let details = rate_limit.unwrap_err().get_owned_details();
    assert!(matches!(details, ErrorDetails::InferenceClient { .. }));
    if let ErrorDetails::InferenceClient {
        message,
        status_code,
        provider_type: provider,
        raw_request,
        raw_response,
    } = details
    {
        assert_eq!(message, "Rate limit exceeded");
        assert_eq!(status_code, Some(StatusCode::TOO_MANY_REQUESTS.as_u16()));
        assert_eq!(provider, PROVIDER_TYPE.to_string());
        assert_eq!(raw_request, None);
        assert_eq!(raw_response, None);
    }

    // Server error.
    let server_error =
        handle_cohere_error(StatusCode::INTERNAL_SERVER_ERROR.as_u16(), "Server error");
    let details = server_error.unwrap_err().get_owned_details();
    assert!(matches!(details, ErrorDetails::InferenceServer { .. }));
    if let ErrorDetails::InferenceServer {
        message,
        provider_type: provider,
        raw_request,
        raw_response,
    } = details
    {
        assert_eq!(message, "Server error");
        assert_eq!(provider, PROVIDER_TYPE.to_string());
        assert_eq!(raw_request, None);
        assert_eq!(raw_response, None);
    }
}

#[test]
fn test_cohere_api_base() {
    assert_eq!(cohere_api_base().unwrap().as_str(), "https://api.cohere.ai/v2/");
}

#[test]
fn test_credential_to_cohere_credentials() {
    // A static credential.
    let generic = Credential::Static(SecretString::from("test_key"));
    let creds: CohereCredentials<SecretString> = CohereCredentials::try_from(generic).unwrap();
    assert!(matches!(creds, CohereCredentials::Static(_)));

    // A dynamic credential.
    let generic: Credential<SecretString> = Credential::Dynamic("key_name".to_string());
    let creds = CohereCredentials::try_from(generic).unwrap();
    assert!(matches!(creds, CohereCredentials::Dynamic(_)));

    // A missing credential.
    let generic: Credential<SecretString> = Credential::Missing;
    let creds = CohereCredentials::try_from(generic).unwrap();
    assert!(matches!(creds, CohereCredentials::Absent));

    // An invalid type.
    let generic = Credential::FileContents(SecretString::from("test"));
    let result = CohereCredentials::try_from(generic);
    assert!(result.is_err());
    assert!(matches!(
        result.unwrap_err().get_owned_details(),
        ErrorDetails::Config { message } if message.contains("Invalid api_key_location")
    ));
}
