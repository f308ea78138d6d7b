use cohere_provider::error::ErrorDetails;
use cohere_provider::inference::{
    ContentBlock, ModelInferenceRequest, ModelInferenceRequestJsonMode, RequestMessage, Role,
};
use cohere_provider::openai::{
    OpenAIAssistantRequestMessage, OpenAIContentBlock, OpenAIRequestFunctionCall,
    OpenAIRequestMessage, OpenAIRequestToolCall, OpenAISystemRequestMessage,
    OpenAIToolRequestMessage, OpenAIToolType, OpenAIUserRequestMessage,
};
use cohere_provider::request::{
    prepare_cohere_messages, prepare_cohere_tools, tensorzero_to_cohere_system_message,
    CohereRequest, CohereResponseFormat, CohereToolChoice,
};
use cohere_provider::tool::{ToolCall, ToolCallConfig, ToolChoice, ToolConfig, ToolResult};
use serde_json::Value;

fn text(text: &str) -> ContentBlock {
    text.to_string().into()
}

fn call(id: &str, name: &str) -> ContentBlock {
    ContentBlock::ToolCall(ToolCall {
        id: id.to_string(),
        name: name.to_string(),
        arguments: "{}".to_string(),
    })
}

fn result(id: &str, outcome: &str) -> ContentBlock {
    ContentBlock::ToolResult(ToolResult {
        id: id.to_string(),
        name: "lookup".to_string(),
        result: outcome.to_string(),
    })
}

fn message(role: Role, content: Vec<ContentBlock>) -> RequestMessage {
    RequestMessage { role, content }
}

fn request<'a>(messages: Vec<RequestMessage>) -> ModelInferenceRequest<'a, f32> {
    ModelInferenceRequest {
        messages,
        system: None,
        temperature: None,
        top_p: None,
        presence_penalty: None,
        frequency_penalty: None,
        max_tokens: None,
        seed: None,
        stream: false,
        json_mode: ModelInferenceRequestJsonMode::Off,
        tool_config: None,
        stop_sequences: None,
    }
}

fn tool(name: &str, description: &str) -> ToolConfig {
    ToolConfig {
        name: name.to_string(),
        description: description.to_string(),
        parameters: Value::Bool(true),
        strict: true,
    }
}

fn tools(choice: ToolChoice) -> ToolCallConfig {
    ToolCallConfig {
        tools_available: vec![tool("a", "first"), tool("b", "second"), tool("a", "third")],
        tool_choice: choice,
    }
}

#[test]
fn instructions_come_before_the_conversation() {
    let mut request = request(vec![
        message(Role::User, vec![text("one"), text("two")]),
        message(Role::Assistant, vec![text("three")]),
    ]);
    request.system = Some("be brief".to_string());
    assert_eq!(
        prepare_cohere_messages(&request).unwrap(),
        vec![
            OpenAIRequestMessage::System(OpenAISystemRequestMessage { content: "be brief" }),
            OpenAIRequestMessage::User(OpenAIUserRequestMessage {
                content: vec![
                    OpenAIContentBlock::Text { text: "one" },
                    OpenAIContentBlock::Text { text: "two" },
                ],
            }),
            OpenAIRequestMessage::Assistant(OpenAIAssistantRequestMessage {
                content: Some(vec![OpenAIContentBlock::Text { text: "three" }]),
                tool_calls: None,
            }),
        ]
    );
}

#[test]
fn without_instructions_there_is_no_system_message() {
    assert_eq!(tensorzero_to_cohere_system_message(None), None);
    assert_eq!(
        tensorzero_to_cohere_system_message(Some("")),
        Some(OpenAIRequestMessage::System(OpenAISystemRequestMessage { content: "" }))
    );
    assert_eq!(prepare_cohere_messages(&request(vec![])).unwrap(), vec![]);
}

#[test]
fn tool_results_come_before_the_texts_of_their_message() {
    let request = request(vec![message(
        Role::User,
        vec![text("so?"), result("1", "rain"), result("2", "sun")],
    )]);
    assert_eq!(
        prepare_cohere_messages(&request).unwrap(),
        vec![
            OpenAIRequestMessage::Tool(OpenAIToolRequestMessage {
                content: "rain",
                tool_call_id: "1",
            }),
            OpenAIRequestMessage::Tool(OpenAIToolRequestMessage {
                content: "sun",
                tool_call_id: "2",
            }),
            OpenAIRequestMessage::User(OpenAIUserRequestMessage {
                content: vec![OpenAIContentBlock::Text { text: "so?" }],
            }),
        ]
    );
}

#[test]
fn tool_calls_of_the_model_stay_with_its_texts() {
    let request = request(vec![
        message(Role::Assistant, vec![call("1", "lookup"), text("wait")]),
        message(Role::Assistant, vec![]),
        message(Role::Assistant, vec![call("2", "lookup")]),
    ]);
    let made = prepare_cohere_messages(&request).unwrap();
    assert_eq!(made.len(), 2);
    assert_eq!(
        made[0],
        OpenAIRequestMessage::Assistant(OpenAIAssistantRequestMessage {
            content: Some(vec![OpenAIContentBlock::Text { text: "wait" }]),
            tool_calls: Some(vec![OpenAIRequestToolCall {
                id: "1",
                tool_type: OpenAIToolType::Function,
                function: OpenAIRequestFunctionCall {
                    name: "lookup",
                    arguments: "{}",
                },
            }]),
        })
    );
    assert!(matches!(
        &made[1],
        OpenAIRequestMessage::Assistant(OpenAIAssistantRequestMessage {
            content: None,
            tool_calls: Some(calls),
        }) if calls.len() == 1
    ));
}

#[test]
fn misplaced_blocks_are_refused() {
    let user = request(vec![message(Role::User, vec![text("x"), call("1", "lookup")])]);
    assert_eq!(
        prepare_cohere_messages(&user).unwrap_err().get_owned_details(),
        ErrorDetails::InvalidMessage {
            message: "Tool calls are not supported in user messages".to_string()
        }
    );
    let assistant = request(vec![message(Role::Assistant, vec![result("1", "rain")])]);
    assert_eq!(
        prepare_cohere_messages(&assistant).unwrap_err().get_owned_details(),
        ErrorDetails::InvalidMessage {
            message: "Tool results are not supported in assistant messages".to_string()
        }
    );
}

#[test]
fn the_first_misplaced_block_is_reported_and_before_the_tools() {
    let missing = tools(ToolChoice::Specific("c".to_string()));
    let mut request = request(vec![
        message(Role::User, vec![text("fine")]),
        message(Role::Assistant, vec![result("1", "rain")]),
        message(Role::User, vec![call("1", "lookup")]),
    ]);
    request.tool_config = Some(&missing);
    assert_eq!(
        CohereRequest::new("command", &request).unwrap_err().get_owned_details(),
        ErrorDetails::InvalidMessage {
            message: "Tool results are not supported in assistant messages".to_string()
        }
    );
}

#[test]
fn no_tools_without_a_tool_configuration() {
    assert_eq!(prepare_cohere_tools(&request(vec![])).unwrap(), (None, None));
}

#[test]
fn every_choice_of_tools() {
    let auto = tools(ToolChoice::Auto);
    let mut asking = request(vec![]);
    asking.tool_config = Some(&auto);
    let (offered, choice) = prepare_cohere_tools(&asking).unwrap();
    let offered = offered.unwrap();
    assert_eq!(offered.len(), 3);
    assert_eq!(offered[1].tool_type, OpenAIToolType::Function);
    assert_eq!(offered[1].function.name, "b");
    assert_eq!(offered[1].function.description, Some("second"));
    assert_eq!(offered[1].function.parameters, &Value::Bool(true));
    assert_eq!(choice, Some(CohereToolChoice::Auto));

    let required = tools(ToolChoice::Required);
    let mut asking = request(vec![]);
    asking.tool_config = Some(&required);
    let (offered, choice) = prepare_cohere_tools(&asking).unwrap();
    assert_eq!(offered.unwrap().len(), 3);
    assert_eq!(choice, Some(CohereToolChoice::Any));

    let none = tools(ToolChoice::NoTool);
    let mut asking = request(vec![]);
    asking.tool_config = Some(&none);
    assert_eq!(
        prepare_cohere_tools(&asking).unwrap(),
        (None, Some(CohereToolChoice::NoTool))
    );
}

#[test]
fn one_tool_is_offered_alone_and_is_the_first_of_its_name() {
    let specific = tools(ToolChoice::Specific("a".to_string()));
    let mut asking = request(vec![]);
    asking.tool_config = Some(&specific);
    let (offered, choice) = prepare_cohere_tools(&asking).unwrap();
    let offered = offered.unwrap();
    assert_eq!(offered.len(), 1);
    assert_eq!(offered[0].function.name, "a");
    assert_eq!(offered[0].function.description, Some("first"));
    assert_eq!(choice, Some(CohereToolChoice::Any));
}

#[test]
fn a_tool_that_is_not_there_is_reported() {
    let specific = tools(ToolChoice::Specific("c".to_string()));
    let mut asking = request(vec![]);
    asking.tool_config = Some(&specific);
    assert_eq!(
        prepare_cohere_tools(&asking).unwrap_err().get_owned_details(),
        ErrorDetails::ToolNotFound { name: "c".to_string() }
    );
}

#[test]
fn json_is_asked_for_in_both_json_modes() {
    assert_eq!(CohereResponseFormat::default(), CohereResponseFormat::Text);
    let mut asking = request(vec![]);
    assert_eq!(CohereRequest::new("command", &asking).unwrap().response_format, None);
    asking.json_mode = ModelInferenceRequestJsonMode::On;
    assert_eq!(
        CohereRequest::new("command", &asking).unwrap().response_format,
        Some(CohereResponseFormat::JsonObject)
    );
    asking.json_mode = ModelInferenceRequestJsonMode::Strict;
    assert_eq!(
        CohereRequest::new("command", &asking).unwrap().response_format,
        Some(CohereResponseFormat::JsonObject)
    );
}

#[test]
fn parameters_are_handed_on() {
    let mut asking = request(vec![message(Role::User, vec![text("x")])]);
    asking.temperature = Some(0.5);
    asking.top_p = Some(0.9);
    asking.presence_penalty = Some(0.1);
    asking.frequency_penalty = Some(0.2);
    asking.max_tokens = Some(7);
    asking.seed = Some(8);
    asking.stream = true;
    asking.stop_sequences = Some(vec!["stop".to_string(), "end".to_string()]);
    let made = CohereRequest::new("command", &asking).unwrap();
    assert_eq!(made.model, "command");
    assert_eq!(made.temperature, Some(0.5));
    assert_eq!(made.p, Some(0.9));
    assert_eq!(made.presence_penalty, Some(0.1));
    assert_eq!(made.frequency_penalty, Some(0.2));
    assert_eq!(made.max_tokens, Some(7));
    assert_eq!(made.seed, Some(8));
    assert!(made.stream);
    assert_eq!(made.stop_sequences, Some(&vec!["stop".to_string(), "end".to_string()]));
}
