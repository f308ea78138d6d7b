use std::time::Duration;

use cohere_provider::error::ErrorDetails;
use cohere_provider::inference::{
    ContentBlockChunk, ContentBlockOutput, FinishReason, Latency, ModelInferenceRequest,
    ModelInferenceRequestJsonMode, ProviderInferenceResponse, Text, TextChunk, Usage,
};
use cohere_provider::response::{
    handle_cohere_error, CohereFinishReason, CohereResponse, CohereResponseChoice,
    CohereResponseFunctionCall, CohereResponseMessage, CohereResponseToolCall,
    CohereResponseWithMetadata, CohereUsage,
};
use cohere_provider::stream::{
    cohere_to_tensorzero_chunk, stream_cohere, CohereChatChunk, CohereChatChunkChoice, CohereDelta,
    CohereFunctionCallChunk, CohereStreamAction, CohereStreamEvent, CohereToolCallChunk,
};
use cohere_provider::tool::{check_new_tool_call_name, ToolCall, ToolCallChunk};

const USAGE: CohereUsage = CohereUsage {
    prompt_tokens: 1,
    completion_tokens: 2,
    total_tokens: 3,
};

fn request<'a>() -> ModelInferenceRequest<'a, f32> {
    ModelInferenceRequest {
        messages: vec![],
        system: None,
        temperature: None,
        top_p: None,
        presence_penalty: None,
        frequency_penalty: None,
        max_tokens: None,
        seed: None,
        stream: false,
        json_mode: ModelInferenceRequestJsonMode::Off,
        tool_config: None,
        stop_sequences: None,
    }
}

fn choice(content: Option<&str>, calls: Option<Vec<CohereResponseToolCall>>) -> CohereResponseChoice {
    CohereResponseChoice {
        index: 0,
        message: CohereResponseMessage {
            content: content.map(|text| text.to_string()),
            tool_calls: calls,
        },
        finish_reason: CohereFinishReason::Stop,
    }
}

fn response_call(id: &str) -> CohereResponseToolCall {
    CohereResponseToolCall {
        id: id.to_string(),
        function: CohereResponseFunctionCall {
            name: "lookup".to_string(),
            arguments: "[]".to_string(),
        },
    }
}

fn answer(
    choices: Vec<CohereResponseChoice>,
) -> Result<ProviderInferenceResponse, cohere_provider::error::Error> {
    let request = request();
    ProviderInferenceResponse::try_from(CohereResponseWithMetadata {
        response: CohereResponse { choices, usage: USAGE },
        raw_response: "response".to_string(),
        latency: Latency::Batch,
        raw_request: "request".to_string(),
        generic_request: &request,
    })
}

#[test]
fn an_answer_offers_exactly_one_choice() {
    for count in [0usize, 2, 10, 123] {
        let choices = (0..count).map(|_| choice(Some("x"), None)).collect();
        assert_eq!(
            answer(choices).unwrap_err().get_owned_details(),
            ErrorDetails::InferenceServer {
                message: format!("Response has invalid number of choices: {}. Expected 1.", count),
                provider_type: "cohere".to_string(),
                raw_request: None,
                raw_response: Some("response".to_string()),
            }
        );
    }
}

#[test]
fn text_comes_before_tool_calls_and_is_never_empty() {
    let both = answer(vec![choice(
        Some("hello"),
        Some(vec![response_call("1"), response_call("2")]),
    )])
    .unwrap();
    let call = |id: &str| {
        ContentBlockOutput::ToolCall(ToolCall {
            id: id.to_string(),
            name: "lookup".to_string(),
            arguments: "[]".to_string(),
        })
    };
    assert_eq!(
        both.output,
        vec![
            ContentBlockOutput::Text(Text { text: "hello".to_string() }),
            call("1"),
            call("2"),
        ]
    );
    assert_eq!(both.usage, Usage { input_tokens: 1, output_tokens: 2 });
    assert_eq!(both.raw_request, "request");
    assert_eq!(both.raw_response, "response");

    let empty = answer(vec![choice(Some(""), Some(vec![response_call("1")]))]).unwrap();
    assert_eq!(empty.output, vec![call("1")]);
    let nothing = answer(vec![choice(None, Some(vec![]))]).unwrap();
    assert_eq!(nothing.output, vec![]);
}

#[test]
fn every_finish_reason() {
    assert_eq!(FinishReason::from(CohereFinishReason::Stop), FinishReason::Stop);
    assert_eq!(FinishReason::from(CohereFinishReason::Length), FinishReason::Length);
    assert_eq!(FinishReason::from(CohereFinishReason::ModelLength), FinishReason::Length);
    assert_eq!(FinishReason::from(CohereFinishReason::Error), FinishReason::Unknown);
    assert_eq!(FinishReason::from(CohereFinishReason::ToolCalls), FinishReason::ToolCall);
    assert_eq!(FinishReason::from(CohereFinishReason::Unknown), FinishReason::Unknown);
}

#[test]
fn four_statuses_blame_the_request() {
    for status in [400u16, 401, 403, 429] {
        assert_eq!(
            handle_cohere_error(status, "no").unwrap_err().get_owned_details(),
            ErrorDetails::InferenceClient {
                message: "no".to_string(),
                status_code: Some(status),
                provider_type: "cohere".to_string(),
                raw_request: None,
                raw_response: None,
            }
        );
    }
    for status in [199u16, 302, 402, 404, 422, 500, 503] {
        assert_eq!(
            handle_cohere_error(status, "no").unwrap_err().get_owned_details(),
            ErrorDetails::InferenceServer {
                message: "no".to_string(),
                provider_type: "cohere".to_string(),
                raw_request: None,
                raw_response: None,
            }
        );
    }
}

fn chunk_call(id: &str, name: &str) -> CohereToolCallChunk {
    CohereToolCallChunk {
        id: id.to_string(),
        function: CohereFunctionCallChunk {
            name: name.to_string(),
            arguments: "{".to_string(),
        },
    }
}

fn chunk(content: Option<&str>, calls: Option<Vec<CohereToolCallChunk>>) -> CohereChatChunk {
    CohereChatChunk {
        choices: vec![CohereChatChunkChoice {
            delta: CohereDelta {
                content: content.map(|text| text.to_string()),
                tool_calls: calls,
            },
            finish_reason: None,
        }],
        usage: None,
    }
}

fn tool_chunk(id: &str, name: Option<&str>) -> ContentBlockChunk {
    ContentBlockChunk::ToolCall(ToolCallChunk {
        id: id.to_string(),
        raw_name: name.map(|name| name.to_string()),
        raw_arguments: "{".to_string(),
    })
}

#[test]
fn a_name_is_reported_where_it_is_new() {
    let mut last = None;
    assert_eq!(check_new_tool_call_name("a".to_string(), &mut last), Some("a".to_string()));
    assert_eq!(check_new_tool_call_name("a".to_string(), &mut last), None);
    assert_eq!(check_new_tool_call_name("b".to_string(), &mut last), Some("b".to_string()));
    assert_eq!(check_new_tool_call_name("a".to_string(), &mut last), Some("a".to_string()));
    assert_eq!(last, Some("a".to_string()));
}

#[test]
fn chunks_bring_text_and_then_tool_calls() {
    let mut last = Some("a".to_string());
    let made = cohere_to_tensorzero_chunk(
        "raw".to_string(),
        chunk(
            Some("hi"),
            Some(vec![
                chunk_call("1", "a"),
                chunk_call("2", "a"),
                chunk_call("3", "b"),
                chunk_call("4", "a"),
            ]),
        ),
        Duration::from_millis(5),
        &mut last,
    )
    .unwrap();
    assert_eq!(
        made.content,
        vec![
            ContentBlockChunk::Text(TextChunk {
                id: "0".to_string(),
                text: "hi".to_string(),
            }),
            tool_chunk("1", None),
            tool_chunk("2", None),
            tool_chunk("3", Some("b")),
            tool_chunk("4", Some("a")),
        ]
    );
    assert_eq!(last, Some("a".to_string()));
    assert_eq!(made.raw_response, "raw");
    assert_eq!(made.latency, Duration::from_millis(5));
    assert_eq!(made.usage, None);
    assert_eq!(made.finish_reason, None);
}

#[test]
fn a_chunk_without_choices_reports_the_usage() {
    let mut last = Some("a".to_string());
    let made = cohere_to_tensorzero_chunk(
        "raw".to_string(),
        CohereChatChunk { choices: vec![], usage: Some(USAGE) },
        Duration::ZERO,
        &mut last,
    )
    .unwrap();
    assert_eq!(made.content, vec![]);
    assert_eq!(made.usage, Some(Usage { input_tokens: 1, output_tokens: 2 }));
    assert_eq!(made.finish_reason, None);
    assert_eq!(last, Some("a".to_string()));
}

#[test]
fn a_chunk_reports_why_the_model_stopped_and_drops_empty_text() {
    let mut last = None;
    let mut ending = chunk(Some(""), None);
    ending.choices[0].finish_reason = Some(CohereFinishReason::ToolCalls);
    let made =
        cohere_to_tensorzero_chunk("raw".to_string(), ending, Duration::ZERO, &mut last).unwrap();
    assert_eq!(made.content, vec![]);
    assert_eq!(made.finish_reason, Some(FinishReason::ToolCall));
    assert_eq!(last, None);
}

#[test]
fn a_chunk_with_several_choices_is_an_error() {
    let mut last = None;
    let mut several = chunk(Some("a"), Some(vec![chunk_call("1", "a")]));
    several.choices.push(chunk(Some("b"), None).choices.remove(0));
    let error = cohere_to_tensorzero_chunk("raw".to_string(), several, Duration::ZERO, &mut last)
        .unwrap_err();
    assert_eq!(
        error.get_owned_details(),
        ErrorDetails::InferenceServer {
            message: "Response has invalid number of choices: {}. Expected 1.".to_string(),
            provider_type: "cohere".to_string(),
            raw_request: None,
            raw_response: Some("raw".to_string()),
        }
    );
    assert_eq!(last, None);
}

#[test]
fn the_steps_of_a_stream() {
    assert!(matches!(stream_cohere(CohereStreamEvent::Opened), CohereStreamAction::Wait));
    assert!(matches!(stream_cohere(CohereStreamEvent::Ended), CohereStreamAction::Close));
    assert!(matches!(
        stream_cohere(CohereStreamEvent::Message { data: "[DONE]".to_string() }),
        CohereStreamAction::Close
    ));
    assert!(matches!(
        stream_cohere(CohereStreamEvent::Message { data: "[DONE] ".to_string() }),
        CohereStreamAction::Parse { data } if data == "[DONE] "
    ));
    match stream_cohere(CohereStreamEvent::Failed {
        message: "gone".to_string(),
        raw_response: Some("body".to_string()),
    }) {
        CohereStreamAction::Yield(Err(error)) => assert_eq!(
            error.get_owned_details(),
            ErrorDetails::InferenceServer {
                message: "gone".to_string(),
                provider_type: "cohere".to_string(),
                raw_request: None,
                raw_response: Some("body".to_string()),
            }
        ),
        _ => panic!("an error is handed on"),
    }
}

#[test]
fn a_message_that_is_no_chunk_is_an_error() {
    match stream_cohere(CohereStreamEvent::Parsed {
        data: "{".to_string(),
        parsed: Err("EOF".to_string()),
        latency: Duration::ZERO,
    }) {
        CohereStreamAction::Yield(Err(error)) => assert_eq!(
            error.get_owned_details(),
            ErrorDetails::InferenceServer {
                message: "Error parsing chunk. Error: EOF, Data: {".to_string(),
                provider_type: "cohere".to_string(),
                raw_request: None,
                raw_response: None,
            }
        ),
        _ => panic!("an error is handed on"),
    }
}

#[test]
fn each_message_of_a_stream_names_its_first_tool_call() {
    for _ in 0..2 {
        match stream_cohere(CohereStreamEvent::Parsed {
            data: "raw".to_string(),
            parsed: Ok(chunk(None, Some(vec![chunk_call("1", "a"), chunk_call("1", "a")]))),
            latency: Duration::from_millis(9),
        }) {
            CohereStreamAction::Yield(Ok(made)) => {
                assert_eq!(made.content, vec![tool_chunk("1", Some("a")), tool_chunk("1", None)]);
                assert_eq!(made.latency, Duration::from_millis(9));
            }
            _ => panic!("a chunk is handed on"),
        }
    }
}

#[test]
fn a_streamed_message_says_what_a_whole_answer_says() {
    let whole = answer(vec![choice(
        Some("hello"),
        Some(vec![response_call("1"), response_call("2")]),
    )])
    .unwrap();
    let mut last = None;
    let streamed = cohere_to_tensorzero_chunk(
        "raw".to_string(),
        chunk(
            Some("hello"),
            Some(vec![chunk_call("1", "lookup"), chunk_call("2", "lookup")]),
        ),
        Duration::ZERO,
        &mut last,
    )
    .unwrap();
    assert_eq!(whole.output.len(), streamed.content.len());
    assert_eq!(streamed.content[1], tool_chunk("1", Some("lookup")));
    assert_eq!(streamed.content[2], tool_chunk("2", None));
}

/// Takes the steps of a stream; each message is its data, and reads as a chunk of that
/// text.
fn read_stream(messages: &[&str]) -> Vec<String> {
    let mut seen = vec![];
    for message in messages {
        let mut action = stream_cohere(CohereStreamEvent::Message { data: message.to_string() });
        if let CohereStreamAction::Parse { data } = action {
            let parsed = Ok(chunk(Some(&data), None));
            action = stream_cohere(CohereStreamEvent::Parsed {
                data,
                parsed,
                latency: Duration::ZERO,
            });
        }
        match action {
            CohereStreamAction::Yield(item) => seen.push(item.unwrap().raw_response),
            CohereStreamAction::Close => break,
            _ => panic!("a message is handed on or ends the answer"),
        }
    }
    seen
}

#[test]
fn nothing_is_handed_on_after_the_end() {
    assert_eq!(read_stream(&["a", "b", "[DONE]", "c"]), vec!["a", "b"]);
    assert_eq!(read_stream(&["[DONE]", "a"]), Vec::<String>::new());
}

#[test]
fn parts_of_a_stream_are_read_alone() {
    let mut parts = read_stream(&["a", "b"]);
    parts.extend(read_stream(&["c", "[DONE]"]));
    assert_eq!(read_stream(&["a", "b", "c", "[DONE]"]), parts);
}
