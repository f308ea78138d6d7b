//! The gateway's side of an inference: the request it makes of a model, and the
//! responses it expects back.

use std::time::Duration;
use vstd::prelude::*;

use crate::text::{opt_view, opt_views, views};
use crate::tool::{
    ToolCall, ToolCallChunk, ToolCallChunkView, ToolCallConfig, ToolCallConfigView, ToolCallView,
    ToolResult, ToolResultView,
};

verus! {

/// Who wrote a message.
#[derive(Clone, Copy, Debug, PartialEq, Eq, Structural)]
pub enum Role {
    User,
    Assistant,
}

/// A piece of text.
#[derive(Debug, PartialEq, Eq)]
pub struct Text {
    pub text: String,
}

/// A block of a message's content.
#[derive(Debug, PartialEq, Eq)]
pub enum ContentBlock {
    Text(Text),
    ToolCall(ToolCall),
    ToolResult(ToolResult),
}

/// The model of [`ContentBlock`].
pub enum ContentBlockView {
    Text(Seq<char>),
    ToolCall(ToolCallView),
    ToolResult(ToolResultView),
}

impl View for ContentBlock {
    type V = ContentBlockView;

    open spec fn view(&self) -> ContentBlockView {
        match self {
            ContentBlock::Text(text) => ContentBlockView::Text(text.text@),
            ContentBlock::ToolCall(call) => ContentBlockView::ToolCall(call@),
            ContentBlock::ToolResult(result) => ContentBlockView::ToolResult(result@),
        }
    }
}

impl Clone for ContentBlock {
    fn clone(&self) -> (copy: Self)
        ensures
            copy == *self,
    {
        match self {
            ContentBlock::Text(text) => ContentBlock::Text(Text { text: text.text.clone() }),
            ContentBlock::ToolCall(call) => ContentBlock::ToolCall(call.clone()),
            ContentBlock::ToolResult(result) => ContentBlock::ToolResult(result.clone()),
        }
    }
}

impl From<String> for ContentBlock {
    fn from(text: String) -> (block: Self)
        ensures
            block@ == ContentBlockView::Text(text@),
    {
        ContentBlock::Text(Text { text })
    }
}

impl vstd::std_specs::convert::FromSpecImpl<String> for ContentBlock {
    open spec fn obeys_from_spec() -> bool {
        true
    }

    open spec fn from_spec(text: String) -> Self {
        ContentBlock::Text(Text { text })
    }
}

/// A message of the conversation so far.
#[derive(Debug, PartialEq, Eq)]
pub struct RequestMessage {
    pub role: Role,
    pub content: Vec<ContentBlock>,
}

/// The model of [`RequestMessage`].
pub struct RequestMessageView {
    pub role: Role,
    pub content: Seq<ContentBlockView>,
}

impl View for RequestMessage {
    type V = RequestMessageView;

    open spec fn view(&self) -> RequestMessageView {
        RequestMessageView { role: self.role, content: views(self.content@) }
    }
}

impl Clone for RequestMessage {
    fn clone(&self) -> (copy: Self)
        ensures
            copy@ == self@,
    {
        let content = self.content.clone();
        assert(content@ =~= self.content@);
        RequestMessage { role: self.role, content }
    }
}

/// A copy of a conversation.
pub fn copy_messages(messages: &Vec<RequestMessage>) -> (copy: Vec<RequestMessage>)
    ensures
        views(copy@) == views(messages@),
{
    let copy = messages.clone();
    assert(views(copy@) =~= views(messages@));
    copy
}

/// Whether the answer has to be JSON.
#[derive(Clone, Copy, Debug, PartialEq, Eq, Structural)]
pub enum ModelInferenceRequestJsonMode {
    Off,
    On,
    Strict,
}

/// What the gateway asks of a model. `F` is the type of the sampling parameters'
/// numbers, which are handed on as they are.
#[derive(Debug, PartialEq)]
pub struct ModelInferenceRequest<'a, F> {
    pub messages: Vec<RequestMessage>,
    pub system: Option<String>,
    pub temperature: Option<F>,
    pub top_p: Option<F>,
    pub presence_penalty: Option<F>,
    pub frequency_penalty: Option<F>,
    pub max_tokens: Option<u32>,
    pub seed: Option<u32>,
    pub stream: bool,
    pub json_mode: ModelInferenceRequestJsonMode,
    pub tool_config: Option<&'a ToolCallConfig>,
    pub stop_sequences: Option<Vec<String>>,
}

/// The model of [`ModelInferenceRequest`].
#[verifier::reject_recursive_types(F)]
pub struct ModelInferenceRequestView<F> {
    pub messages: Seq<RequestMessageView>,
    pub system: Option<Seq<char>>,
    pub temperature: Option<F>,
    pub top_p: Option<F>,
    pub presence_penalty: Option<F>,
    pub frequency_penalty: Option<F>,
    pub max_tokens: Option<u32>,
    pub seed: Option<u32>,
    pub stream: bool,
    pub json_mode: ModelInferenceRequestJsonMode,
    pub tool_config: Option<ToolCallConfigView>,
    pub stop_sequences: Option<Seq<Seq<char>>>,
}

impl<'a, F> View for ModelInferenceRequest<'a, F> {
    type V = ModelInferenceRequestView<F>;

    open spec fn view(&self) -> ModelInferenceRequestView<F> {
        ModelInferenceRequestView {
            messages: views(self.messages@),
            system: opt_view(self.system),
            temperature: self.temperature,
            top_p: self.top_p,
            presence_penalty: self.presence_penalty,
            frequency_penalty: self.frequency_penalty,
            max_tokens: self.max_tokens,
            seed: self.seed,
            stream: self.stream,
            json_mode: self.json_mode,
            tool_config: opt_view(self.tool_config),
            stop_sequences: opt_views(self.stop_sequences),
        }
    }
}

impl<'a, F> ModelInferenceRequest<'a, F> {
    /// The stop sequences, borrowed from the request.
    pub fn borrow_stop_sequences(&self) -> (r: Option<&Vec<String>>)
        ensures
            match r {
                Some(list) => self.stop_sequences == Some(*list),
                None => self.stop_sequences is None,
            },
    {
        match &self.stop_sequences {
            Some(list) => Some(list),
            None => None,
        }
    }
}

/// A block of a model's answer.
#[derive(Debug, PartialEq, Eq)]
pub enum ContentBlockOutput {
    Text(Text),
    ToolCall(ToolCall),
}

/// The model of [`ContentBlockOutput`].
pub enum ContentBlockOutputView {
    Text(Seq<char>),
    ToolCall(ToolCallView),
}

impl View for ContentBlockOutput {
    type V = ContentBlockOutputView;

    open spec fn view(&self) -> ContentBlockOutputView {
        match self {
            ContentBlockOutput::Text(text) => ContentBlockOutputView::Text(text.text@),
            ContentBlockOutput::ToolCall(call) => ContentBlockOutputView::ToolCall(call@),
        }
    }
}

impl From<String> for ContentBlockOutput {
    fn from(text: String) -> (block: Self)
        ensures
            block@ == ContentBlockOutputView::Text(text@),
    {
        ContentBlockOutput::Text(Text { text })
    }
}

impl vstd::std_specs::convert::FromSpecImpl<String> for ContentBlockOutput {
    open spec fn obeys_from_spec() -> bool {
        true
    }

    open spec fn from_spec(text: String) -> Self {
        ContentBlockOutput::Text(Text { text })
    }
}

/// How many tokens an inference took.
#[derive(Clone, Copy, Debug, PartialEq, Eq, Structural)]
pub struct Usage {
    pub input_tokens: u32,
    pub output_tokens: u32,
}

/// Why a model stopped.
#[derive(Clone, Copy, Debug, PartialEq, Eq, Structural)]
pub enum FinishReason {
    Stop,
    Length,
    ToolCall,
    Unknown,
}

/// How long an inference took.
#[derive(Clone, Copy, Debug, PartialEq, Eq)]
pub enum Latency {
    Streaming { ttft: Duration, response_time: Duration },
    NonStreaming { response_time: Duration },
    Batch,
}

/// A provider's whole answer.
#[derive(Debug, PartialEq, Eq)]
pub struct ProviderInferenceResponse {
    pub output: Vec<ContentBlockOutput>,
    pub system: Option<String>,
    pub input_messages: Vec<RequestMessage>,
    pub raw_request: String,
    pub raw_response: String,
    pub usage: Usage,
    pub latency: Latency,
    pub finish_reason: Option<FinishReason>,
}

/// The model of [`ProviderInferenceResponse`].
pub struct ProviderInferenceResponseView {
    pub output: Seq<ContentBlockOutputView>,
    pub system: Option<Seq<char>>,
    pub input_messages: Seq<RequestMessageView>,
    pub raw_request: Seq<char>,
    pub raw_response: Seq<char>,
    pub usage: Usage,
    pub latency: Latency,
    pub finish_reason: Option<FinishReason>,
}

impl View for ProviderInferenceResponse {
    type V = ProviderInferenceResponseView;

    open spec fn view(&self) -> ProviderInferenceResponseView {
        ProviderInferenceResponseView {
            output: views(self.output@),
            system: opt_view(self.system),
            input_messages: views(self.input_messages@),
            raw_request: self.raw_request@,
            raw_response: self.raw_response@,
            usage: self.usage,
            latency: self.latency,
            finish_reason: self.finish_reason,
        }
    }
}

/// A piece of streamed text, and the text block it belongs to.
#[derive(Debug, PartialEq, Eq)]
pub struct TextChunk {
    pub id: String,
    pub text: String,
}

/// A piece of a streamed answer.
#[derive(Debug, PartialEq, Eq)]
pub enum ContentBlockChunk {
    Text(TextChunk),
    ToolCall(ToolCallChunk),
}

/// The model of [`ContentBlockChunk`].
pub enum ContentBlockChunkView {
    Text { id: Seq<char>, text: Seq<char> },
    ToolCall(ToolCallChunkView),
}

impl View for ContentBlockChunk {
    type V = ContentBlockChunkView;

    open spec fn view(&self) -> ContentBlockChunkView {
        match self {
            ContentBlockChunk::Text(chunk) => ContentBlockChunkView::Text {
                id: chunk.id@,
                text: chunk.text@,
            },
            ContentBlockChunk::ToolCall(chunk) => ContentBlockChunkView::ToolCall(chunk@),
        }
    }
}

/// What one message of a stream brings.
#[derive(Debug, PartialEq, Eq)]
pub struct ProviderInferenceResponseChunk {
    pub content: Vec<ContentBlockChunk>,
    pub usage: Option<Usage>,
    pub raw_response: String,
    pub latency: Duration,
    pub finish_reason: Option<FinishReason>,
}

/// The model of [`ProviderInferenceResponseChunk`].
pub struct ProviderInferenceResponseChunkView {
    pub content: Seq<ContentBlockChunkView>,
    pub usage: Option<Usage>,
    pub raw_response: Seq<char>,
    pub latency: Duration,
    pub finish_reason: Option<FinishReason>,
}

impl View for ProviderInferenceResponseChunk {
    type V = ProviderInferenceResponseChunkView;

    open spec fn view(&self) -> ProviderInferenceResponseChunkView {
        ProviderInferenceResponseChunkView {
            content: views(self.content@),
            usage: self.usage,
            raw_response: self.raw_response@,
            latency: self.latency,
            finish_reason: self.finish_reason,
        }
    }
}

/// Every part of a request is seen as it is.
pub proof fn law_requests_are_seen_whole<'a, F>(
    block: ContentBlock,
    message: RequestMessage,
    request: ModelInferenceRequest<'a, F>,
)
    ensures
        block matches ContentBlock::Text(text) ==> block@ == ContentBlockView::Text(text.text@),
        block matches ContentBlock::ToolCall(call) ==> block@ == ContentBlockView::ToolCall(call@),
        block matches ContentBlock::ToolResult(result) ==> block@ == ContentBlockView::ToolResult(
            result@,
        ),
        message@.role == message.role,
        message@.content == views(message.content@),
        request@.messages == views(request.messages@),
        request@.system == opt_view(request.system),
        request@.temperature == request.temperature,
        request@.top_p == request.top_p,
        request@.presence_penalty == request.presence_penalty,
        request@.frequency_penalty == request.frequency_penalty,
        request@.max_tokens == request.max_tokens,
        request@.seed == request.seed,
        request@.stream == request.stream,
        request@.json_mode == request.json_mode,
        request@.tool_config is Some <==> request.tool_config is Some,
        request.tool_config matches Some(config) ==> request@.tool_config == Some(config@),
        request@.stop_sequences == opt_views(request.stop_sequences),
{
}

/// Every part of a response is seen as it is.
pub proof fn law_responses_are_seen_whole(
    block: ContentBlockOutput,
    response: ProviderInferenceResponse,
)
    ensures
        block matches ContentBlockOutput::Text(text) ==> block@ == ContentBlockOutputView::Text(
            text.text@,
        ),
        block matches ContentBlockOutput::ToolCall(call) ==> block@
            == ContentBlockOutputView::ToolCall(call@),
        response@.output == views(response.output@),
        response@.system == opt_view(response.system),
        response@.input_messages == views(response.input_messages@),
        response@.raw_request == response.raw_request@,
        response@.raw_response == response.raw_response@,
        response@.usage == response.usage,
        response@.latency == response.latency,
        response@.finish_reason == response.finish_reason,
{
}

/// Every part of a streamed response is seen as it is.
pub proof fn law_chunks_are_seen_whole(
    block: ContentBlockChunk,
    chunk: ProviderInferenceResponseChunk,
)
    ensures
        block matches ContentBlockChunk::Text(piece) ==> block@ == (ContentBlockChunkView::Text {
            id: piece.id@,
            text: piece.text@,
        }),
        block matches ContentBlockChunk::ToolCall(piece) ==> block@
            == ContentBlockChunkView::ToolCall(piece@),
        chunk@.content == views(chunk.content@),
        chunk@.usage == chunk.usage,
        chunk@.raw_response == chunk.raw_response@,
        chunk@.latency == chunk.latency,
        chunk@.finish_reason == chunk.finish_reason,
{
}

} // verus!
