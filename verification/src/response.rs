//! Cohere's whole answers: the wire types, and what the gateway makes of them.

use vstd::prelude::*;
use vstd::string::*;

use crate::error::{Error, ErrorDetails, ErrorView};
use crate::inference::{
    copy_messages, ContentBlockOutput, ContentBlockOutputView, FinishReason, Latency,
    ModelInferenceRequest, ModelInferenceRequestView, ProviderInferenceResponse,
    ProviderInferenceResponseView, Usage,
};
use crate::provider::PROVIDER_TYPE;
use crate::text::{
    copy_of, decimal, decimal_text, joined, lemma_take_next, lemma_views_push, opt_view, opt_views,
    views,
};
use crate::tool::{ToolCall, ToolCallView};

verus! {

/// Token counts as Cohere reports them.
#[derive(Clone, Copy, Debug, PartialEq, Eq, Structural)]
pub struct CohereUsage {
    pub prompt_tokens: u32,
    pub completion_tokens: u32,
    pub total_tokens: u32,
}

impl From<CohereUsage> for Usage {
    fn from(usage: CohereUsage) -> (r: Self)
        ensures
            r.input_tokens == usage.prompt_tokens,
            r.output_tokens == usage.completion_tokens,
    {
        Usage { input_tokens: usage.prompt_tokens, output_tokens: usage.completion_tokens }
    }
}

impl vstd::std_specs::convert::FromSpecImpl<CohereUsage> for Usage {
    open spec fn obeys_from_spec() -> bool {
        true
    }

    open spec fn from_spec(usage: CohereUsage) -> Self {
        usage_of(usage)
    }
}

/// The prompt's tokens go in, the completion's tokens come out.
pub open spec fn usage_of(usage: CohereUsage) -> Usage {
    Usage { input_tokens: usage.prompt_tokens, output_tokens: usage.completion_tokens }
}

/// The function that a tool call names, and its arguments.
#[derive(Debug, PartialEq, Eq)]
pub struct CohereResponseFunctionCall {
    pub name: String,
    pub arguments: String,
}

/// A tool call in an answer.
#[derive(Debug, PartialEq, Eq)]
pub struct CohereResponseToolCall {
    pub id: String,
    pub function: CohereResponseFunctionCall,
}

impl View for CohereResponseToolCall {
    type V = ToolCallView;

    open spec fn view(&self) -> ToolCallView {
        ToolCallView {
            id: self.id@,
            name: self.function.name@,
            arguments: self.function.arguments@,
        }
    }
}

impl From<CohereResponseToolCall> for ToolCall {
    fn from(tool_call: CohereResponseToolCall) -> (r: Self)
        ensures
            r@ == tool_call@,
    {
        ToolCall {
            id: tool_call.id,
            name: tool_call.function.name,
            arguments: tool_call.function.arguments,
        }
    }
}

impl vstd::std_specs::convert::FromSpecImpl<CohereResponseToolCall> for ToolCall {
    open spec fn obeys_from_spec() -> bool {
        true
    }

    open spec fn from_spec(tool_call: CohereResponseToolCall) -> Self {
        ToolCall {
            id: tool_call.id,
            name: tool_call.function.name,
            arguments: tool_call.function.arguments,
        }
    }
}

/// The message that the model wrote.
#[derive(Debug, PartialEq, Eq)]
pub struct CohereResponseMessage {
    pub content: Option<String>,
    pub tool_calls: Option<Vec<CohereResponseToolCall>>,
}

/// The model of [`CohereResponseMessage`].
pub struct CohereResponseMessageView {
    pub content: Option<Seq<char>>,
    pub tool_calls: Option<Seq<ToolCallView>>,
}

impl View for CohereResponseMessage {
    type V = CohereResponseMessageView;

    open spec fn view(&self) -> CohereResponseMessageView {
        CohereResponseMessageView {
            content: opt_view(self.content),
            tool_calls: opt_views(self.tool_calls),
        }
    }
}

/// Why Cohere stopped.
#[derive(Clone, Copy, Debug, PartialEq, Eq, Structural)]
pub enum CohereFinishReason {
    Stop,
    Length,
    ModelLength,
    Error,
    ToolCalls,
    /// Any reason that is none of the others.
    Unknown,
}

impl From<CohereFinishReason> for FinishReason {
    fn from(reason: CohereFinishReason) -> (r: Self)
        ensures
            r is Stop <==> reason is Stop,
            r is Length <==> reason is Length || reason is ModelLength,
            r is ToolCall <==> reason is ToolCalls,
            r is Unknown <==> reason is Error || reason is Unknown,
    {
        match reason {
            CohereFinishReason::Stop => FinishReason::Stop,
            CohereFinishReason::Length => FinishReason::Length,
            CohereFinishReason::ModelLength => FinishReason::Length,
            CohereFinishReason::Error => FinishReason::Unknown,
            CohereFinishReason::ToolCalls => FinishReason::ToolCall,
            CohereFinishReason::Unknown => FinishReason::Unknown,
        }
    }
}

impl vstd::std_specs::convert::FromSpecImpl<CohereFinishReason> for FinishReason {
    open spec fn obeys_from_spec() -> bool {
        true
    }

    open spec fn from_spec(reason: CohereFinishReason) -> Self {
        finish_reason_of(reason)
    }
}

/// Both limits on the length are one reason, and an error is as unknown as what
/// has no name.
pub open spec fn finish_reason_of(reason: CohereFinishReason) -> FinishReason {
    match reason {
        CohereFinishReason::Stop => FinishReason::Stop,
        CohereFinishReason::Length | CohereFinishReason::ModelLength => FinishReason::Length,
        CohereFinishReason::ToolCalls => FinishReason::ToolCall,
        CohereFinishReason::Error | CohereFinishReason::Unknown => FinishReason::Unknown,
    }
}

/// One of the answers that a response offers.
#[derive(Debug, PartialEq, Eq)]
pub struct CohereResponseChoice {
    pub index: u8,
    pub message: CohereResponseMessage,
    pub finish_reason: CohereFinishReason,
}

/// The model of [`CohereResponseChoice`].
pub struct CohereResponseChoiceView {
    pub index: u8,
    pub message: CohereResponseMessageView,
    pub finish_reason: CohereFinishReason,
}

impl View for CohereResponseChoice {
    type V = CohereResponseChoiceView;

    open spec fn view(&self) -> CohereResponseChoiceView {
        CohereResponseChoiceView {
            index: self.index,
            message: self.message@,
            finish_reason: self.finish_reason,
        }
    }
}

/// A whole answer.
#[derive(Debug, PartialEq, Eq)]
pub struct CohereResponse {
    pub choices: Vec<CohereResponseChoice>,
    pub usage: CohereUsage,
}

/// The model of [`CohereResponse`].
pub struct CohereResponseView {
    pub choices: Seq<CohereResponseChoiceView>,
    pub usage: CohereUsage,
}

impl View for CohereResponse {
    type V = CohereResponseView;

    open spec fn view(&self) -> CohereResponseView {
        CohereResponseView { choices: views(self.choices@), usage: self.usage }
    }
}

/// An answer, with what is known of how it came about.
pub struct CohereResponseWithMetadata<'a, F> {
    pub response: CohereResponse,
    pub raw_response: String,
    pub latency: Latency,
    pub raw_request: String,
    pub generic_request: &'a ModelInferenceRequest<'a, F>,
}

/// The model of [`CohereResponseWithMetadata`].
#[verifier::reject_recursive_types(F)]
pub struct CohereResponseWithMetadataView<F> {
    pub response: CohereResponseView,
    pub raw_response: Seq<char>,
    pub latency: Latency,
    pub raw_request: Seq<char>,
    pub generic_request: ModelInferenceRequestView<F>,
}

impl<'a, F> View for CohereResponseWithMetadata<'a, F> {
    type V = CohereResponseWithMetadataView<F>;

    open spec fn view(&self) -> CohereResponseWithMetadataView<F> {
        CohereResponseWithMetadataView {
            response: self.response@,
            raw_response: self.raw_response@,
            latency: self.latency,
            raw_request: self.raw_request@,
            generic_request: self.generic_request@,
        }
    }
}

/// The blocks of an answer: its text, unless there is none or it is empty, and
/// then its tool calls, in their order.
pub open spec fn output_of(message: CohereResponseMessageView) -> Seq<ContentBlockOutputView> {
    text_output(message.content) + tool_output(message.tool_calls)
}

/// The text block of an answer, if it has one.
pub open spec fn text_output(content: Option<Seq<char>>) -> Seq<ContentBlockOutputView> {
    match content {
        Some(text) if text.len() > 0 => seq![ContentBlockOutputView::Text(text)],
        _ => seq![],
    }
}

/// The tool call blocks of an answer.
pub open spec fn tool_output(tool_calls: Option<Seq<ToolCallView>>) -> Seq<ContentBlockOutputView> {
    match tool_calls {
        Some(calls) => calls.map_values(|call: ToolCallView| ContentBlockOutputView::ToolCall(call)),
        None => seq![],
    }
}

/// The complaint about an answer with `count` choices.
pub open spec fn choices_message(count: nat) -> Seq<char> {
    "Response has invalid number of choices: "@ + decimal(count) + ". Expected 1."@
}

/// What the gateway makes of an answer: it has to offer exactly one choice.
pub open spec fn response_of<F>(answer: CohereResponseWithMetadataView<F>) -> Result<
    ProviderInferenceResponseView,
    ErrorView,
> {
    let choices = answer.response.choices;
    if choices.len() != 1 {
        Err(
            ErrorView::InferenceServer {
                message: choices_message(choices.len()),
                provider_type: PROVIDER_TYPE@,
                raw_request: None,
                raw_response: Some(answer.raw_response),
            },
        )
    } else {
        Ok(
            ProviderInferenceResponseView {
                output: output_of(choices[0].message),
                system: answer.generic_request.system,
                input_messages: answer.generic_request.messages,
                raw_request: answer.raw_request,
                raw_response: answer.raw_response,
                usage: usage_of(answer.response.usage),
                latency: answer.latency,
                finish_reason: Some(finish_reason_of(choices[0].finish_reason)),
            },
        )
    }
}

/// The views of a response or of an error.
pub open spec fn outcome(r: Result<ProviderInferenceResponse, Error>) -> Result<
    ProviderInferenceResponseView,
    ErrorView,
> {
    match r {
        Ok(response) => Ok(response@),
        Err(error) => Err(error@),
    }
}

/// The blocks of `message`.
fn output_blocks(message: CohereResponseMessage) -> (content: Vec<ContentBlockOutput>)
    ensures
        views(content@) == output_of(message@),
{
    let ghost model = message@;
    let mut content: Vec<ContentBlockOutput> = Vec::new();
    if let Some(text) = message.content {
        if !text.as_str().is_empty() {
            content.push(ContentBlockOutput::from(text));
        }
    }
    assert(views(content@) =~= text_output(model.content));
    if let Some(tool_calls) = message.tool_calls {
        let ghost calls = tool_calls@;
        let ghost front = content@;
        for tool_call in it: tool_calls
            invariant
                it.seq() == calls,
                views(content@) == views(front) + tool_output(Some(views(calls.take(it.index())))),
        {
            let ghost done = calls.take(it.index());
            let ghost before = content@;
            let block = ContentBlockOutput::ToolCall(ToolCall::from(tool_call));
            content.push(block);
            proof {
                lemma_take_next(calls, it.index());
                lemma_views_push(done, tool_call);
                lemma_views_push(before, block);
                assert(tool_output(Some(views(done).push(tool_call@))) =~= tool_output(
                    Some(views(done)),
                ).push(block@));
            }
        }
        assert(calls.take(calls.len() as int) =~= calls);
    }
    content
}

impl<'a, F> TryFrom<CohereResponseWithMetadata<'a, F>> for ProviderInferenceResponse {
    type Error = Error;

    fn try_from(value: CohereResponseWithMetadata<'a, F>) -> (r: Result<Self, Error>)
        ensures
            outcome(r) == response_of(value@),
    {
        let ghost answer = value@;
        let CohereResponseWithMetadata {
            response,
            raw_response,
            latency,
            raw_request,
            generic_request,
        } = value;
        let mut choices = response.choices;
        if choices.len() != 1 {
            let count = decimal_text(choices.len());
            let message = joined("Response has invalid number of choices: ", count.as_str());
            return Err(
                Error::new(
                    ErrorDetails::InferenceServer {
                        message: message.concat(". Expected 1."),
                        provider_type: PROVIDER_TYPE.to_string(),
                        raw_request: None,
                        raw_response: Some(raw_response),
                    },
                ),
            );
        }
        let usage = Usage::from(response.usage);
        let CohereResponseChoice { message, finish_reason, .. } = choices.pop().unwrap();
        assert(answer.response.choices[0].message == message@);
        let output = output_blocks(message);
        Ok(
            ProviderInferenceResponse {
                output,
                system: copy_of(&generic_request.system),
                input_messages: copy_messages(&generic_request.messages),
                raw_request,
                raw_response,
                usage,
                latency,
                finish_reason: Some(FinishReason::from(finish_reason)),
            },
        )
    }
}

impl<'a, F> vstd::std_specs::convert::TryFromSpecImpl<CohereResponseWithMetadata<'a, F>> for ProviderInferenceResponse {
    /// What `try_from` returns is said of its view, in its own contract.
    open spec fn obeys_try_from_spec() -> bool {
        false
    }

    open spec fn try_from_spec(value: CohereResponseWithMetadata<'a, F>) -> Result<Self, Error> {
        arbitrary()
    }
}

/// The statuses that say that the request was at fault: bad request,
/// unauthorized, forbidden, too many requests.
pub open spec fn is_client_error(status: u16) -> bool {
    status == 400 || status == 401 || status == 403 || status == 429
}

/// What an answer that is no success is turned into.
pub open spec fn error_of(status: u16, body: Seq<char>) -> ErrorView {
    if is_client_error(status) {
        ErrorView::InferenceClient {
            message: body,
            status_code: Some(status),
            provider_type: PROVIDER_TYPE@,
            raw_request: None,
            raw_response: None,
        }
    } else {
        ErrorView::InferenceServer {
            message: body,
            provider_type: PROVIDER_TYPE@,
            raw_request: None,
            raw_response: None,
        }
    }
}

/// Turns an answer that is no success into an error: the client's, where the
/// status blames the request, else the server's.
pub fn handle_cohere_error(response_code: u16, response_body: &str) -> (r: Result<
    ProviderInferenceResponse,
    Error,
>)
    ensures
        outcome(r) == Err::<ProviderInferenceResponseView, ErrorView>(
            error_of(response_code, response_body@),
        ),
{
    match response_code {
        400 | 401 | 403 | 429 => Err(
            Error::new(
                ErrorDetails::InferenceClient {
                    message: response_body.to_string(),
                    status_code: Some(response_code),
                    provider_type: PROVIDER_TYPE.to_string(),
                    raw_request: None,
                    raw_response: None,
                },
            ),
        ),
        _ => Err(
            Error::new(
                ErrorDetails::InferenceServer {
                    message: response_body.to_string(),
                    provider_type: PROVIDER_TYPE.to_string(),
                    raw_request: None,
                    raw_response: None,
                },
            ),
        ),
    }
}

/// An answer is taken exactly if it offers one choice.
pub proof fn law_exactly_one_choice<F>(answer: CohereResponseWithMetadataView<F>)
    ensures
        response_of(answer) is Ok <==> answer.response.choices.len() == 1,
{
}

/// A response carries the raw texts, the instructions, the conversation and the
/// latency as they were.
pub proof fn law_response_keeps_its_context<F>(answer: CohereResponseWithMetadataView<F>)
    ensures
        response_of(answer) matches Ok(response) ==> {
            &&& response.raw_request == answer.raw_request
            &&& response.raw_response == answer.raw_response
            &&& response.system == answer.generic_request.system
            &&& response.input_messages == answer.generic_request.messages
            &&& response.latency == answer.latency
            &&& response.usage.input_tokens == answer.response.usage.prompt_tokens
            &&& response.usage.output_tokens == answer.response.usage.completion_tokens
        },
{
}

/// The only text block of an answer is its first block, and it is never empty;
/// every other block is one of the tool calls, in their order.
pub proof fn law_output_keeps_what_the_message_says(message: CohereResponseMessageView)
    ensures
        forall|i: int|
            0 <= i < output_of(message).len() && #[trigger] output_of(message)[i] is Text ==> {
                &&& i == 0
                &&& message.content == Some(output_of(message)[i]->Text_0)
                &&& output_of(message)[i]->Text_0.len() > 0
            },
        message.content matches Some(text) ==> (text.len() > 0 ==> output_of(message).len() > 0
            && output_of(message)[0] == ContentBlockOutputView::Text(text)),
        message.tool_calls matches Some(calls) ==> output_of(message).len() == text_output(
            message.content,
        ).len() + calls.len(),
        message.tool_calls matches Some(calls) ==> forall|i: int|
            0 <= i < calls.len() ==> #[trigger] output_of(message)[text_output(
                message.content,
            ).len() + i] == ContentBlockOutputView::ToolCall(calls[i]),
        message.tool_calls is None ==> output_of(message) == text_output(message.content),
{
    if message.tool_calls is None {
        assert(output_of(message) =~= text_output(message.content));
    }
}

/// Whether an error is the client's is told by the status alone, and its words are
/// the body of the answer.
pub proof fn law_errors_follow_the_status(status: u16, body: Seq<char>)
    ensures
        error_of(status, body) is InferenceClient <==> is_client_error(status),
        error_of(status, body) is InferenceServer <==> !is_client_error(status),
        is_client_error(status) ==> 400 <= status < 500,
        error_of(status, body) matches ErrorView::InferenceClient { message, status_code, .. } ==> {
            message == body && status_code == Some(status)
        },
        error_of(status, body) matches ErrorView::InferenceServer { message, .. } ==> message
            == body,
{
}

/// The output of a response is what the one choice's message says, whatever else the
/// answer says: its text first, if there is one and it is not empty, and then its tool
/// calls, all of them, in their order.
pub proof fn law_nothing_of_the_answer_is_lost<F>(answer: CohereResponseWithMetadataView<F>)
    requires
        answer.response.choices.len() == 1,
    ensures
        response_of(answer) matches Ok(response) && {
            let message = answer.response.choices[0].message;
            let texts: int = if message.content is Some && message.content->0.len() > 0 {
                1
            } else {
                0
            };
            let calls: int = if message.tool_calls is Some {
                message.tool_calls->0.len() as int
            } else {
                0
            };
            &&& response.output.len() == texts + calls
            &&& texts == 1 ==> response.output[0] == ContentBlockOutputView::Text(message.content->0)
            &&& forall|i: int|
                0 <= i < calls ==> response.output[texts + i] == ContentBlockOutputView::ToolCall(
                    #[trigger] message.tool_calls->0[i],
                )
        },
{
}

/// A response says why the model stopped, how many tokens went in and came out, and
/// what the gateway knew before; it depends on the answer's output in none of this.
pub proof fn law_a_response_says_how_it_came_about<F>(answer: CohereResponseWithMetadataView<F>)
    requires
        answer.response.choices.len() == 1,
    ensures
        response_of(answer) matches Ok(response) && {
            let reason = answer.response.choices[0].finish_reason;
            &&& response.finish_reason is Some
            &&& response.finish_reason->0 is Stop <==> reason is Stop
            &&& response.finish_reason->0 is Length <==> reason is Length || reason is ModelLength
            &&& response.finish_reason->0 is ToolCall <==> reason is ToolCalls
            &&& response.finish_reason->0 is Unknown <==> reason is Error || reason is Unknown
            &&& response.usage.input_tokens == answer.response.usage.prompt_tokens
            &&& response.usage.output_tokens == answer.response.usage.completion_tokens
            &&& response.system == answer.generic_request.system
            &&& response.input_messages == answer.generic_request.messages
            &&& response.raw_request == answer.raw_request
            &&& response.raw_response == answer.raw_response
            &&& response.latency == answer.latency
        },
{
}

/// An answer without a choice, or with several, is the server's error. The error gives
/// their number and the answer.
pub proof fn law_other_numbers_of_choices_are_reported<F>(answer: CohereResponseWithMetadataView<F>)
    requires
        answer.response.choices.len() != 1,
    ensures
        response_of(answer) matches Err(error) && error == (ErrorView::InferenceServer {
            message: "Response has invalid number of choices: "@ + decimal(
                answer.response.choices.len(),
            ) + ". Expected 1."@,
            provider_type: "cohere"@,
            raw_request: None,
            raw_response: Some(answer.raw_response),
        }),
{
}

/// A refusal is the client's error for the statuses of a bad request, of a request that
/// is not authorized or not allowed, and of one too many, and the server's for every
/// other; the error says what the answer says, and no more.
pub proof fn law_who_is_blamed(status: u16, body: Seq<char>)
    ensures
        status == 400 || status == 401 || status == 403 || status == 429 ==> error_of(status, body)
            == (ErrorView::InferenceClient {
            message: body,
            status_code: Some(status),
            provider_type: "cohere"@,
            raw_request: None,
            raw_response: None,
        }),
        status != 400 && status != 401 && status != 403 && status != 429 ==> error_of(status, body)
            == (ErrorView::InferenceServer {
            message: body,
            provider_type: "cohere"@,
            raw_request: None,
            raw_response: None,
        }),
{
}

/// Every part of an answer is seen as it is.
pub proof fn law_answers_are_seen_whole<'a, F>(
    call: CohereResponseToolCall,
    message: CohereResponseMessage,
    choice: CohereResponseChoice,
    response: CohereResponse,
    answer: CohereResponseWithMetadata<'a, F>,
)
    ensures
        call@.id == call.id@,
        call@.name == call.function.name@,
        call@.arguments == call.function.arguments@,
        message@.content == opt_view(message.content),
        message@.tool_calls == opt_views(message.tool_calls),
        choice@.index == choice.index,
        choice@.message == choice.message@,
        choice@.finish_reason == choice.finish_reason,
        response@.choices == views(response.choices@),
        response@.usage == response.usage,
        answer@.response == answer.response@,
        answer@.raw_response == answer.raw_response@,
        answer@.latency == answer.latency,
        answer@.raw_request == answer.raw_request@,
        answer@.generic_request == answer.generic_request@,
{
}

/// What comes of an answer is seen as it is.
pub proof fn law_outcomes_are_seen(r: Result<ProviderInferenceResponse, Error>)
    ensures
        r matches Ok(response) ==> outcome(r) == Ok::<ProviderInferenceResponseView, ErrorView>(
            response@,
        ),
        r matches Err(error) ==> outcome(r) == Err::<ProviderInferenceResponseView, ErrorView>(
            error@,
        ),
{
}

} // verus!
