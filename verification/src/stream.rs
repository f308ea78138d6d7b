//! Cohere's streamed answers: the wire types, what the gateway makes of one
//! message of a stream, and the steps of reading a stream.

use std::time::Duration;
use vstd::prelude::*;
use vstd::string::*;

use crate::error::{Error, ErrorDetails, ErrorView};
use crate::inference::{
    ContentBlockChunk, ContentBlockChunkView, ContentBlockOutputView, FinishReason,
    ProviderInferenceResponseChunk, ProviderInferenceResponseChunkView, TextChunk, Usage,
};
use crate::provider::PROVIDER_TYPE;
use crate::response::{
    finish_reason_of, output_of, usage_of, CohereFinishReason, CohereResponseMessageView,
    CohereUsage,
};
use crate::text::{joined, lemma_take_next, lemma_views_push, opt_view, opt_views, views};
use crate::tool::{check_new_tool_call_name, ToolCallChunk, ToolCallChunkView, ToolCallView};

verus! {

/// The function that a streamed tool call names, and its arguments.
#[derive(Debug, PartialEq, Eq)]
pub struct CohereFunctionCallChunk {
    pub name: String,
    pub arguments: String,
}

/// A piece of a tool call.
#[derive(Debug, PartialEq, Eq)]
pub struct CohereToolCallChunk {
    pub id: String,
    pub function: CohereFunctionCallChunk,
}

impl View for CohereToolCallChunk {
    type V = ToolCallView;

    open spec fn view(&self) -> ToolCallView {
        ToolCallView {
            id: self.id@,
            name: self.function.name@,
            arguments: self.function.arguments@,
        }
    }
}

/// What a message of the stream adds to the answer.
#[derive(Debug, PartialEq, Eq)]
pub struct CohereDelta {
    pub content: Option<String>,
    pub tool_calls: Option<Vec<CohereToolCallChunk>>,
}

/// The model of [`CohereDelta`].
pub struct CohereDeltaView {
    pub content: Option<Seq<char>>,
    pub tool_calls: Option<Seq<ToolCallView>>,
}

impl View for CohereDelta {
    type V = CohereDeltaView;

    open spec fn view(&self) -> CohereDeltaView {
        CohereDeltaView {
            content: opt_view(self.content),
            tool_calls: opt_views(self.tool_calls),
        }
    }
}

/// One of the answers that a message of the stream adds to.
#[derive(Debug, PartialEq, Eq)]
pub struct CohereChatChunkChoice {
    pub delta: CohereDelta,
    pub finish_reason: Option<CohereFinishReason>,
}

/// The model of [`CohereChatChunkChoice`].
pub struct CohereChatChunkChoiceView {
    pub delta: CohereDeltaView,
    pub finish_reason: Option<CohereFinishReason>,
}

impl View for CohereChatChunkChoice {
    type V = CohereChatChunkChoiceView;

    open spec fn view(&self) -> CohereChatChunkChoiceView {
        CohereChatChunkChoiceView { delta: self.delta@, finish_reason: self.finish_reason }
    }
}

/// A message of the stream.
#[derive(Debug, PartialEq, Eq)]
pub struct CohereChatChunk {
    pub choices: Vec<CohereChatChunkChoice>,
    pub usage: Option<CohereUsage>,
}

/// The model of [`CohereChatChunk`].
pub struct CohereChatChunkView {
    pub choices: Seq<CohereChatChunkChoiceView>,
    pub usage: Option<CohereUsage>,
}

impl View for CohereChatChunk {
    type V = CohereChatChunkView;

    open spec fn view(&self) -> CohereChatChunkView {
        CohereChatChunkView { choices: views(self.choices@), usage: self.usage }
    }
}

/// The text that a message brings, unless there is none or it is empty. All text
/// belongs to one block.
pub open spec fn text_chunks(content: Option<Seq<char>>) -> Seq<ContentBlockChunkView> {
    match content {
        Some(text) if text.len() > 0 => seq![ContentBlockChunkView::Text { id: "0"@, text }],
        _ => seq![],
    }
}

/// The name of the tool call before the one at `i`; before the first comes `last`.
pub open spec fn name_before(
    calls: Seq<ToolCallView>,
    last: Option<Seq<char>>,
    i: int,
) -> Option<Seq<char>> {
    if 0 < i <= calls.len() {
        Some(calls[i - 1].name)
    } else {
        last
    }
}

/// The chunk for the tool call at `i`: its name comes only where it differs from
/// that of the call before.
pub open spec fn tool_chunk(
    calls: Seq<ToolCallView>,
    last: Option<Seq<char>>,
    i: int,
) -> ContentBlockChunkView {
    ContentBlockChunkView::ToolCall(
        ToolCallChunkView {
            id: calls[i].id,
            raw_name: if name_before(calls, last, i) == Some(calls[i].name) {
                None
            } else {
                Some(calls[i].name)
            },
            raw_arguments: calls[i].arguments,
        },
    )
}

/// The chunks for tool calls, one for each, in their order.
pub open spec fn tool_chunks(calls: Seq<ToolCallView>, last: Option<Seq<char>>) -> Seq<
    ContentBlockChunkView,
> {
    Seq::new(calls.len(), |i: int| tool_chunk(calls, last, i))
}

/// The tool calls of a message; none where the message does not speak of them.
pub open spec fn calls_of(delta: CohereDeltaView) -> Seq<ToolCallView> {
    match delta.tool_calls {
        Some(calls) => calls,
        None => seq![],
    }
}

/// Everything that a message adds: text, then tool calls.
pub open spec fn chunks_of(delta: CohereDeltaView, last: Option<Seq<char>>) -> Seq<
    ContentBlockChunkView,
> {
    text_chunks(delta.content) + tool_chunks(calls_of(delta), last)
}

/// What the gateway makes of a message of the stream. A message may come without
/// any choice, as the one that reports the usage does, but not with several.
pub open spec fn chunk_of(
    raw_message: Seq<char>,
    chunk: CohereChatChunkView,
    latency: Duration,
    last: Option<Seq<char>>,
) -> Result<ProviderInferenceResponseChunkView, ErrorView> {
    if chunk.choices.len() > 1 {
        Err(
            ErrorView::InferenceServer {
                message: "Response has invalid number of choices: {}. Expected 1."@,
                provider_type: PROVIDER_TYPE@,
                raw_request: None,
                raw_response: Some(raw_message),
            },
        )
    } else {
        Ok(
            ProviderInferenceResponseChunkView {
                content: if chunk.choices.len() == 1 {
                    chunks_of(chunk.choices[0].delta, last)
                } else {
                    seq![]
                },
                usage: match chunk.usage {
                    Some(usage) => Some(usage_of(usage)),
                    None => None,
                },
                raw_response: raw_message,
                latency,
                finish_reason: if chunk.choices.len() == 1 {
                    match chunk.choices[0].finish_reason {
                        Some(reason) => Some(finish_reason_of(reason)),
                        None => None,
                    }
                } else {
                    None
                },
            },
        )
    }
}

/// The name of the latest tool call once a message has been read.
pub open spec fn name_after(chunk: CohereChatChunkView, last: Option<Seq<char>>) -> Option<
    Seq<char>,
> {
    if chunk.choices.len() == 1 {
        let calls = calls_of(chunk.choices[0].delta);
        name_before(calls, last, calls.len() as int)
    } else {
        last
    }
}

/// The views of a chunk or of an error.
pub open spec fn chunk_outcome(r: Result<ProviderInferenceResponseChunk, Error>) -> Result<
    ProviderInferenceResponseChunkView,
    ErrorView,
> {
    match r {
        Ok(chunk) => Ok(chunk@),
        Err(error) => Err(error@),
    }
}

/// What `delta` adds to the answer.
fn delta_chunks(delta: CohereDelta, last_tool_name: &mut Option<String>) -> (content: Vec<
    ContentBlockChunk,
>)
    ensures
        views(content@) == chunks_of(delta@, opt_view(*old(last_tool_name))),
        opt_view(*final(last_tool_name)) == name_before(
            calls_of(delta@),
            opt_view(*old(last_tool_name)),
            calls_of(delta@).len() as int,
        ),
{
    let ghost model = delta@;
    let ghost last = opt_view(*last_tool_name);
    let mut content: Vec<ContentBlockChunk> = Vec::new();
    if let Some(text) = delta.content {
        if !text.as_str().is_empty() {
            content.push(ContentBlockChunk::Text(TextChunk { text, id: "0".to_string() }));
        }
    }
    let ghost front = views(content@);
    assert(front =~= text_chunks(model.content));
    if let Some(tool_calls) = delta.tool_calls {
        let ghost calls = tool_calls@;
        let ghost seen = views(calls);
        for tool_call in it: tool_calls
            invariant
                it.seq() == calls,
                seen == views(calls),
                views(content@) == front + tool_chunks(seen, last).take(it.index()),
                opt_view(*last_tool_name) == name_before(seen, last, it.index()),
        {
            let ghost n = it.index();
            let ghost before = content@;
            assert(seen[n] == tool_call@);
            let raw_name = check_new_tool_call_name(tool_call.function.name, last_tool_name);
            let block = ContentBlockChunk::ToolCall(
                ToolCallChunk {
                    id: tool_call.id,
                    raw_name,
                    raw_arguments: tool_call.function.arguments,
                },
            );
            content.push(block);
            proof {
                lemma_take_next(tool_chunks(seen, last), n);
                lemma_views_push(before, block);
                assert(block@ == tool_chunk(seen, last, n));
                assert(front + tool_chunks(seen, last).take(n + 1) =~= (front + tool_chunks(
                    seen,
                    last,
                ).take(n)).push(block@));
            }
        }
        assert(tool_chunks(seen, last).take(seen.len() as int) =~= tool_chunks(seen, last));
    } else {
        assert(front + tool_chunks(calls_of(model), last) =~= front);
    }
    content
}

/// What the gateway makes of `chunk`, which was read from `raw_message`.
pub fn cohere_to_tensorzero_chunk(
    raw_message: String,
    chunk: CohereChatChunk,
    latency: Duration,
    last_tool_name: &mut Option<String>,
) -> (r: Result<ProviderInferenceResponseChunk, Error>)
    ensures
        chunk_outcome(r) == chunk_of(
            raw_message@,
            chunk@,
            latency,
            opt_view(*old(last_tool_name)),
        ),
        opt_view(*final(last_tool_name)) == name_after(chunk@, opt_view(*old(last_tool_name))),
{
    let ghost model = chunk@;
    let mut choices = chunk.choices;
    if choices.len() > 1 {
        return Err(
            Error::new(
                ErrorDetails::InferenceServer {
                    message: "Response has invalid number of choices: {}. Expected 1.".to_string(),
                    provider_type: PROVIDER_TYPE.to_string(),
                    raw_request: None,
                    raw_response: Some(raw_message),
                },
            ),
        );
    }
    let usage = match chunk.usage {
        Some(usage) => Some(Usage::from(usage)),
        None => None,
    };
    let mut content: Vec<ContentBlockChunk> = Vec::new();
    let mut finish_reason: Option<FinishReason> = None;
    assert(views(content@) =~= seq![]);
    if let Some(choice) = choices.pop() {
        assert(model.choices[0] == choice@);
        if let Some(reason) = choice.finish_reason {
            finish_reason = Some(FinishReason::from(reason));
        }
        content = delta_chunks(choice.delta, last_tool_name);
    }
    Ok(
        ProviderInferenceResponseChunk {
            content,
            usage,
            raw_response: raw_message,
            latency,
            finish_reason,
        },
    )
}

/// What happens while a stream is read.
pub enum CohereStreamEvent {
    /// The connection is open.
    Opened,
    /// The event source reports an error, in these words; where the server's
    /// answer could be read, it is `raw_response`.
    Failed { message: String, raw_response: Option<String> },
    /// A message has arrived.
    Message { data: String },
    /// The data of a message has been read as a chunk of an answer, or is none,
    /// for this reason. `latency` is the time since the request was sent.
    Parsed { data: String, parsed: Result<CohereChatChunk, String>, latency: Duration },
    /// The event source has ended.
    Ended,
}

/// The model of [`CohereStreamEvent`].
pub enum CohereStreamEventView {
    Opened,
    Failed { message: Seq<char>, raw_response: Option<Seq<char>> },
    Message { data: Seq<char> },
    Parsed {
        data: Seq<char>,
        parsed: Result<CohereChatChunkView, Seq<char>>,
        latency: Duration,
    },
    Ended,
}

impl View for CohereStreamEvent {
    type V = CohereStreamEventView;

    open spec fn view(&self) -> CohereStreamEventView {
        match self {
            CohereStreamEvent::Opened => CohereStreamEventView::Opened,
            CohereStreamEvent::Failed { message, raw_response } => CohereStreamEventView::Failed {
                message: message@,
                raw_response: opt_view(*raw_response),
            },
            CohereStreamEvent::Message { data } => CohereStreamEventView::Message { data: data@ },
            CohereStreamEvent::Parsed { data, parsed, latency } => CohereStreamEventView::Parsed {
                data: data@,
                parsed: match parsed {
                    Ok(chunk) => Ok(chunk@),
                    Err(reason) => Err(reason@),
                },
                latency: *latency,
            },
            CohereStreamEvent::Ended => CohereStreamEventView::Ended,
        }
    }
}

/// What to do next while a stream is read.
pub enum CohereStreamAction {
    /// Wait for the next event.
    Wait,
    /// Read `data` as a chunk, and report it as [`CohereStreamEvent::Parsed`].
    Parse { data: String },
    /// Hand this to whoever reads the answer, and wait for the next event.
    Yield(Result<ProviderInferenceResponseChunk, Error>),
    /// Close the event source: the answer is complete.
    Close,
}

/// The model of [`CohereStreamAction`].
pub enum CohereStreamActionView {
    Wait,
    Parse { data: Seq<char> },
    Yield(Result<ProviderInferenceResponseChunkView, ErrorView>),
    Close,
}

impl View for CohereStreamAction {
    type V = CohereStreamActionView;

    open spec fn view(&self) -> CohereStreamActionView {
        match self {
            CohereStreamAction::Wait => CohereStreamActionView::Wait,
            CohereStreamAction::Parse { data } => CohereStreamActionView::Parse { data: data@ },
            CohereStreamAction::Yield(r) => CohereStreamActionView::Yield(chunk_outcome(*r)),
            CohereStreamAction::Close => CohereStreamActionView::Close,
        }
    }
}

/// The error for an event source that failed.
pub open spec fn stream_error_of(message: Seq<char>, raw_response: Option<Seq<char>>) -> ErrorView {
    ErrorView::InferenceServer {
        message,
        provider_type: PROVIDER_TYPE@,
        raw_request: None,
        raw_response,
    }
}

/// The error for a message that is no chunk.
pub open spec fn parse_error_of(reason: Seq<char>, data: Seq<char>) -> ErrorView {
    ErrorView::InferenceServer {
        message: "Error parsing chunk. Error: "@ + reason + ", Data: "@ + data,
        provider_type: PROVIDER_TYPE@,
        raw_request: None,
        raw_response: None,
    }
}

/// What a message that has been read brings. No tool call comes before its first.
pub open spec fn message_outcome(
    data: Seq<char>,
    parsed: Result<CohereChatChunkView, Seq<char>>,
    latency: Duration,
) -> Result<ProviderInferenceResponseChunkView, ErrorView> {
    match parsed {
        Ok(chunk) => chunk_of(data, chunk, latency, None),
        Err(reason) => Err(parse_error_of(reason, data)),
    }
}

/// The data of the message that ends an answer.
pub open spec fn is_done(data: Seq<char>) -> bool {
    data == "[DONE]"@
}

/// What to do on an event. An error is handed on and does not end the stream.
pub open spec fn action_on(event: CohereStreamEventView) -> CohereStreamActionView {
    match event {
        CohereStreamEventView::Opened => CohereStreamActionView::Wait,
        CohereStreamEventView::Failed { message, raw_response } => CohereStreamActionView::Yield(
            Err(stream_error_of(message, raw_response)),
        ),
        CohereStreamEventView::Message { data } => if is_done(data) {
            CohereStreamActionView::Close
        } else {
            CohereStreamActionView::Parse { data }
        },
        CohereStreamEventView::Parsed { data, parsed, latency } => CohereStreamActionView::Yield(
            message_outcome(data, parsed, latency),
        ),
        CohereStreamEventView::Ended => CohereStreamActionView::Close,
    }
}

/// The error for an event source that failed with `message`.
pub fn convert_stream_error(message: String, raw_response: Option<String>) -> (error: Error)
    ensures
        error@ == stream_error_of(message@, opt_view(raw_response)),
{
    Error::new(
        ErrorDetails::InferenceServer {
            message,
            provider_type: PROVIDER_TYPE.to_string(),
            raw_request: None,
            raw_response,
        },
    )
}

/// The steps of reading a stream: what to do on `event`.
pub fn stream_cohere(event: CohereStreamEvent) -> (action: CohereStreamAction)
    ensures
        action@ == action_on(event@),
{
    match event {
        CohereStreamEvent::Opened => CohereStreamAction::Wait,
        CohereStreamEvent::Failed { message, raw_response } => CohereStreamAction::Yield(
            Err(convert_stream_error(message, raw_response)),
        ),
        CohereStreamEvent::Message { data } => if data == "[DONE]".to_string() {
            CohereStreamAction::Close
        } else {
            CohereStreamAction::Parse { data }
        },
        CohereStreamEvent::Parsed { data, parsed, latency } => match parsed {
            Ok(chunk) => {
                let mut last_tool_name: Option<String> = None;
                CohereStreamAction::Yield(
                    cohere_to_tensorzero_chunk(data, chunk, latency, &mut last_tool_name),
                )
            },
            Err(reason) => {
                let message = joined("Error parsing chunk. Error: ", reason.as_str());
                let message = message.concat(", Data: ").concat(data.as_str());
                CohereStreamAction::Yield(
                    Err(
                        Error::new(
                            ErrorDetails::InferenceServer {
                                message,
                                provider_type: PROVIDER_TYPE.to_string(),
                                raw_request: None,
                                raw_response: None,
                            },
                        ),
                    ),
                )
            },
        },
        CohereStreamEvent::Ended => CohereStreamAction::Close,
    }
}

/// The name of the tool call at `i` as a reader of the chunks knows it: the latest
/// that was reported, or else `last`.
pub open spec fn reported_name(
    chunks: Seq<ContentBlockChunkView>,
    last: Option<Seq<char>>,
    i: int,
) -> Option<Seq<char>>
    decreases i + 1,
{
    if i < 0 {
        last
    } else {
        match chunks[i] {
            ContentBlockChunkView::ToolCall(ToolCallChunkView { raw_name: Some(name), .. }) => Some(
                name,
            ),
            _ => reported_name(chunks, last, i - 1),
        }
    }
}

/// No name is lost by reporting only new ones: a reader who takes each name to hold
/// until the next one comes knows the name of every tool call.
pub proof fn law_names_are_recoverable(calls: Seq<ToolCallView>, last: Option<Seq<char>>, i: int)
    requires
        0 <= i < calls.len(),
    ensures
        reported_name(tool_chunks(calls, last), last, i) == Some(calls[i].name),
    decreases i,
{
    let chunks = tool_chunks(calls, last);
    assert(chunks[i] == tool_chunk(calls, last, i));
    if name_before(calls, last, i) == Some(calls[i].name) {
        if i > 0 {
            law_names_are_recoverable(calls, last, i - 1);
        } else {
            assert(reported_name(chunks, last, -1) == last);
        }
    }
}

/// The first tool call of a message reports its name, whatever came before it in
/// the stream, and no later call repeats the name of the one before it.
pub proof fn law_each_message_names_its_first_call(calls: Seq<ToolCallView>)
    requires
        calls.len() > 0,
    ensures
        tool_chunks(calls, None)[0] == ContentBlockChunkView::ToolCall(
            ToolCallChunkView {
                id: calls[0].id,
                raw_name: Some(calls[0].name),
                raw_arguments: calls[0].arguments,
            },
        ),
        forall|i: int|
            0 < i < calls.len() ==> ((#[trigger] tool_chunks(
                calls,
                None,
            )[i])->ToolCall_0.raw_name is None <==> calls[i].name == calls[i - 1].name),
{
}

/// What a message adds is its text, if it has any, and one chunk for each tool
/// call, with the call's id and arguments as they came.
pub proof fn law_chunks_keep_what_the_message_says(delta: CohereDeltaView, last: Option<Seq<char>>)
    ensures
        chunks_of(delta, last).len() == text_chunks(delta.content).len() + calls_of(delta).len(),
        forall|i: int|
            0 <= i < calls_of(delta).len() ==> {
                let chunk = #[trigger] chunks_of(delta, last)[text_chunks(delta.content).len() + i];
                &&& chunk is ToolCall
                &&& chunk->ToolCall_0.id == calls_of(delta)[i].id
                &&& chunk->ToolCall_0.raw_arguments == calls_of(delta)[i].arguments
            },
        forall|i: int|
            0 <= i < chunks_of(delta, last).len() && #[trigger] chunks_of(delta, last)[i] is Text
                ==> {
                &&& i == 0
                &&& delta.content == Some(chunks_of(delta, last)[i]->text)
                &&& chunks_of(delta, last)[i]->text.len() > 0
            },
{
}

/// What an event source brings, with what reading each message makes of it.
pub enum SourceEventView {
    Opened,
    Failed { message: Seq<char>, raw_response: Option<Seq<char>> },
    Message {
        data: Seq<char>,
        parsed: Result<CohereChatChunkView, Seq<char>>,
        latency: Duration,
    },
}

/// What an action hands to whoever reads the answer.
pub open spec fn handed_on(action: CohereStreamActionView) -> Seq<
    Result<ProviderInferenceResponseChunkView, ErrorView>,
> {
    match action {
        CohereStreamActionView::Yield(r) => seq![r],
        _ => seq![],
    }
}

/// Does this end the answer?
pub open spec fn closes(event: SourceEventView) -> bool {
    match event {
        SourceEventView::Message { data, .. } => action_on(CohereStreamEventView::Message { data })
            == CohereStreamActionView::Close,
        _ => false,
    }
}

/// What is handed on when `event` comes, where each step does what [`action_on`]
/// says.
pub open spec fn handed_on_at(event: SourceEventView) -> Seq<
    Result<ProviderInferenceResponseChunkView, ErrorView>,
> {
    match event {
        SourceEventView::Opened => handed_on(action_on(CohereStreamEventView::Opened)),
        SourceEventView::Failed { message, raw_response } => handed_on(
            action_on(CohereStreamEventView::Failed { message, raw_response }),
        ),
        SourceEventView::Message { data, parsed, latency } => match action_on(
            CohereStreamEventView::Message { data },
        ) {
            CohereStreamActionView::Parse { data } => handed_on(
                action_on(CohereStreamEventView::Parsed { data, parsed, latency }),
            ),
            action => handed_on(action),
        },
    }
}

/// Everything that is handed on while `events` come, one after the other, until one
/// ends the answer.
pub open spec fn emitted(events: Seq<SourceEventView>) -> Seq<
    Result<ProviderInferenceResponseChunkView, ErrorView>,
>
    decreases events.len(),
{
    if events.len() == 0 {
        seq![]
    } else if closes(events[0]) {
        handed_on_at(events[0])
    } else {
        handed_on_at(events[0]) + emitted(events.drop_first())
    }
}

/// Opening the connection hands nothing on, and neither does the message that ends
/// the answer; every other event hands on exactly one thing.
pub proof fn law_one_thing_for_each_event(event: SourceEventView)
    ensures
        closes(event) <==> (event matches SourceEventView::Message { data, .. } && is_done(data)),
        handed_on_at(event).len() == if event is Opened || closes(event) {
            0int
        } else {
            1int
        },
        event matches SourceEventView::Failed { message, raw_response } ==> handed_on_at(event)
            =~= seq![Err(stream_error_of(message, raw_response))],
        event matches SourceEventView::Message { data, parsed, latency } ==> (!is_done(data)
            ==> handed_on_at(event) =~= seq![message_outcome(data, parsed, latency)]),
{
}

/// Nothing is handed on once the message that ends the answer has come.
pub proof fn law_nothing_after_done(
    before: Seq<SourceEventView>,
    done: SourceEventView,
    after: Seq<SourceEventView>,
)
    requires
        done matches SourceEventView::Message { data, .. } && is_done(data),
    ensures
        emitted(before.push(done) + after) == emitted(before),
    decreases before.len(),
{
    let events = before.push(done) + after;
    if before.len() == 0 {
        assert(events[0] == done);
        assert(handed_on_at(done) =~= seq![]);
    } else {
        assert(events[0] == before[0]);
        assert(events.drop_first() =~= before.drop_first().push(done) + after);
        law_nothing_after_done(before.drop_first(), done, after);
    }
}

/// Until the answer ends, each part of a stream is read as if it were a stream of
/// its own: no event changes what a later one means.
pub proof fn law_events_are_independent(front: Seq<SourceEventView>, back: Seq<SourceEventView>)
    requires
        forall|i: int| 0 <= i < front.len() ==> !closes(#[trigger] front[i]),
    ensures
        emitted(front + back) == emitted(front) + emitted(back),
    decreases front.len(),
{
    if front.len() == 0 {
        assert(front + back =~= back);
        assert(emitted(front) + emitted(back) =~= emitted(back));
    } else {
        assert((front + back)[0] == front[0]);
        assert((front + back).drop_first() =~= front.drop_first() + back);
        assert forall|i: int| 0 <= i < front.drop_first().len() implies !closes(
            #[trigger] front.drop_first()[i],
        ) by {
            assert(front.drop_first()[i] == front[i + 1]);
        }
        law_events_are_independent(front.drop_first(), back);
        assert(emitted(front + back) =~= emitted(front) + emitted(back));
    }
}

/// A message of a stream that says what a whole answer says brings the same blocks,
/// in the same order: the same text, and for each tool call its id, its arguments,
/// and, unless it is the name of the call before, its name.
pub proof fn law_streams_agree_with_whole_answers(
    message: CohereResponseMessageView,
    delta: CohereDeltaView,
)
    requires
        delta.content == message.content,
        delta.tool_calls == message.tool_calls,
    ensures
        chunks_of(delta, None).len() == output_of(message).len(),
        forall|i: int|
            0 <= i < output_of(message).len() ==> match #[trigger] output_of(message)[i] {
                ContentBlockOutputView::Text(text) => chunks_of(delta, None)[i] == (
                ContentBlockChunkView::Text { id: "0"@, text }),
                ContentBlockOutputView::ToolCall(call) => chunks_of(
                    delta,
                    None,
                )[i] matches ContentBlockChunkView::ToolCall(chunk) && chunk.id == call.id
                    && chunk.raw_arguments == call.arguments && chunk.raw_name == if i > 0
                    && output_of(message)[i - 1] is ToolCall
                    && output_of(message)[i - 1]->ToolCall_0.name == call.name {
                    None
                } else {
                    Some(call.name)
                },
            },
{
}

/// Everything that a message of a stream says is handed on, whatever its finish reason
/// and its usage are: its text first, if there is one and it is not empty, and then a
/// chunk for each of its tool calls, in their order, with the call's id and arguments,
/// and with its name unless that is the name of the call before.
pub proof fn law_nothing_of_a_message_is_lost(
    raw_message: Seq<char>,
    chunk: CohereChatChunkView,
    latency: Duration,
    last: Option<Seq<char>>,
)
    requires
        chunk.choices.len() == 1,
    ensures
        chunk_of(raw_message, chunk, latency, last) matches Ok(made) && {
            let delta = chunk.choices[0].delta;
            let texts: int = if delta.content is Some && delta.content->0.len() > 0 {
                1
            } else {
                0
            };
            let calls = if delta.tool_calls is Some {
                delta.tool_calls->0
            } else {
                Seq::empty()
            };
            &&& made.content.len() == texts + calls.len()
            &&& texts == 1 ==> made.content[0] == (ContentBlockChunkView::Text {
                id: "0"@,
                text: delta.content->0,
            })
            &&& forall|i: int|
                0 <= i < calls.len() ==> {
                    let call = #[trigger] calls[i];
                    let before = if i == 0 {
                        last
                    } else {
                        Some(calls[i - 1].name)
                    };
                    &&& made.content[texts + i] is ToolCall
                    &&& made.content[texts + i]->ToolCall_0.id == call.id
                    &&& made.content[texts + i]->ToolCall_0.raw_arguments == call.arguments
                    &&& made.content[texts + i]->ToolCall_0.raw_name == if before == Some(
                        call.name,
                    ) {
                        None
                    } else {
                        Some(call.name)
                    }
                }
        },
{
}

/// A message of a stream says why the model stopped, if it did, and how many tokens it
/// took, if that is known; it keeps its raw text and its latency. Without a choice it
/// has nothing else to say.
pub proof fn law_a_message_says_how_it_came_about(
    raw_message: Seq<char>,
    chunk: CohereChatChunkView,
    latency: Duration,
    last: Option<Seq<char>>,
)
    requires
        chunk.choices.len() <= 1,
    ensures
        chunk_of(raw_message, chunk, latency, last) matches Ok(made) && {
            &&& made.raw_response == raw_message
            &&& made.latency == latency
            &&& made.usage is Some <==> chunk.usage is Some
            &&& made.usage is Some ==> made.usage->0.input_tokens == chunk.usage->0.prompt_tokens
                && made.usage->0.output_tokens == chunk.usage->0.completion_tokens
            &&& chunk.choices.len() == 0 ==> made.content.len() == 0 && made.finish_reason is None
            &&& chunk.choices.len() == 1 ==> {
                let reason = chunk.choices[0].finish_reason;
                &&& made.finish_reason is Some <==> reason is Some
                &&& reason is Some ==> {
                    &&& made.finish_reason->0 is Stop <==> reason->0 is Stop
                    &&& made.finish_reason->0 is Length <==> reason->0 is Length
                        || reason->0 is ModelLength
                    &&& made.finish_reason->0 is ToolCall <==> reason->0 is ToolCalls
                    &&& made.finish_reason->0 is Unknown <==> reason->0 is Error
                        || reason->0 is Unknown
                }
            }
        },
{
}

/// A message with several choices is the server's error, which gives the message.
pub proof fn law_several_choices_are_reported(
    raw_message: Seq<char>,
    chunk: CohereChatChunkView,
    latency: Duration,
    last: Option<Seq<char>>,
)
    requires
        chunk.choices.len() > 1,
    ensures
        chunk_of(raw_message, chunk, latency, last) matches Err(error) && error == (
        ErrorView::InferenceServer {
            message: "Response has invalid number of choices: {}. Expected 1."@,
            provider_type: "cohere"@,
            raw_request: None,
            raw_response: Some(raw_message),
        }),
{
}

/// The name that is kept is that of the latest tool call: a message without tool calls,
/// or that is an error, leaves it as it was.
pub proof fn law_the_latest_name_is_kept(chunk: CohereChatChunkView, last: Option<Seq<char>>)
    ensures
        chunk.choices.len() != 1 ==> name_after(chunk, last) == last,
        chunk.choices.len() == 1 ==> {
            let calls = chunk.choices[0].delta.tool_calls;
            name_after(chunk, last) == if calls is Some && calls->0.len() > 0 {
                Some(calls->0.last().name)
            } else {
                last
            }
        },
{
}

/// Two messages in a row, the second read with the name that the first left behind,
/// bring the tool calls that one message with the calls of both would bring.
pub proof fn law_messages_may_be_parted(
    whole: CohereChatChunkView,
    n: int,
    raw_message: Seq<char>,
    latency: Duration,
    last: Option<Seq<char>>,
)
    requires
        whole.choices.len() == 1,
        whole.choices[0].delta.content is None,
        whole.choices[0].delta.tool_calls is Some,
        0 <= n <= whole.choices[0].delta.tool_calls->0.len(),
    ensures
        ({
            let calls = whole.choices[0].delta.tool_calls->0;
            let front = CohereChatChunkView {
                choices: seq![
                    CohereChatChunkChoiceView {
                        delta: CohereDeltaView { content: None, tool_calls: Some(calls.take(n)) },
                        ..whole.choices[0]
                    },
                ],
                ..whole
            };
            let back = CohereChatChunkView {
                choices: seq![
                    CohereChatChunkChoiceView {
                        delta: CohereDeltaView { content: None, tool_calls: Some(calls.skip(n)) },
                        ..whole.choices[0]
                    },
                ],
                ..whole
            };
            let between = name_after(front, last);
            &&& chunk_of(raw_message, whole, latency, last)->Ok_0.content == chunk_of(
                raw_message,
                front,
                latency,
                last,
            )->Ok_0.content + chunk_of(raw_message, back, latency, between)->Ok_0.content
            &&& name_after(whole, last) == name_after(back, between)
        }),
{
    let calls = whole.choices[0].delta.tool_calls->0;
    let between = name_before(calls.take(n), last, n);
    assert(text_chunks(None) =~= seq![]);
    assert(tool_chunks(calls, last) =~= tool_chunks(calls.take(n), last) + tool_chunks(
        calls.skip(n),
        between,
    ));
}

/// The steps of reading a stream: errors and what messages bring are handed on, and the
/// answer ends with its last message or with its source, and not before.
pub proof fn law_steps_of_a_stream(event: CohereStreamEventView)
    ensures
        event is Opened ==> action_on(event) is Wait,
        event is Ended ==> action_on(event) is Close,
        event matches CohereStreamEventView::Failed { message, raw_response } ==> action_on(event)
            == CohereStreamActionView::Yield(
            Err(
                ErrorView::InferenceServer {
                    message,
                    provider_type: "cohere"@,
                    raw_request: None,
                    raw_response,
                },
            ),
        ),
        event matches CohereStreamEventView::Message { data } ==> action_on(event) == if data
            == "[DONE]"@ {
            CohereStreamActionView::Close
        } else {
            CohereStreamActionView::Parse { data }
        },
        event matches CohereStreamEventView::Parsed { data, parsed, latency } ==> action_on(event)
            == CohereStreamActionView::Yield(
            match parsed {
                Ok(chunk) => chunk_of(data, chunk, latency, None),
                Err(reason) => Err(
                    ErrorView::InferenceServer {
                        message: "Error parsing chunk. Error: "@ + reason + ", Data: "@ + data,
                        provider_type: "cohere"@,
                        raw_request: None,
                        raw_response: None,
                    },
                ),
            },
        ),
{
}

/// An event source that fails is the server's error, in the source's words.
pub proof fn law_failures_are_reported_as_they_are(
    message: Seq<char>,
    raw_response: Option<Seq<char>>,
)
    ensures
        stream_error_of(message, raw_response) == (ErrorView::InferenceServer {
            message,
            provider_type: "cohere"@,
            raw_request: None,
            raw_response,
        }),
{
}

/// Every part of a message of a stream is seen as it is.
pub proof fn law_messages_of_a_stream_are_seen_whole(
    call: CohereToolCallChunk,
    delta: CohereDelta,
    choice: CohereChatChunkChoice,
    chunk: CohereChatChunk,
    r: Result<ProviderInferenceResponseChunk, Error>,
)
    ensures
        call@.id == call.id@,
        call@.name == call.function.name@,
        call@.arguments == call.function.arguments@,
        delta@.content == opt_view(delta.content),
        delta@.tool_calls == opt_views(delta.tool_calls),
        choice@.delta == choice.delta@,
        choice@.finish_reason == choice.finish_reason,
        chunk@.choices == views(chunk.choices@),
        chunk@.usage == chunk.usage,
        r matches Ok(made) ==> chunk_outcome(r) == Ok::<
            ProviderInferenceResponseChunkView,
            ErrorView,
        >(made@),
        r matches Err(error) ==> chunk_outcome(r) == Err::<
            ProviderInferenceResponseChunkView,
            ErrorView,
        >(error@),
{
}

/// Every part of an event, and of what to do on it, is seen as it is.
pub proof fn law_events_are_seen_whole(event: CohereStreamEvent, action: CohereStreamAction)
    ensures
        event is Opened <==> event@ is Opened,
        event is Ended <==> event@ is Ended,
        event matches CohereStreamEvent::Failed { message, raw_response } ==> event@ == (
        CohereStreamEventView::Failed {
            message: message@,
            raw_response: opt_view(raw_response),
        }),
        event matches CohereStreamEvent::Message { data } ==> event@ == (
        CohereStreamEventView::Message { data: data@ }),
        event matches CohereStreamEvent::Parsed { data, parsed, latency } ==> event@ == (
        CohereStreamEventView::Parsed {
            data: data@,
            parsed: match parsed {
                Ok(chunk) => Ok(chunk@),
                Err(reason) => Err(reason@),
            },
            latency,
        }),
        action is Wait <==> action@ is Wait,
        action is Close <==> action@ is Close,
        action matches CohereStreamAction::Parse { data } ==> action@ == (
        CohereStreamActionView::Parse { data: data@ }),
        action matches CohereStreamAction::Yield(r) ==> action@ == CohereStreamActionView::Yield(
            chunk_outcome(r),
        ),
{
}

} // verus!
