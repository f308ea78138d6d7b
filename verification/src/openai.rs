//! The message and tool formats that Cohere's chat API shares with OpenAI's, and
//! the way from the gateway's messages to them.

use vstd::prelude::*;

use crate::error::{Error, ErrorDetails, ErrorView};
use crate::inference::{
    ContentBlock, ContentBlockView, RequestMessage, RequestMessageView, Role,
};
use crate::text::{lemma_views_push, opt_view, opt_views, views};
use crate::tool::{ToolCallView, ToolConfig, ToolConfigView};

verus! {

/// What a tool is.
#[derive(Clone, Copy, Debug, PartialEq, Eq, Structural)]
pub enum OpenAIToolType {
    Function,
}

/// A function that the model may call.
#[derive(Debug, PartialEq)]
pub struct OpenAIFunction<'a> {
    pub name: &'a str,
    pub description: Option<&'a str>,
    pub parameters: &'a serde_json::Value,
}

/// The model of [`OpenAIFunction`].
pub struct OpenAIFunctionView {
    pub name: Seq<char>,
    pub description: Option<Seq<char>>,
    pub parameters: serde_json::Value,
}

impl<'a> View for OpenAIFunction<'a> {
    type V = OpenAIFunctionView;

    open spec fn view(&self) -> OpenAIFunctionView {
        OpenAIFunctionView {
            name: self.name@,
            description: opt_view(self.description),
            parameters: *self.parameters,
        }
    }
}

/// A tool that the model may call.
#[derive(Debug, PartialEq)]
pub struct OpenAITool<'a> {
    pub tool_type: OpenAIToolType,
    pub function: OpenAIFunction<'a>,
    pub strict: bool,
}

/// The function that a tool is offered as.
pub open spec fn function_of(tool: ToolConfigView) -> OpenAIFunctionView {
    OpenAIFunctionView {
        name: tool.name,
        description: Some(tool.description),
        parameters: tool.parameters,
    }
}

impl<'a> From<&'a ToolConfig> for OpenAITool<'a> {
    fn from(tool: &'a ToolConfig) -> (r: Self)
        ensures
            r.tool_type == OpenAIToolType::Function,
            r.function@ == function_of(tool@),
            r.strict == tool@.strict,
    {
        OpenAITool {
            tool_type: OpenAIToolType::Function,
            function: OpenAIFunction {
                name: tool.name(),
                description: Some(tool.description()),
                parameters: tool.parameters(),
            },
            strict: tool.strict(),
        }
    }
}

impl<'a> vstd::std_specs::convert::FromSpecImpl<&'a ToolConfig> for OpenAITool<'a> {
    /// What `from` returns is said of its view, in its own contract.
    open spec fn obeys_from_spec() -> bool {
        false
    }

    open spec fn from_spec(tool: &'a ToolConfig) -> Self {
        arbitrary()
    }
}

/// A block of a message.
#[derive(Debug, PartialEq, Eq)]
pub enum OpenAIContentBlock<'a> {
    Text { text: &'a str },
}

impl<'a> View for OpenAIContentBlock<'a> {
    type V = Seq<char>;

    open spec fn view(&self) -> Seq<char> {
        match self {
            OpenAIContentBlock::Text { text } => text@,
        }
    }
}

/// The function that a tool call names, and its arguments.
#[derive(Debug, PartialEq, Eq)]
pub struct OpenAIRequestFunctionCall<'a> {
    pub name: &'a str,
    pub arguments: &'a str,
}

/// A tool call that the model made before.
#[derive(Debug, PartialEq, Eq)]
pub struct OpenAIRequestToolCall<'a> {
    pub id: &'a str,
    pub tool_type: OpenAIToolType,
    pub function: OpenAIRequestFunctionCall<'a>,
}

impl<'a> View for OpenAIRequestToolCall<'a> {
    type V = ToolCallView;

    open spec fn view(&self) -> ToolCallView {
        ToolCallView {
            id: self.id@,
            name: self.function.name@,
            arguments: self.function.arguments@,
        }
    }
}

/// The instructions to the model.
#[derive(Debug, PartialEq, Eq)]
pub struct OpenAISystemRequestMessage<'a> {
    pub content: &'a str,
}

/// A message of the user.
#[derive(Debug, PartialEq, Eq)]
pub struct OpenAIUserRequestMessage<'a> {
    pub content: Vec<OpenAIContentBlock<'a>>,
}

/// A message of the model.
#[derive(Debug, PartialEq, Eq)]
pub struct OpenAIAssistantRequestMessage<'a> {
    pub content: Option<Vec<OpenAIContentBlock<'a>>>,
    pub tool_calls: Option<Vec<OpenAIRequestToolCall<'a>>>,
}

/// The result of a tool call.
#[derive(Debug, PartialEq, Eq)]
pub struct OpenAIToolRequestMessage<'a> {
    pub content: &'a str,
    pub tool_call_id: &'a str,
}

/// A message of the conversation, as the API takes it.
#[derive(Debug, PartialEq, Eq)]
pub enum OpenAIRequestMessage<'a> {
    System(OpenAISystemRequestMessage<'a>),
    User(OpenAIUserRequestMessage<'a>),
    Assistant(OpenAIAssistantRequestMessage<'a>),
    Tool(OpenAIToolRequestMessage<'a>),
}

/// The model of [`OpenAIRequestMessage`].
pub enum OpenAIRequestMessageView {
    System { content: Seq<char> },
    User { blocks: Seq<Seq<char>> },
    Assistant { texts: Option<Seq<Seq<char>>>, tool_calls: Option<Seq<ToolCallView>> },
    Tool { content: Seq<char>, tool_call_id: Seq<char> },
}

impl<'a> View for OpenAIRequestMessage<'a> {
    type V = OpenAIRequestMessageView;

    open spec fn view(&self) -> OpenAIRequestMessageView {
        match self {
            OpenAIRequestMessage::System(message) => OpenAIRequestMessageView::System {
                content: message.content@,
            },
            OpenAIRequestMessage::User(message) => OpenAIRequestMessageView::User {
                blocks: views(message.content@),
            },
            OpenAIRequestMessage::Assistant(message) => OpenAIRequestMessageView::Assistant {
                texts: opt_views(message.content),
                tool_calls: opt_views(message.tool_calls),
            },
            OpenAIRequestMessage::Tool(message) => OpenAIRequestMessageView::Tool {
                content: message.content@,
                tool_call_id: message.tool_call_id@,
            },
        }
    }
}

/// The text of a block that is text.
pub open spec fn as_text(block: ContentBlockView) -> Option<Seq<char>> {
    match block {
        ContentBlockView::Text(text) => Some(text),
        _ => None,
    }
}

/// The tool call of a block that is one.
pub open spec fn as_call(block: ContentBlockView) -> Option<ToolCallView> {
    match block {
        ContentBlockView::ToolCall(call) => Some(call),
        _ => None,
    }
}

/// The message for a block that is the result of a tool call.
pub open spec fn as_tool_message(block: ContentBlockView) -> Option<OpenAIRequestMessageView> {
    match block {
        ContentBlockView::ToolResult(result) => Some(
            OpenAIRequestMessageView::Tool { content: result.result, tool_call_id: result.id },
        ),
        _ => None,
    }
}

/// The texts among `blocks`, in their order.
pub open spec fn texts_in(blocks: Seq<ContentBlockView>) -> Seq<Seq<char>> {
    blocks.filter_map(|block: ContentBlockView| as_text(block))
}

/// The tool calls among `blocks`, in their order.
pub open spec fn calls_in(blocks: Seq<ContentBlockView>) -> Seq<ToolCallView> {
    blocks.filter_map(|block: ContentBlockView| as_call(block))
}

/// The messages for the results of tool calls among `blocks`, in their order.
pub open spec fn tool_messages_in(blocks: Seq<ContentBlockView>) -> Seq<OpenAIRequestMessageView> {
    blocks.filter_map(|block: ContentBlockView| as_tool_message(block))
}

/// Nothing for an empty list, else the list.
pub open spec fn some_unless_empty<T>(items: Seq<T>) -> Option<Seq<T>> {
    if items.len() == 0 {
        None
    } else {
        Some(items)
    }
}

/// A user's message becomes one message for each result of a tool call, and then
/// one message with all its texts, if it has any. It must not hold a tool call.
pub open spec fn user_messages_of(blocks: Seq<ContentBlockView>) -> Result<
    Seq<OpenAIRequestMessageView>,
    ErrorView,
> {
    if exists|i: int| 0 <= i < blocks.len() && #[trigger] blocks[i] is ToolCall {
        Err(
            ErrorView::InvalidMessage { message: "Tool calls are not supported in user messages"@ },
        )
    } else if texts_in(blocks).len() == 0 {
        Ok(tool_messages_in(blocks))
    } else {
        Ok(
            tool_messages_in(blocks).push(
                OpenAIRequestMessageView::User { blocks: texts_in(blocks) },
            ),
        )
    }
}

/// A message of the model becomes one message with its texts and its tool calls;
/// with neither, it becomes none. It must not hold the result of a tool call.
pub open spec fn assistant_messages_of(blocks: Seq<ContentBlockView>) -> Result<
    Seq<OpenAIRequestMessageView>,
    ErrorView,
> {
    if exists|i: int| 0 <= i < blocks.len() && #[trigger] blocks[i] is ToolResult {
        Err(
            ErrorView::InvalidMessage {
                message: "Tool results are not supported in assistant messages"@,
            },
        )
    } else if texts_in(blocks).len() == 0 && calls_in(blocks).len() == 0 {
        Ok(seq![])
    } else {
        Ok(
            seq![
                OpenAIRequestMessageView::Assistant {
                    texts: some_unless_empty(texts_in(blocks)),
                    tool_calls: some_unless_empty(calls_in(blocks)),
                },
            ],
        )
    }
}

/// What a message of the conversation becomes.
pub open spec fn messages_of(message: RequestMessageView) -> Result<
    Seq<OpenAIRequestMessageView>,
    ErrorView,
> {
    match message.role {
        Role::User => user_messages_of(message.content),
        Role::Assistant => assistant_messages_of(message.content),
    }
}

/// The views of messages or of an error.
pub open spec fn messages_outcome<'a>(r: Result<Vec<OpenAIRequestMessage<'a>>, Error>) -> Result<
    Seq<OpenAIRequestMessageView>,
    ErrorView,
> {
    match r {
        Ok(messages) => Ok(views(messages@)),
        Err(error) => Err(error@),
    }
}

fn tensorzero_to_openai_user_messages<'a>(blocks: &'a Vec<ContentBlock>) -> (r: Result<
    Vec<OpenAIRequestMessage<'a>>,
    Error,
>)
    ensures
        messages_outcome(r) == user_messages_of(views(blocks@)),
{
    let ghost seen = views(blocks@);
    let mut messages: Vec<OpenAIRequestMessage<'a>> = Vec::new();
    let mut texts: Vec<OpenAIContentBlock<'a>> = Vec::new();
    assert(seen.take(0) =~= seq![]);
    assert(views(messages@) =~= tool_messages_in(seen.take(0)));
    assert(views(texts@) =~= texts_in(seen.take(0)));
    for n in 0..blocks.len()
        invariant
            seen == views(blocks@),
            views(messages@) == tool_messages_in(seen.take(n as int)),
            views(texts@) == texts_in(seen.take(n as int)),
            forall|i: int| 0 <= i < n ==> !(#[trigger] seen[i] is ToolCall),
    {
        let ghost messages_before = messages@;
        let ghost texts_before = texts@;
        assert(seen[n as int] == blocks@[n as int]@);
        proof {
            seen.lemma_filter_map_take_succ(
                |block: ContentBlockView| as_tool_message(block),
                n as int,
            );
            seen.lemma_filter_map_take_succ(|block: ContentBlockView| as_text(block), n as int);
        }
        match &blocks[n] {
            ContentBlock::Text(text) => {
                let block = OpenAIContentBlock::Text { text: text.text.as_str() };
                texts.push(block);
                proof {
                    lemma_views_push(texts_before, block);
                }
            },
            ContentBlock::ToolCall(_) => {
                return Err(
                    Error::new(
                        ErrorDetails::InvalidMessage {
                            message: "Tool calls are not supported in user messages".to_string(),
                        },
                    ),
                );
            },
            ContentBlock::ToolResult(result) => {
                let message = OpenAIRequestMessage::Tool(
                    OpenAIToolRequestMessage {
                        content: result.result.as_str(),
                        tool_call_id: result.id.as_str(),
                    },
                );
                messages.push(message);
                proof {
                    lemma_views_push(messages_before, message);
                }
            },
        }
        assert(views(messages@) =~= tool_messages_in(seen.take(n + 1)));
        assert(views(texts@) =~= texts_in(seen.take(n + 1)));
    }
    assert(seen.take(blocks.len() as int) =~= seen);
    if texts.len() > 0 {
        let ghost messages_before = messages@;
        let message = OpenAIRequestMessage::User(OpenAIUserRequestMessage { content: texts });
        messages.push(message);
        proof {
            lemma_views_push(messages_before, message);
        }
    }
    Ok(messages)
}

fn tensorzero_to_openai_assistant_messages<'a>(blocks: &'a Vec<ContentBlock>) -> (r: Result<
    Vec<OpenAIRequestMessage<'a>>,
    Error,
>)
    ensures
        messages_outcome(r) == assistant_messages_of(views(blocks@)),
{
    let ghost seen = views(blocks@);
    let mut texts: Vec<OpenAIContentBlock<'a>> = Vec::new();
    let mut calls: Vec<OpenAIRequestToolCall<'a>> = Vec::new();
    assert(seen.take(0) =~= seq![]);
    assert(views(texts@) =~= texts_in(seen.take(0)));
    assert(views(calls@) =~= calls_in(seen.take(0)));
    for n in 0..blocks.len()
        invariant
            seen == views(blocks@),
            views(texts@) == texts_in(seen.take(n as int)),
            views(calls@) == calls_in(seen.take(n as int)),
            forall|i: int| 0 <= i < n ==> !(#[trigger] seen[i] is ToolResult),
    {
        let ghost texts_before = texts@;
        let ghost calls_before = calls@;
        assert(seen[n as int] == blocks@[n as int]@);
        proof {
            seen.lemma_filter_map_take_succ(|block: ContentBlockView| as_text(block), n as int);
            seen.lemma_filter_map_take_succ(|block: ContentBlockView| as_call(block), n as int);
        }
        match &blocks[n] {
            ContentBlock::Text(text) => {
                let block = OpenAIContentBlock::Text { text: text.text.as_str() };
                texts.push(block);
                proof {
                    lemma_views_push(texts_before, block);
                }
            },
            ContentBlock::ToolCall(call) => {
                let call = OpenAIRequestToolCall {
                    id: call.id.as_str(),
                    tool_type: OpenAIToolType::Function,
                    function: OpenAIRequestFunctionCall {
                        name: call.name.as_str(),
                        arguments: call.arguments.as_str(),
                    },
                };
                calls.push(call);
                proof {
                    lemma_views_push(calls_before, call);
                }
            },
            ContentBlock::ToolResult(_) => {
                return Err(
                    Error::new(
                        ErrorDetails::InvalidMessage {
                            message:
                                "Tool results are not supported in assistant messages".to_string(),
                        },
                    ),
                );
            },
        }
        assert(views(texts@) =~= texts_in(seen.take(n + 1)));
        assert(views(calls@) =~= calls_in(seen.take(n + 1)));
    }
    assert(seen.take(blocks.len() as int) =~= seen);
    let mut messages: Vec<OpenAIRequestMessage<'a>> = Vec::new();
    if texts.len() > 0 || calls.len() > 0 {
        let content = if texts.len() > 0 {
            Some(texts)
        } else {
            None
        };
        let tool_calls = if calls.len() > 0 {
            Some(calls)
        } else {
            None
        };
        messages.push(
            OpenAIRequestMessage::Assistant(OpenAIAssistantRequestMessage { content, tool_calls }),
        );
    }
    assert(messages_outcome(Ok(messages))->Ok_0 =~= assistant_messages_of(seen)->Ok_0);
    Ok(messages)
}

/// What `message` becomes, as the API takes it.
pub fn tensorzero_to_openai_messages<'a>(message: &'a RequestMessage) -> (r: Result<
    Vec<OpenAIRequestMessage<'a>>,
    Error,
>)
    ensures
        messages_outcome(r) == messages_of(message@),
{
    match message.role {
        Role::User => tensorzero_to_openai_user_messages(&message.content),
        Role::Assistant => tensorzero_to_openai_assistant_messages(&message.content),
    }
}

/// To pick items and turn each into something is to pick them first and turn them
/// after.
proof fn lemma_pick_then_turn<A, B>(
    items: Seq<A>,
    pick: spec_fn(A) -> Option<B>,
    chosen: spec_fn(A) -> bool,
    turn: spec_fn(A) -> B,
)
    requires
        forall|item: A|
            #[trigger] pick(item) == if chosen(item) {
                Some(turn(item))
            } else {
                None
            },
    ensures
        items.filter_map(pick) == items.filter(chosen).map_values(turn),
    decreases items.len(),
{
    reveal(Seq::filter);
    if items.len() > 0 {
        lemma_pick_then_turn(items.drop_last(), pick, chosen, turn);
        assert(pick(items.last()) == if chosen(items.last()) {
            Some(turn(items.last()))
        } else {
            None
        });
    }
    assert(items.filter_map(pick) =~= items.filter(chosen).map_values(turn));
}

proof fn lemma_picked_blocks(blocks: Seq<ContentBlockView>)
    ensures
        texts_in(blocks) == blocks.filter(|block: ContentBlockView| block is Text).map_values(
            |block: ContentBlockView| block->Text_0,
        ),
        calls_in(blocks) == blocks.filter(|block: ContentBlockView| block is ToolCall).map_values(
            |block: ContentBlockView| block->ToolCall_0,
        ),
        tool_messages_in(blocks) == blocks.filter(
            |block: ContentBlockView| block is ToolResult,
        ).map_values(
            |block: ContentBlockView|
                OpenAIRequestMessageView::Tool {
                    content: block->ToolResult_0.result,
                    tool_call_id: block->ToolResult_0.id,
                },
        ),
{
    lemma_pick_then_turn(
        blocks,
        |block: ContentBlockView| as_text(block),
        |block: ContentBlockView| block is Text,
        |block: ContentBlockView| block->Text_0,
    );
    lemma_pick_then_turn(
        blocks,
        |block: ContentBlockView| as_call(block),
        |block: ContentBlockView| block is ToolCall,
        |block: ContentBlockView| block->ToolCall_0,
    );
    lemma_pick_then_turn(
        blocks,
        |block: ContentBlockView| as_tool_message(block),
        |block: ContentBlockView| block is ToolResult,
        |block: ContentBlockView|
            OpenAIRequestMessageView::Tool {
                content: block->ToolResult_0.result,
                tool_call_id: block->ToolResult_0.id,
            },
    );
}

/// A message is refused exactly if it holds a block that its writer cannot write, and
/// the error says which kind of block that is.
pub proof fn law_each_writer_has_its_blocks(blocks: Seq<ContentBlockView>)
    ensures
        messages_of(RequestMessageView { role: Role::User, content: blocks }) is Err <==> exists|
            i: int,
        |
            0 <= i < blocks.len() && #[trigger] blocks[i] is ToolCall,
        messages_of(RequestMessageView { role: Role::User, content: blocks }) matches Err(error)
            ==> error == (ErrorView::InvalidMessage {
            message: "Tool calls are not supported in user messages"@,
        }),
        messages_of(RequestMessageView { role: Role::Assistant, content: blocks }) is Err
            <==> exists|i: int| 0 <= i < blocks.len() && #[trigger] blocks[i] is ToolResult,
        messages_of(RequestMessageView { role: Role::Assistant, content: blocks }) matches Err(
            error,
        ) ==> error == (ErrorView::InvalidMessage {
            message: "Tool results are not supported in assistant messages"@,
        }),
{
}

/// Everything that a user's message says is sent on: one message for each of its tool
/// results, in their order, with the result and the id of its call, and then, if it
/// holds texts, one message with all of them, in their order.
pub proof fn law_what_the_user_says_is_sent_on(blocks: Seq<ContentBlockView>)
    requires
        forall|i: int| 0 <= i < blocks.len() ==> !(#[trigger] blocks[i] is ToolCall),
    ensures
        messages_of(RequestMessageView { role: Role::User, content: blocks }) matches Ok(sent) && {
            let results = blocks.filter(|block: ContentBlockView| block is ToolResult);
            let texts = blocks.filter(|block: ContentBlockView| block is Text);
            &&& sent.len() == results.len() + if texts.len() > 0 {
                1int
            } else {
                0int
            }
            &&& forall|i: int|
                0 <= i < results.len() ==> #[trigger] sent[i] == (OpenAIRequestMessageView::Tool {
                    content: results[i]->ToolResult_0.result,
                    tool_call_id: results[i]->ToolResult_0.id,
                })
            &&& texts.len() > 0 ==> {
                &&& sent.last() is User
                &&& sent.last()->blocks.len() == texts.len()
                &&& forall|i: int|
                    0 <= i < texts.len() ==> #[trigger] sent.last()->blocks[i] == texts[i]->Text_0
            }
        },
{
    lemma_picked_blocks(blocks);
}

/// Every tool result reaches the model: the one at `i` as the message whose place is
/// given by the number of tool results before it, whatever else the user's message
/// holds.
pub proof fn law_every_tool_result_is_sent(blocks: Seq<ContentBlockView>, i: int)
    requires
        forall|j: int| 0 <= j < blocks.len() ==> !(#[trigger] blocks[j] is ToolCall),
        0 <= i < blocks.len(),
        blocks[i] is ToolResult,
    ensures
        messages_of(RequestMessageView { role: Role::User, content: blocks }) matches Ok(sent) && {
            let place = blocks.take(i).filter(|block: ContentBlockView| block is ToolResult).len();
            &&& place < sent.len()
            &&& sent[place as int] == (OpenAIRequestMessageView::Tool {
                content: blocks[i]->ToolResult_0.result,
                tool_call_id: blocks[i]->ToolResult_0.id,
            })
        },
{
    let chosen = |block: ContentBlockView| block is ToolResult;
    let front = blocks.take(i);
    let back = blocks.skip(i + 1);
    lemma_picked_blocks(blocks);
    law_what_the_user_says_is_sent_on(blocks);
    assert(blocks =~= front.push(blocks[i]) + back);
    Seq::filter_distributes_over_add(front.push(blocks[i]), back, chosen);
    assert(front.push(blocks[i]).filter(chosen) =~= front.filter(chosen).push(blocks[i])) by {
        reveal(Seq::filter);
        assert(front.push(blocks[i]).drop_last() =~= front);
    }
    assert(blocks.filter(chosen)[front.filter(chosen).len() as int] == blocks[i]);
}

/// A user's message of nothing but tool results becomes exactly those, one message for
/// each.
pub proof fn law_tool_results_alone(blocks: Seq<ContentBlockView>)
    requires
        forall|i: int| 0 <= i < blocks.len() ==> #[trigger] blocks[i] is ToolResult,
    ensures
        messages_of(RequestMessageView { role: Role::User, content: blocks }) matches Ok(sent)
            && sent.len() == blocks.len() && forall|i: int|
            0 <= i < blocks.len() ==> #[trigger] sent[i] == (OpenAIRequestMessageView::Tool {
                content: blocks[i]->ToolResult_0.result,
                tool_call_id: blocks[i]->ToolResult_0.id,
            }),
{
    lemma_all_or_none(blocks, |block: ContentBlockView| block is ToolResult);
    lemma_all_or_none(blocks, |block: ContentBlockView| block is Text);
    law_what_the_user_says_is_sent_on(blocks);
}

/// To pick everything is to change nothing, and to pick nothing leaves nothing.
proof fn lemma_all_or_none<A>(items: Seq<A>, chosen: spec_fn(A) -> bool)
    ensures
        (forall|i: int| 0 <= i < items.len() ==> chosen(#[trigger] items[i])) ==> items.filter(
            chosen,
        ) == items,
        (forall|i: int| 0 <= i < items.len() ==> !chosen(#[trigger] items[i])) ==> items.filter(
            chosen,
        ).len() == 0,
    decreases items.len(),
{
    reveal(Seq::filter);
    if items.len() > 0 {
        let front = items.drop_last();
        lemma_all_or_none(front, chosen);
        assert(items.last() == items[items.len() - 1]);
        assert(forall|i: int| 0 <= i < front.len() ==> #[trigger] front[i] == items[i]);
        assert(front.push(items.last()) =~= items);
    }
}

/// Everything that the model said before is sent on in one message: all its texts and
/// all its tool calls, each in their order. Only where it said nothing is no message
/// sent.
pub proof fn law_what_the_model_said_is_sent_on(blocks: Seq<ContentBlockView>)
    requires
        forall|i: int| 0 <= i < blocks.len() ==> !(#[trigger] blocks[i] is ToolResult),
    ensures
        messages_of(RequestMessageView { role: Role::Assistant, content: blocks }) matches Ok(sent)
            && {
            let texts = blocks.filter(|block: ContentBlockView| block is Text);
            let calls = blocks.filter(|block: ContentBlockView| block is ToolCall);
            &&& sent.len() == if texts.len() + calls.len() > 0 {
                1int
            } else {
                0int
            }
            &&& sent.len() == 1 ==> {
                &&& sent[0] is Assistant
                &&& sent[0]->texts is Some <==> texts.len() > 0
                &&& sent[0]->tool_calls is Some <==> calls.len() > 0
                &&& texts.len() > 0 ==> {
                    &&& sent[0]->texts->0.len() == texts.len()
                    &&& forall|i: int|
                        0 <= i < texts.len() ==> #[trigger] sent[0]->texts->0[i] == texts[i]->Text_0
                }
                &&& calls.len() > 0 ==> {
                    &&& sent[0]->tool_calls->0.len() == calls.len()
                    &&& forall|i: int|
                        0 <= i < calls.len() ==> #[trigger] sent[0]->tool_calls->0[i]
                            == calls[i]->ToolCall_0
                }
            }
        },
{
    lemma_picked_blocks(blocks);
}

/// Every part of a message, as the API takes it, is seen as it is.
pub proof fn law_messages_are_seen_whole<'a>(
    block: OpenAIContentBlock<'a>,
    call: OpenAIRequestToolCall<'a>,
    message: OpenAIRequestMessage<'a>,
    function: OpenAIFunction<'a>,
)
    ensures
        block matches OpenAIContentBlock::Text { text } && block@ == text@,
        call@.id == call.id@,
        call@.name == call.function.name@,
        call@.arguments == call.function.arguments@,
        match message {
            OpenAIRequestMessage::System(system) => message@ == OpenAIRequestMessageView::System {
                content: system.content@,
            },
            OpenAIRequestMessage::User(user) => message@ == OpenAIRequestMessageView::User {
                blocks: views(user.content@),
            },
            OpenAIRequestMessage::Assistant(assistant) => message@
                == OpenAIRequestMessageView::Assistant {
                texts: opt_views(assistant.content),
                tool_calls: opt_views(assistant.tool_calls),
            },
            OpenAIRequestMessage::Tool(tool) => message@ == OpenAIRequestMessageView::Tool {
                content: tool.content@,
                tool_call_id: tool.tool_call_id@,
            },
        },
        function@.name == function.name@,
        function@.description == opt_view(function.description),
        function@.parameters == *function.parameters,
{
}

/// What comes of converting messages is seen as it is.
pub proof fn law_converted_messages_are_seen<'a>(r: Result<Vec<OpenAIRequestMessage<'a>>, Error>)
    ensures
        messages_outcome(r) is Ok <==> r is Ok,
        r matches Ok(messages) ==> messages_outcome(r) == Ok::<
            Seq<OpenAIRequestMessageView>,
            ErrorView,
        >(views(messages@)),
        r matches Err(error) ==> messages_outcome(r) == Err::<
            Seq<OpenAIRequestMessageView>,
            ErrorView,
        >(error@),
{
}

} // verus!
