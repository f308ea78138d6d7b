//! Requests to Cohere's v2 chat API, made from the gateway's requests.

use vstd::prelude::*;

use crate::error::{Error, ErrorDetails, ErrorView};
use crate::inference::{
    ContentBlockView, ModelInferenceRequest, ModelInferenceRequestJsonMode,
    ModelInferenceRequestView, RequestMessageView, Role,
};
use crate::openai::{
    as_tool_message, calls_in, function_of, messages_of, messages_outcome,
    tensorzero_to_openai_messages, texts_in, tool_messages_in, OpenAIFunction, OpenAIFunctionView,
    OpenAIRequestMessage, OpenAIRequestMessageView, OpenAISystemRequestMessage, OpenAITool,
    OpenAIToolType,
};
use crate::text::{lemma_take_next, lemma_views_push, opt_view, opt_views, views};
use crate::tool::{
    ToolCallConfigView, ToolCallView, ToolChoice, ToolChoiceView, ToolConfig, ToolConfigView,
};

verus! {

/// The format that the answer has to have.
#[derive(Clone, Copy, Debug, PartialEq, Eq, Structural)]
pub enum CohereResponseFormat {
    JsonObject,
    Text,
}

impl Default for CohereResponseFormat {
    fn default() -> (r: Self)
        ensures
            r == CohereResponseFormat::Text,
    {
        CohereResponseFormat::Text
    }
}

/// Which tools the model may or must call.
#[derive(Clone, Copy, Debug, PartialEq, Eq, Structural)]
pub enum CohereToolChoice {
    Auto,
    NoTool,
    Any,
}

/// A tool that the model may call.
#[derive(Debug, PartialEq)]
pub struct CohereTool<'a> {
    pub tool_type: OpenAIToolType,
    pub function: OpenAIFunction<'a>,
}

/// The model of [`CohereTool`].
pub struct CohereToolView {
    pub tool_type: OpenAIToolType,
    pub function: OpenAIFunctionView,
}

impl<'a> View for CohereTool<'a> {
    type V = CohereToolView;

    open spec fn view(&self) -> CohereToolView {
        CohereToolView { tool_type: self.tool_type, function: self.function@ }
    }
}

impl<'a> From<OpenAITool<'a>> for CohereTool<'a> {
    fn from(tool: OpenAITool<'a>) -> (r: Self)
        ensures
            r.tool_type == tool.tool_type,
            r.function == tool.function,
    {
        CohereTool { tool_type: tool.tool_type, function: tool.function }
    }
}

impl<'a> vstd::std_specs::convert::FromSpecImpl<OpenAITool<'a>> for CohereTool<'a> {
    open spec fn obeys_from_spec() -> bool {
        true
    }

    open spec fn from_spec(tool: OpenAITool<'a>) -> Self {
        CohereTool { tool_type: tool.tool_type, function: tool.function }
    }
}

/// What a tool is offered to Cohere as. Cohere has no strict tools.
pub open spec fn tool_of(tool: ToolConfigView) -> CohereToolView {
    CohereToolView { tool_type: OpenAIToolType::Function, function: function_of(tool) }
}

/// What tools are offered to Cohere as.
pub open spec fn tools_of(tools: Seq<ToolConfigView>) -> Seq<CohereToolView> {
    tools.map_values(|tool: ToolConfigView| tool_of(tool))
}

/// The names of `tools`.
pub open spec fn names_of(tools: Seq<ToolConfigView>) -> Seq<Seq<char>> {
    tools.map_values(|tool: ToolConfigView| tool.name)
}

/// What a request offers of its tools, and the choice it leaves. A choice of one
/// tool offers that tool alone, the first of its name, and leaves no choice but to
/// call it; the tool has to be there. Without tool calls, no tool is offered.
pub open spec fn tool_fields_of(config: Option<ToolCallConfigView>) -> Result<
    (Option<Seq<CohereToolView>>, Option<CohereToolChoice>),
    ErrorView,
> {
    match config {
        None => Ok((None, None)),
        Some(config) => match config.tool_choice {
            ToolChoiceView::NoTool => Ok((None, Some(CohereToolChoice::NoTool))),
            ToolChoiceView::Auto => Ok(
                (Some(tools_of(config.tools_available)), Some(CohereToolChoice::Auto)),
            ),
            ToolChoiceView::Required => Ok(
                (Some(tools_of(config.tools_available)), Some(CohereToolChoice::Any)),
            ),
            ToolChoiceView::Specific(name) => match names_of(
                config.tools_available,
            ).index_of_first(name) {
                Some(i) => Ok(
                    (
                        Some(seq![tool_of(config.tools_available[i])]),
                        Some(CohereToolChoice::Any),
                    ),
                ),
                None => Err(ErrorView::ToolNotFound { name }),
            },
        },
    }
}

/// The views of tools and choice, or of an error.
pub open spec fn tool_fields_outcome<'a>(
    r: Result<(Option<Vec<CohereTool<'a>>>, Option<CohereToolChoice>), Error>,
) -> Result<(Option<Seq<CohereToolView>>, Option<CohereToolChoice>), ErrorView> {
    match r {
        Ok(fields) => Ok((opt_views(fields.0), fields.1)),
        Err(error) => Err(error@),
    }
}

fn cohere_tool<'a>(tool: &'a ToolConfig) -> (r: CohereTool<'a>)
    ensures
        r@ == tool_of(tool@),
{
    CohereTool::from(OpenAITool::from(tool))
}

fn cohere_tools<'a>(tools: &'a Vec<ToolConfig>) -> (r: Vec<CohereTool<'a>>)
    ensures
        views(r@) == tools_of(views(tools@)),
{
    let ghost seen = views(tools@);
    let mut offered: Vec<CohereTool<'a>> = Vec::new();
    assert(views(offered@) =~= tools_of(seen).take(0));
    for n in 0..tools.len()
        invariant
            seen == views(tools@),
            views(offered@) == tools_of(seen).take(n as int),
    {
        let ghost before = offered@;
        let tool = cohere_tool(&tools[n]);
        offered.push(tool);
        proof {
            lemma_views_push(before, tool);
            lemma_take_next(tools_of(seen), n as int);
        }
    }
    assert(tools_of(seen).take(tools.len() as int) =~= tools_of(seen));
    offered
}

/// The first tool of this name.
fn find_tool<'a>(tools: &'a Vec<ToolConfig>, name: &String) -> (r: Option<&'a ToolConfig>)
    ensures
        match names_of(views(tools@)).index_of_first(name@) {
            Some(i) => r == Some(&tools@[i]) && 0 <= i < tools@.len(),
            None => r is None,
        },
{
    let ghost names = names_of(views(tools@));
    proof {
        names.index_of_first_ensures(name@);
    }
    for n in 0..tools.len()
        invariant
            names == names_of(views(tools@)),
            forall|i: int| 0 <= i < n ==> #[trigger] names[i] != name@,
            match names.index_of_first(name@) {
                Some(i) => {
                    &&& 0 <= i < names.len()
                    &&& names[i] == name@
                    &&& forall|j: int| 0 <= j < i < names.len() ==> names[j] != name@
                },
                None => !names.contains(name@),
            },
    {
        assert(names[n as int] == tools@[n as int].name@);
        if tools[n].name == *name {
            return Some(&tools[n]);
        }
    }
    None
}

/// The tools and the tool choice of a request.
pub fn prepare_cohere_tools<'a, F>(request: &'a ModelInferenceRequest<'a, F>) -> (r: Result<
    (Option<Vec<CohereTool<'a>>>, Option<CohereToolChoice>),
    Error,
>)
    ensures
        tool_fields_outcome(r) == tool_fields_of(request@.tool_config),
{
    match request.tool_config {
        None => Ok((None, None)),
        Some(tool_config) => match &tool_config.tool_choice {
            ToolChoice::Specific(tool_name) => match find_tool(
                &tool_config.tools_available,
                tool_name,
            ) {
                Some(tool) => {
                    let mut tools: Vec<CohereTool<'a>> = Vec::new();
                    tools.push(cohere_tool(tool));
                    assert(views(tools@) =~= seq![tool_of(tool@)]);
                    Ok((Some(tools), Some(CohereToolChoice::Any)))
                },
                None => Err(Error::new(ErrorDetails::ToolNotFound { name: tool_name.clone() })),
            },
            ToolChoice::Auto => Ok(
                (Some(cohere_tools(&tool_config.tools_available)), Some(CohereToolChoice::Auto)),
            ),
            ToolChoice::Required => Ok(
                (Some(cohere_tools(&tool_config.tools_available)), Some(CohereToolChoice::Any)),
            ),
            ToolChoice::NoTool => Ok((None, Some(CohereToolChoice::NoTool))),
        },
    }
}

/// The message that carries the instructions to the model.
pub fn tensorzero_to_cohere_system_message<'a>(system: Option<&'a str>) -> (r: Option<
    OpenAIRequestMessage<'a>,
>)
    ensures
        opt_view(r) == system_message_of(opt_view(system)),
{
    match system {
        Some(instructions) => Some(
            OpenAIRequestMessage::System(OpenAISystemRequestMessage { content: instructions }),
        ),
        None => None,
    }
}

/// The message that carries the instructions to the model.
pub open spec fn system_message_of(system: Option<Seq<char>>) -> Option<OpenAIRequestMessageView> {
    match system {
        Some(instructions) => Some(OpenAIRequestMessageView::System { content: instructions }),
        None => None,
    }
}

/// What the messages of a conversation become, one after the other; the first
/// that becomes none is the error of all.
pub open spec fn conversation_of(messages: Seq<RequestMessageView>) -> Result<
    Seq<OpenAIRequestMessageView>,
    ErrorView,
>
    decreases messages.len(),
{
    if messages.len() == 0 {
        Ok(seq![])
    } else {
        match conversation_of(messages.drop_last()) {
            Err(error) => Err(error),
            Ok(front) => match messages_of(messages.last()) {
                Err(error) => Err(error),
                Ok(back) => Ok(front + back),
            },
        }
    }
}

/// What a request's messages become: the instructions first, if there are any,
/// and then the conversation.
pub open spec fn prepared_messages_of<F>(request: ModelInferenceRequestView<F>) -> Result<
    Seq<OpenAIRequestMessageView>,
    ErrorView,
> {
    match conversation_of(request.messages) {
        Err(error) => Err(error),
        Ok(conversation) => Ok(
            match system_message_of(request.system) {
                Some(system) => seq![system] + conversation,
                None => conversation,
            },
        ),
    }
}

/// An error in the front of a conversation is the error of the whole.
proof fn lemma_conversation_error(messages: Seq<RequestMessageView>, n: int)
    requires
        0 <= n <= messages.len(),
        conversation_of(messages.take(n)) is Err,
    ensures
        conversation_of(messages) == conversation_of(messages.take(n)),
    decreases messages.len() - n,
{
    if n < messages.len() {
        lemma_take_next(messages, n);
        assert(messages.take(n + 1).drop_last() =~= messages.take(n));
        lemma_conversation_error(messages, n + 1);
    } else {
        assert(messages.take(n) =~= messages);
    }
}

/// The messages of a request, as the API takes them.
pub fn prepare_cohere_messages<'a, F>(request: &'a ModelInferenceRequest<'a, F>) -> (r: Result<
    Vec<OpenAIRequestMessage<'a>>,
    Error,
>)
    ensures
        messages_outcome(r) == prepared_messages_of(request@),
{
    let ghost conversation = request@.messages;
    let mut messages: Vec<OpenAIRequestMessage<'a>> = Vec::new();
    assert(views(messages@) =~= seq![]);
    assert(conversation.take(0) =~= seq![]);
    for n in 0..request.messages.len()
        invariant
            conversation == views(request.messages@),
            conversation_of(conversation.take(n as int)) == Ok::<
                Seq<OpenAIRequestMessageView>,
                ErrorView,
            >(views(messages@)),
    {
        proof {
            lemma_take_next(conversation, n as int);
            assert(conversation.take(n + 1).drop_last() =~= conversation.take(n as int));
            assert(conversation[n as int] == request.messages@[n as int]@);
        }
        let ghost front = messages@;
        match tensorzero_to_openai_messages(&request.messages[n]) {
            Ok(mut converted) => {
                let ghost back = converted@;
                messages.append(&mut converted);
                assert(messages@ =~= front + back);
                assert(views(messages@) =~= views(front) + views(back));
            },
            Err(error) => {
                proof {
                    lemma_conversation_error(conversation, n + 1);
                }
                return Err(error);
            },
        }
    }
    assert(conversation.take(conversation.len() as int) =~= conversation);
    let system = match &request.system {
        Some(instructions) => Some(instructions.as_str()),
        None => None,
    };
    if let Some(system_message) = tensorzero_to_cohere_system_message(system) {
        let ghost rest = messages@;
        messages.insert(0, system_message);
        assert(views(messages@) =~= seq![system_message@] + views(rest));
    }
    Ok(messages)
}

/// A request to the chat API. `F` is the type of the sampling parameters' numbers.
#[derive(Debug, PartialEq)]
pub struct CohereRequest<'a, F> {
    pub messages: Vec<OpenAIRequestMessage<'a>>,
    pub model: &'a str,
    pub temperature: Option<F>,
    pub p: Option<F>,
    pub presence_penalty: Option<F>,
    pub frequency_penalty: Option<F>,
    pub max_tokens: Option<u32>,
    pub seed: Option<u32>,
    pub stream: bool,
    pub response_format: Option<CohereResponseFormat>,
    pub tools: Option<Vec<CohereTool<'a>>>,
    pub tool_choice: Option<CohereToolChoice>,
    pub stop_sequences: Option<&'a Vec<String>>,
}

/// The model of [`CohereRequest`].
#[verifier::reject_recursive_types(F)]
pub struct CohereRequestView<F> {
    pub messages: Seq<OpenAIRequestMessageView>,
    pub model: Seq<char>,
    pub temperature: Option<F>,
    pub p: Option<F>,
    pub presence_penalty: Option<F>,
    pub frequency_penalty: Option<F>,
    pub max_tokens: Option<u32>,
    pub seed: Option<u32>,
    pub stream: bool,
    pub response_format: Option<CohereResponseFormat>,
    pub tools: Option<Seq<CohereToolView>>,
    pub tool_choice: Option<CohereToolChoice>,
    pub stop_sequences: Option<Seq<Seq<char>>>,
}

impl<'a, F> View for CohereRequest<'a, F> {
    type V = CohereRequestView<F>;

    open spec fn view(&self) -> CohereRequestView<F> {
        CohereRequestView {
            messages: views(self.messages@),
            model: self.model@,
            temperature: self.temperature,
            p: self.p,
            presence_penalty: self.presence_penalty,
            frequency_penalty: self.frequency_penalty,
            max_tokens: self.max_tokens,
            seed: self.seed,
            stream: self.stream,
            response_format: self.response_format,
            tools: opt_views(self.tools),
            tool_choice: self.tool_choice,
            stop_sequences: match self.stop_sequences {
                Some(list) => Some(views(list@)),
                None => None,
            },
        }
    }
}

/// JSON is asked for where the gateway's request asks for it, strictly or not.
pub open spec fn response_format_of(json_mode: ModelInferenceRequestJsonMode) -> Option<
    CohereResponseFormat,
> {
    if json_mode == ModelInferenceRequestJsonMode::Off {
        None
    } else {
        Some(CohereResponseFormat::JsonObject)
    }
}

/// The request to Cohere that a gateway's request becomes. Messages are looked at
/// before tools.
pub open spec fn request_of<F>(
    model: Seq<char>,
    request: ModelInferenceRequestView<F>,
) -> Result<CohereRequestView<F>, ErrorView> {
    match prepared_messages_of(request) {
        Err(error) => Err(error),
        Ok(messages) => match tool_fields_of(request.tool_config) {
            Err(error) => Err(error),
            Ok(fields) => Ok(
                CohereRequestView {
                    messages,
                    model,
                    temperature: request.temperature,
                    p: request.top_p,
                    presence_penalty: request.presence_penalty,
                    frequency_penalty: request.frequency_penalty,
                    max_tokens: request.max_tokens,
                    seed: request.seed,
                    stream: request.stream,
                    response_format: response_format_of(request.json_mode),
                    tools: fields.0,
                    tool_choice: fields.1,
                    stop_sequences: request.stop_sequences,
                },
            ),
        },
    }
}

/// The views of a request or of an error.
pub open spec fn request_outcome<'a, F>(r: Result<CohereRequest<'a, F>, Error>) -> Result<
    CohereRequestView<F>,
    ErrorView,
> {
    match r {
        Ok(request) => Ok(request@),
        Err(error) => Err(error@),
    }
}

impl<'a, F: Copy> CohereRequest<'a, F> {
    /// The request to Cohere for `request`, to be answered by `model`.
    pub fn new(model: &'a str, request: &'a ModelInferenceRequest<'a, F>) -> (r: Result<
        CohereRequest<'a, F>,
        Error,
    >)
        ensures
            request_outcome(r) == request_of(model@, request@),
    {
        let response_format = match request.json_mode {
            ModelInferenceRequestJsonMode::On | ModelInferenceRequestJsonMode::Strict => Some(
                CohereResponseFormat::JsonObject,
            ),
            ModelInferenceRequestJsonMode::Off => None,
        };
        let messages = match prepare_cohere_messages(request) {
            Ok(messages) => messages,
            Err(error) => return Err(error),
        };
        let (tools, tool_choice) = match prepare_cohere_tools(request) {
            Ok(fields) => fields,
            Err(error) => return Err(error),
        };
        Ok(
            CohereRequest {
                messages,
                model,
                temperature: request.temperature,
                p: request.top_p,
                presence_penalty: request.presence_penalty,
                frequency_penalty: request.frequency_penalty,
                max_tokens: request.max_tokens,
                seed: request.seed,
                stream: request.stream,
                response_format,
                tools,
                tool_choice,
                stop_sequences: request.borrow_stop_sequences(),
            },
        )
    }
}

/// Does a message hold a block that its writer cannot write?
pub open spec fn is_misplaced(message: RequestMessageView) -> bool {
    exists|i: int|
        0 <= i < message.content.len() && match message.role {
            Role::User => #[trigger] message.content[i] is ToolCall,
            Role::Assistant => message.content[i] is ToolResult,
        }
}

/// A conversation is refused exactly if one of its messages holds a block that its
/// writer cannot write.
pub proof fn law_refused_conversations(messages: Seq<RequestMessageView>)
    ensures
        conversation_of(messages) is Err <==> exists|i: int|
            0 <= i < messages.len() && is_misplaced(#[trigger] messages[i]),
    decreases messages.len(),
{
    if messages.len() > 0 {
        let front = messages.drop_last();
        law_refused_conversations(front);
        if conversation_of(front) is Err {
            let i = choose|i: int| 0 <= i < front.len() && is_misplaced(#[trigger] front[i]);
            assert(is_misplaced(messages[i]));
        }
        assert(messages_of(messages.last()) is Err <==> is_misplaced(messages.last()));
        if is_misplaced(messages.last()) {
            assert(is_misplaced(messages[messages.len() - 1]));
        }
        if exists|i: int| 0 <= i < messages.len() && is_misplaced(#[trigger] messages[i]) {
            let i = choose|i: int| 0 <= i < messages.len() && is_misplaced(#[trigger] messages[i]);
            if i < front.len() {
                assert(is_misplaced(front[i]));
            }
        }
    }
}

/// The parts of a conversation keep their order: what it becomes is what its front
/// becomes, and then what its back becomes.
pub proof fn law_conversation_keeps_its_order(
    front: Seq<RequestMessageView>,
    back: Seq<RequestMessageView>,
)
    ensures
        conversation_of(front + back) == match conversation_of(front) {
            Err(error) => Err(error),
            Ok(first) => match conversation_of(back) {
                Err(error) => Err(error),
                Ok(second) => Ok(first + second),
            },
        },
    decreases back.len(),
{
    if back.len() == 0 {
        assert(front + back =~= front);
        if conversation_of(front) is Ok {
            let first = conversation_of(front)->Ok_0;
            assert(first + seq![] =~= first);
        }
    } else {
        assert((front + back).drop_last() =~= front + back.drop_last());
        assert((front + back).last() == back.last());
        law_conversation_keeps_its_order(front, back.drop_last());
        if conversation_of(front) is Ok && conversation_of(back) is Ok {
            let first = conversation_of(front)->Ok_0;
            let second = conversation_of(back.drop_last())->Ok_0;
            let third = messages_of(back.last())->Ok_0;
            assert(first + second + third =~= first + (second + third));
        }
    }
}

/// No message of a conversation becomes instructions.
proof fn lemma_no_instructions(messages: Seq<RequestMessageView>)
    ensures
        conversation_of(messages) matches Ok(converted) ==> forall|i: int|
            0 <= i < converted.len() ==> !(#[trigger] converted[i] is System),
    decreases messages.len(),
{
    if messages.len() > 0 && conversation_of(messages) is Ok {
        lemma_no_instructions(messages.drop_last());
        let front = conversation_of(messages.drop_last())->Ok_0;
        let blocks = messages.last().content;
        let back = messages_of(messages.last())->Ok_0;
        let results = tool_messages_in(blocks);
        assert forall|i: int| 0 <= i < back.len() implies !(#[trigger] back[i] is System) by {
            if messages.last().role == Role::User && i < results.len() {
                assert(results.contains(results[i]));
                blocks.lemma_filter_map_contains(
                    |block: ContentBlockView| as_tool_message(block),
                    results[i],
                );
            }
        }
        let converted = conversation_of(messages)->Ok_0;
        assert(converted == front + back);
        assert forall|i: int| 0 <= i < converted.len() implies !(
        #[trigger] converted[i] is System) by {
            if i < front.len() {
                assert(converted[i] == front[i]);
            } else {
                assert(converted[i] == back[i - front.len()]);
            }
        }
    }
}

/// The instructions of a request are its first message, and no other message
/// carries instructions; without instructions, none does.
pub proof fn law_instructions_come_first<F>(request: ModelInferenceRequestView<F>)
    ensures
        prepared_messages_of(request) matches Ok(messages) ==> {
            &&& request.system matches Some(instructions) ==> messages.len() > 0 && messages[0]
                == (OpenAIRequestMessageView::System { content: instructions })
            &&& forall|i: int|
                0 <= i < messages.len() ==> (#[trigger] messages[i] is System <==> i == 0
                    && request.system is Some)
        },
{
    lemma_no_instructions(request.messages);
    if prepared_messages_of(request) is Ok {
        let conversation = conversation_of(request.messages)->Ok_0;
        let messages = prepared_messages_of(request)->Ok_0;
        assert forall|i: int| 0 <= i < messages.len() implies (#[trigger] messages[i] is System
            <==> i == 0 && request.system is Some) by {
            if request.system is Some {
                if i > 0 {
                    assert(messages[i] == conversation[i - 1]);
                }
            } else {
                assert(messages[i] == conversation[i]);
            }
        }
    }
}

/// Does a message hold texts, at least one, and nothing else?
pub open spec fn is_plain(message: RequestMessageView) -> bool {
    &&& message.content.len() > 0
    &&& forall|i: int| 0 <= i < message.content.len() ==> #[trigger] message.content[i] is Text
}

/// The texts of a message that holds nothing else.
pub open spec fn plain_texts(message: RequestMessageView) -> Seq<Seq<char>> {
    message.content.map_values(|block: ContentBlockView| block->Text_0)
}

/// What a message that holds nothing but texts becomes.
pub open spec fn plain_message_of(message: RequestMessageView) -> OpenAIRequestMessageView {
    match message.role {
        Role::User => OpenAIRequestMessageView::User { blocks: plain_texts(message) },
        Role::Assistant => OpenAIRequestMessageView::Assistant {
            texts: Some(plain_texts(message)),
            tool_calls: None,
        },
    }
}

proof fn lemma_plain_blocks(blocks: Seq<ContentBlockView>)
    requires
        forall|i: int| 0 <= i < blocks.len() ==> #[trigger] blocks[i] is Text,
    ensures
        texts_in(blocks) == blocks.map_values(|block: ContentBlockView| block->Text_0),
        calls_in(blocks) == Seq::<ToolCallView>::empty(),
        tool_messages_in(blocks) == Seq::<OpenAIRequestMessageView>::empty(),
    decreases blocks.len(),
{
    if blocks.len() > 0 {
        let front = blocks.drop_last();
        assert forall|i: int| 0 <= i < front.len() implies #[trigger] front[i] is Text by {
            assert(front[i] == blocks[i]);
        }
        lemma_plain_blocks(front);
        assert(blocks.last() is Text);
    }
    assert(texts_in(blocks) =~= blocks.map_values(|block: ContentBlockView| block->Text_0));
}

/// A conversation of nothing but texts is never refused, and each of its messages
/// becomes one message, with the same texts.
pub proof fn law_plain_conversations(messages: Seq<RequestMessageView>)
    requires
        forall|i: int| 0 <= i < messages.len() ==> is_plain(#[trigger] messages[i]),
    ensures
        conversation_of(messages) == Ok::<Seq<OpenAIRequestMessageView>, ErrorView>(
            messages.map_values(|message: RequestMessageView| plain_message_of(message)),
        ),
    decreases messages.len(),
{
    let plain = messages.map_values(|message: RequestMessageView| plain_message_of(message));
    if messages.len() > 0 {
        let front = messages.drop_last();
        let last = messages.last();
        assert forall|i: int| 0 <= i < front.len() implies is_plain(#[trigger] front[i]) by {
            assert(front[i] == messages[i]);
        }
        law_plain_conversations(front);
        assert(is_plain(messages[messages.len() - 1]));
        lemma_plain_blocks(last.content);
        assert(messages_of(last)->Ok_0 =~= seq![plain_message_of(last)]);
        assert(plain =~= front.map_values(
            |message: RequestMessageView| plain_message_of(message),
        ) + seq![plain_message_of(last)]);
    } else {
        assert(plain =~= seq![]);
    }
}

/// Tools are offered exactly where the model may call one.
pub proof fn law_tools_go_with_the_choice(config: Option<ToolCallConfigView>)
    ensures
        tool_fields_of(config) matches Ok(fields) ==> {
            &&& fields.0 is Some <==> fields.1 == Some(CohereToolChoice::Auto) || fields.1 == Some(
                CohereToolChoice::Any,
            )
            &&& fields.1 is None <==> config is None
        },
{
}

/// Asking for one tool is refused exactly if no tool has its name; else that tool
/// alone is offered, under that name, and has to be called.
pub proof fn law_asking_for_one_tool(config: ToolCallConfigView, name: Seq<char>)
    requires
        config.tool_choice == ToolChoiceView::Specific(name),
    ensures
        tool_fields_of(Some(config)) is Err <==> !names_of(config.tools_available).contains(name),
        tool_fields_of(Some(config)) matches Err(error) ==> error == (ErrorView::ToolNotFound {
            name,
        }),
        tool_fields_of(Some(config)) matches Ok(fields) ==> {
            &&& fields.1 == Some(CohereToolChoice::Any)
            &&& fields.0 matches Some(tools) && tools.len() == 1 && tools[0].function.name == name
        },
{
    names_of(config.tools_available).index_of_first_ensures(name);
}

/// Only asking for a tool that is not there makes the tools of a request an error.
pub proof fn law_other_choices_are_never_refused(config: ToolCallConfigView)
    requires
        !(config.tool_choice is Specific),
    ensures
        tool_fields_of(Some(config)) is Ok,
        config.tool_choice is Auto || config.tool_choice is Required ==> tool_fields_of(
            Some(config),
        )->Ok_0.0 == Some(tools_of(config.tools_available)),
{
}

/// A request is refused exactly if a message holds a block that its writer cannot
/// write, or it asks for a tool that is not there; a misplaced block is reported
/// first.
pub proof fn law_refused_requests<F>(model: Seq<char>, request: ModelInferenceRequestView<F>)
    ensures
        request_of(model, request) is Err <==> {
            ||| exists|i: int|
                0 <= i < request.messages.len() && is_misplaced(#[trigger] request.messages[i])
            ||| request.tool_config matches Some(config) && config.tool_choice matches
                ToolChoiceView::Specific(name) && !names_of(config.tools_available).contains(name)
        },
        conversation_of(request.messages) matches Err(error) ==> request_of(model, request)
            == Err::<CohereRequestView<F>, ErrorView>(error),
{
    law_refused_conversations(request.messages);
    if request.tool_config is Some {
        let config = request.tool_config->0;
        if config.tool_choice is Specific {
            law_asking_for_one_tool(config, config.tool_choice->Specific_0);
        }
    }
}

/// What a request says of the answer's length, randomness and form is handed on as
/// it is, and so are the model's name and the stop sequences. JSON is asked for
/// wherever the gateway asks for it.
pub proof fn law_parameters_are_handed_on<F>(
    model: Seq<char>,
    request: ModelInferenceRequestView<F>,
)
    ensures
        request_of(model, request) matches Ok(made) ==> {
            &&& made.model == model
            &&& made.temperature == request.temperature
            &&& made.p == request.top_p
            &&& made.presence_penalty == request.presence_penalty
            &&& made.frequency_penalty == request.frequency_penalty
            &&& made.max_tokens == request.max_tokens
            &&& made.seed == request.seed
            &&& made.stream == request.stream
            &&& made.stop_sequences == request.stop_sequences
            &&& made.response_format == Some(CohereResponseFormat::JsonObject)
                <==> request.json_mode is On || request.json_mode is Strict
            &&& made.response_format is None <==> request.json_mode is Off
        },
{
}

/// Where the model may choose among the tools, or has to, every tool is offered, in its
/// place, with its own name, description and parameters.
pub proof fn law_every_tool_is_offered_as_it_is(config: ToolCallConfigView)
    requires
        config.tool_choice is Auto || config.tool_choice is Required,
    ensures
        tool_fields_of(Some(config)) matches Ok(fields) && {
            &&& fields.1 == Some(
                if config.tool_choice is Auto {
                    CohereToolChoice::Auto
                } else {
                    CohereToolChoice::Any
                },
            )
            &&& fields.0 matches Some(tools) && tools.len() == config.tools_available.len()
                && forall|i: int|
                0 <= i < tools.len() ==> {
                    let offered = #[trigger] tools[i];
                    &&& offered.tool_type == OpenAIToolType::Function
                    &&& offered.function.name == config.tools_available[i].name
                    &&& offered.function.description == Some(config.tools_available[i].description)
                    &&& offered.function.parameters == config.tools_available[i].parameters
                }
        },
{
}

/// Asking for one tool offers the first of that name, with its own description and
/// parameters, and no other; it has to be called.
pub proof fn law_the_tool_asked_for_is_offered_as_it_is(config: ToolCallConfigView, i: int)
    requires
        0 <= i < config.tools_available.len(),
        config.tool_choice == ToolChoiceView::Specific(config.tools_available[i].name),
        forall|j: int|
            0 <= j < i ==> #[trigger] config.tools_available[j].name
                != config.tools_available[i].name,
    ensures
        tool_fields_of(Some(config)) matches Ok(fields) && {
            &&& fields.1 == Some(CohereToolChoice::Any)
            &&& fields.0 matches Some(tools) && tools.len() == 1 && {
                &&& tools[0].tool_type == OpenAIToolType::Function
                &&& tools[0].function.name == config.tools_available[i].name
                &&& tools[0].function.description == Some(config.tools_available[i].description)
                &&& tools[0].function.parameters == config.tools_available[i].parameters
            }
        },
{
    let names = names_of(config.tools_available);
    let name = config.tools_available[i].name;
    names.index_of_first_ensures(name);
    assert(names[i] == name);
    assert(names.contains(name));
    let first = names.index_of_first(name)->0;
    assert(names[first] == name);
    assert(config.tools_available[first].name == name);
    if first > i {
        assert(names[i] != name);
    }
}

/// Asking for a tool that is not there is refused, in its name.
pub proof fn law_a_tool_that_is_not_there_is_refused(config: ToolCallConfigView, name: Seq<char>)
    requires
        config.tool_choice == ToolChoiceView::Specific(name),
        forall|i: int|
            0 <= i < config.tools_available.len() ==> #[trigger] config.tools_available[i].name
                != name,
    ensures
        tool_fields_of(Some(config)) matches Err(error) && error == (ErrorView::ToolNotFound {
            name,
        }),
{
    let names = names_of(config.tools_available);
    names.index_of_first_ensures(name);
    if names.contains(name) {
        let i = choose|i: int| 0 <= i < names.len() && names[i] == name;
        assert(config.tools_available[i].name == name);
    }
}

/// Without a tool configuration a request says nothing of tools, and where no tool is
/// to be called it says just that.
pub proof fn law_no_tools_are_offered_where_none_is_wanted(config: ToolCallConfigView)
    requires
        config.tool_choice is NoTool,
    ensures
        tool_fields_of(None) matches Ok(fields) && fields.0 is None && fields.1 is None,
        tool_fields_of(Some(config)) matches Ok(fields) && fields.0 is None && fields.1 == Some(
            CohereToolChoice::NoTool,
        ),
{
}

/// The messages of a request are sent one after the other: wherever a conversation is
/// parted, it is sent as its two parts are, and the first part that is refused is the
/// one that is reported. A message by itself is sent as what it becomes, and nothing is
/// sent where nothing was said.
pub proof fn law_messages_are_sent_in_their_order<F>(
    request: ModelInferenceRequestView<F>,
    n: int,
)
    requires
        request.system is None,
        0 <= n <= request.messages.len(),
    ensures
        prepared_messages_of(request) == {
            let front = ModelInferenceRequestView { messages: request.messages.take(n), ..request };
            let back = ModelInferenceRequestView { messages: request.messages.skip(n), ..request };
            match (prepared_messages_of(front), prepared_messages_of(back)) {
                (Err(error), _) => Err(error),
                (_, Err(error)) => Err(error),
                (Ok(first), Ok(second)) => Ok(first + second),
            }
        },
        request.messages.len() == 1 ==> prepared_messages_of(request) == messages_of(
            request.messages[0],
        ),
        request.messages.len() == 0 ==> (prepared_messages_of(request) matches Ok(sent)
            && sent.len() == 0),
{
    law_conversation_keeps_its_order(request.messages.take(n), request.messages.skip(n));
    assert(request.messages.take(n) + request.messages.skip(n) =~= request.messages);
    if request.messages.len() == 1 {
        assert(request.messages.drop_last() =~= seq![]);
        assert(conversation_of(request.messages.drop_last()) == Ok::<
            Seq<OpenAIRequestMessageView>,
            ErrorView,
        >(seq![]));
        if messages_of(request.messages[0]) is Ok {
            let sent = messages_of(request.messages[0])->Ok_0;
            assert(seq![] + sent =~= sent);
        }
    }
}

/// Instructions are one message more, before all others, and change nothing else: with
/// them a request is refused exactly where it is without them.
pub proof fn law_instructions_are_one_message_more<F>(
    request: ModelInferenceRequestView<F>,
    instructions: Seq<char>,
)
    requires
        request.system == Some(instructions),
    ensures
        prepared_messages_of(request) == match prepared_messages_of(
            ModelInferenceRequestView { system: None, ..request },
        ) {
            Err(error) => Err(error),
            Ok(rest) => Ok(
                seq![OpenAIRequestMessageView::System { content: instructions }] + rest,
            ),
        },
{
}

/// A request to Cohere is put together from its messages and its tools, and fails where
/// either does: the messages first.
pub proof fn law_a_request_is_its_messages_and_its_tools<F>(
    model: Seq<char>,
    request: ModelInferenceRequestView<F>,
)
    ensures
        prepared_messages_of(request) matches Err(error) ==> request_of(model, request) == Err::<
            CohereRequestView<F>,
            ErrorView,
        >(error),
        prepared_messages_of(request) is Ok ==> (tool_fields_of(request.tool_config) matches Err(
            error,
        ) ==> request_of(model, request) == Err::<CohereRequestView<F>, ErrorView>(error)),
        prepared_messages_of(request) is Ok && tool_fields_of(request.tool_config) is Ok ==> (
        request_of(model, request) matches Ok(made) && {
            &&& made.messages == prepared_messages_of(request)->Ok_0
            &&& made.tools == tool_fields_of(request.tool_config)->Ok_0.0
            &&& made.tool_choice == tool_fields_of(request.tool_config)->Ok_0.1
        }),
{
}

/// The message of the instructions says what they say, and there is none without them.
pub proof fn law_instructions_are_said_as_they_are(system: Option<Seq<char>>)
    ensures
        system_message_of(system) is Some <==> system is Some,
        system matches Some(instructions) ==> system_message_of(system) == Some(
            OpenAIRequestMessageView::System { content: instructions },
        ),
{
}

/// Every part of a request to Cohere is seen as it is.
pub proof fn law_cohere_requests_are_seen_whole<'a, F>(
    tool: CohereTool<'a>,
    request: CohereRequest<'a, F>,
)
    ensures
        tool@.tool_type == tool.tool_type,
        tool@.function == tool.function@,
        request@.messages == views(request.messages@),
        request@.model == request.model@,
        request@.temperature == request.temperature,
        request@.p == request.p,
        request@.presence_penalty == request.presence_penalty,
        request@.frequency_penalty == request.frequency_penalty,
        request@.max_tokens == request.max_tokens,
        request@.seed == request.seed,
        request@.stream == request.stream,
        request@.response_format == request.response_format,
        request@.tools == opt_views(request.tools),
        request@.tool_choice == request.tool_choice,
        request@.stop_sequences is Some <==> request.stop_sequences is Some,
        request.stop_sequences matches Some(list) ==> request@.stop_sequences == Some(views(list@)),
{
}

/// What comes of making a request, or its tools, is seen as it is.
pub proof fn law_made_requests_are_seen<'a, F>(
    made: Result<CohereRequest<'a, F>, Error>,
    fields: Result<(Option<Vec<CohereTool<'a>>>, Option<CohereToolChoice>), Error>,
)
    ensures
        made matches Ok(request) ==> request_outcome(made) == Ok::<
            CohereRequestView<F>,
            ErrorView,
        >(request@),
        made matches Err(error) ==> request_outcome(made) == Err::<
            CohereRequestView<F>,
            ErrorView,
        >(error@),
        fields matches Ok(pair) ==> tool_fields_outcome(fields) == Ok::<
            (Option<Seq<CohereToolView>>, Option<CohereToolChoice>),
            ErrorView,
        >((opt_views(pair.0), pair.1)),
        fields matches Err(error) ==> tool_fields_outcome(fields) == Err::<
            (Option<Seq<CohereToolView>>, Option<CohereToolChoice>),
            ErrorView,
        >(error@),
{
}

} // verus!
