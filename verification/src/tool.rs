//! Tools that a model may call, and the calls themselves.

use vstd::prelude::*;

use crate::text::{opt_view, views};

verus! {

/// A tool that a request offers to the model.
#[derive(Debug, PartialEq)]
pub struct ToolConfig {
    pub name: String,
    pub description: String,
    /// The JSON schema of the tool's arguments.
    pub parameters: serde_json::Value,
    pub strict: bool,
}

/// The model of [`ToolConfig`].
pub struct ToolConfigView {
    pub name: Seq<char>,
    pub description: Seq<char>,
    pub parameters: serde_json::Value,
    pub strict: bool,
}

impl View for ToolConfig {
    type V = ToolConfigView;

    open spec fn view(&self) -> ToolConfigView {
        ToolConfigView {
            name: self.name@,
            description: self.description@,
            parameters: self.parameters,
            strict: self.strict,
        }
    }
}

impl ToolConfig {
    pub fn name(&self) -> (name: &str)
        ensures
            name@ == self@.name,
    {
        self.name.as_str()
    }

    pub fn description(&self) -> (description: &str)
        ensures
            description@ == self@.description,
    {
        self.description.as_str()
    }

    pub fn parameters(&self) -> (parameters: &serde_json::Value)
        ensures
            *parameters == self@.parameters,
    {
        &self.parameters
    }

    pub fn strict(&self) -> (strict: bool)
        ensures
            strict == self@.strict,
    {
        self.strict
    }
}

/// Which tools the model may or must call.
#[derive(Debug, PartialEq, Eq)]
pub enum ToolChoice {
    /// The model calls no tool.
    NoTool,
    /// The model decides.
    Auto,
    /// The model calls some tool.
    Required,
    /// The model calls the tool of this name.
    Specific(String),
}

/// The model of [`ToolChoice`].
pub enum ToolChoiceView {
    NoTool,
    Auto,
    Required,
    Specific(Seq<char>),
}

impl View for ToolChoice {
    type V = ToolChoiceView;

    open spec fn view(&self) -> ToolChoiceView {
        match self {
            ToolChoice::NoTool => ToolChoiceView::NoTool,
            ToolChoice::Auto => ToolChoiceView::Auto,
            ToolChoice::Required => ToolChoiceView::Required,
            ToolChoice::Specific(name) => ToolChoiceView::Specific(name@),
        }
    }
}

/// The tools of a request, and the choice among them.
#[derive(Debug, PartialEq)]
pub struct ToolCallConfig {
    pub tools_available: Vec<ToolConfig>,
    pub tool_choice: ToolChoice,
}

/// The model of [`ToolCallConfig`].
pub struct ToolCallConfigView {
    pub tools_available: Seq<ToolConfigView>,
    pub tool_choice: ToolChoiceView,
}

impl View for ToolCallConfig {
    type V = ToolCallConfigView;

    open spec fn view(&self) -> ToolCallConfigView {
        ToolCallConfigView {
            tools_available: views(self.tools_available@),
            tool_choice: self.tool_choice@,
        }
    }
}

/// A call of a tool: its arguments are the JSON text that the model wrote.
#[derive(Debug, PartialEq, Eq)]
pub struct ToolCall {
    pub id: String,
    pub name: String,
    pub arguments: String,
}

/// The model of [`ToolCall`].
pub struct ToolCallView {
    pub id: Seq<char>,
    pub name: Seq<char>,
    pub arguments: Seq<char>,
}

impl View for ToolCall {
    type V = ToolCallView;

    open spec fn view(&self) -> ToolCallView {
        ToolCallView { id: self.id@, name: self.name@, arguments: self.arguments@ }
    }
}

impl Clone for ToolCall {
    fn clone(&self) -> (copy: Self)
        ensures
            copy == *self,
    {
        ToolCall {
            id: self.id.clone(),
            name: self.name.clone(),
            arguments: self.arguments.clone(),
        }
    }
}

/// The result of a tool call, handed back to the model.
#[derive(Debug, PartialEq, Eq)]
pub struct ToolResult {
    pub id: String,
    pub name: String,
    pub result: String,
}

/// The model of [`ToolResult`].
pub struct ToolResultView {
    pub id: Seq<char>,
    pub name: Seq<char>,
    pub result: Seq<char>,
}

impl View for ToolResult {
    type V = ToolResultView;

    open spec fn view(&self) -> ToolResultView {
        ToolResultView { id: self.id@, name: self.name@, result: self.result@ }
    }
}

impl Clone for ToolResult {
    fn clone(&self) -> (copy: Self)
        ensures
            copy == *self,
    {
        ToolResult { id: self.id.clone(), name: self.name.clone(), result: self.result.clone() }
    }
}

/// A piece of a streamed tool call. The name comes only where it is new.
#[derive(Debug, PartialEq, Eq)]
pub struct ToolCallChunk {
    pub id: String,
    pub raw_name: Option<String>,
    pub raw_arguments: String,
}

/// The model of [`ToolCallChunk`].
pub struct ToolCallChunkView {
    pub id: Seq<char>,
    pub raw_name: Option<Seq<char>>,
    pub raw_arguments: Seq<char>,
}

impl View for ToolCallChunk {
    type V = ToolCallChunkView;

    open spec fn view(&self) -> ToolCallChunkView {
        ToolCallChunkView {
            id: self.id@,
            raw_name: opt_view(self.raw_name),
            raw_arguments: self.raw_arguments@,
        }
    }
}

/// The name of a streamed tool call as a chunk reports it: nothing where the name
/// is that of the call before, else the name. `last_tool_name` keeps the name of
/// the latest call.
pub fn check_new_tool_call_name(new_name: String, last_tool_name: &mut Option<String>) -> (r: Option<
    String,
>)
    ensures
        opt_view(*final(last_tool_name)) == Some(new_name@),
        opt_view(r) == if opt_view(*old(last_tool_name)) == Some(new_name@) {
            None
        } else {
            Some(new_name@)
        },
{
    let repeated = match last_tool_name {
        Some(last) => *last == new_name,
        None => false,
    };
    if repeated {
        None
    } else {
        *last_tool_name = Some(new_name.clone());
        Some(new_name)
    }
}

/// Every part of a tool, and of the choice among tools, is seen as it is.
pub proof fn law_tools_are_seen_whole(
    tool: ToolConfig,
    choice: ToolChoice,
    config: ToolCallConfig,
)
    ensures
        tool@.name == tool.name@,
        tool@.description == tool.description@,
        tool@.parameters == tool.parameters,
        tool@.strict == tool.strict,
        choice is NoTool <==> choice@ is NoTool,
        choice is Auto <==> choice@ is Auto,
        choice is Required <==> choice@ is Required,
        choice matches ToolChoice::Specific(name) ==> choice@ == ToolChoiceView::Specific(name@),
        config@.tools_available == views(config.tools_available@),
        config@.tool_choice == config.tool_choice@,
{
}

/// Every part of a tool call and of its result is seen as it is.
pub proof fn law_calls_are_seen_whole(call: ToolCall, result: ToolResult, chunk: ToolCallChunk)
    ensures
        call@.id == call.id@,
        call@.name == call.name@,
        call@.arguments == call.arguments@,
        result@.id == result.id@,
        result@.name == result.name@,
        result@.result == result.result@,
        chunk@.id == chunk.id@,
        chunk@.raw_name == opt_view(chunk.raw_name),
        chunk@.raw_arguments == chunk.raw_arguments@,
{
}

} // verus!
