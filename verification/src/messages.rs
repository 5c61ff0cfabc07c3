//! The data model of a conversation: messages, tool calls and the shape
//! of a completion backend's answer.

use vstd::prelude::*;

verus! {

/// One entry of the ordered conversation history. Index 0 of a
/// conversation is always the system directive; it is set once and is
/// never trimmed away.
pub struct Message {
    pub role: String,
    pub content: String,
    pub tool_calls: Option<Vec<ToolCall>>,
    pub tool_call_id: Option<String>,
}

/// A structured request from the completion backend to invoke a named
/// local function. It pairs 1:1 with a role-"tool" message linked via
/// `tool_call_id`.
pub struct ToolCall {
    pub id: Option<String>,
    pub type_: Option<String>,
    pub function: Option<FunctionCall>,
}

/// The name and raw argument payload of one tool call.
pub struct FunctionCall {
    pub name: String,
    pub arguments: String,
}

/// What one round of completion returns: an assistant message and the
/// tool calls it asks for, if any.
pub struct ChatCompletionResponse {
    pub message: Message,
    pub tool_calls: Option<Vec<ToolCall>>,
}

/// A tool offered to the completion backend.
pub struct Tool {
    pub type_: String,
    pub function: Function,
}

/// The description of a tool: its name, what it does, and the JSON
/// schema of its arguments, kept as raw schema text.
pub struct Function {
    pub name: String,
    pub description: String,
    pub parameters: String,
}

pub struct MessageView {
    pub role: Seq<char>,
    pub content: Seq<char>,
    pub tool_calls: Option<Seq<ToolCallView>>,
    pub tool_call_id: Option<Seq<char>>,
}

pub struct ToolCallView {
    pub id: Option<Seq<char>>,
    pub type_: Option<Seq<char>>,
    pub function: Option<FunctionCallView>,
}

pub struct FunctionCallView {
    pub name: Seq<char>,
    pub arguments: Seq<char>,
}

pub struct ChatCompletionResponseView {
    pub message: MessageView,
    pub tool_calls: Option<Seq<ToolCallView>>,
}

pub open spec fn opt_string_view(o: Option<String>) -> Option<Seq<char>> {
    match o {
        Some(s) => Some(s@),
        None => None,
    }
}

pub open spec fn tool_calls_view(o: Option<Vec<ToolCall>>) -> Option<Seq<ToolCallView>> {
    match o {
        Some(v) => Some(v@.map_values(|c: ToolCall| c@)),
        None => None,
    }
}

impl View for FunctionCall {
    type V = FunctionCallView;

    open spec fn view(&self) -> FunctionCallView {
        FunctionCallView { name: self.name@, arguments: self.arguments@ }
    }
}

impl View for ToolCall {
    type V = ToolCallView;

    open spec fn view(&self) -> ToolCallView {
        ToolCallView {
            id: opt_string_view(self.id),
            type_: opt_string_view(self.type_),
            function: match self.function {
                Some(f) => Some(f@),
                None => None,
            },
        }
    }
}

impl View for Message {
    type V = MessageView;

    open spec fn view(&self) -> MessageView {
        MessageView {
            role: self.role@,
            content: self.content@,
            tool_calls: tool_calls_view(self.tool_calls),
            tool_call_id: opt_string_view(self.tool_call_id),
        }
    }
}

impl View for ChatCompletionResponse {
    type V = ChatCompletionResponseView;

    open spec fn view(&self) -> ChatCompletionResponseView {
        ChatCompletionResponseView {
            message: self.message@,
            tool_calls: tool_calls_view(self.tool_calls),
        }
    }
}

/// The view of a whole history, message by message.
pub open spec fn msgs_view(s: Seq<Message>) -> Seq<MessageView> {
    s.map_values(|m: Message| m@)
}

/// A message that carries only a role and plain content.
pub open spec fn plain_message_view(role: Seq<char>, content: Seq<char>) -> MessageView {
    MessageView { role, content, tool_calls: None, tool_call_id: None }
}

/// Builds a message with a role and plain content and nothing else.
pub fn plain_message(role: &str, content: &str) -> (m: Message)
    ensures
        m@ == plain_message_view(role@, content@),
{
    Message {
        role: role.to_owned(),
        content: content.to_owned(),
        tool_calls: None,
        tool_call_id: None,
    }
}

pub(crate) fn clone_opt_string(o: &Option<String>) -> (r: Option<String>)
    ensures
        r == *o,
{
    match o {
        Some(s) => Some(s.clone()),
        None => None,
    }
}

impl Clone for FunctionCall {
    fn clone(&self) -> (r: Self)
        ensures
            r == *self,
    {
        FunctionCall { name: self.name.clone(), arguments: self.arguments.clone() }
    }
}

impl Clone for ToolCall {
    fn clone(&self) -> (r: Self)
        ensures
            r == *self,
    {
        ToolCall {
            id: clone_opt_string(&self.id),
            type_: clone_opt_string(&self.type_),
            function: match &self.function {
                Some(f) => Some(f.clone()),
                None => None,
            },
        }
    }
}

pub(crate) fn clone_tool_call_list(v: &Vec<ToolCall>) -> (r: Vec<ToolCall>)
    ensures
        r@ == v@,
{
    let mut out: Vec<ToolCall> = Vec::new();
    let mut i: usize = 0;
    while i < v.len()
        invariant
            i <= v.len(),
            out@ =~= v@.subrange(0, i as int),
        decreases v.len() - i,
    {
        out.push(v[i].clone());
        i = i + 1;
    }
    proof {
        assert(out@ =~= v@);
    }
    out
}

fn clone_tool_calls(o: &Option<Vec<ToolCall>>) -> (r: Option<Vec<ToolCall>>)
    ensures
        tool_calls_view(r) == tool_calls_view(*o),
{
    match o {
        Some(v) => Some(clone_tool_call_list(v)),
        None => None,
    }
}

impl Clone for Message {
    fn clone(&self) -> (r: Self)
        ensures
            r@ == self@,
    {
        Message {
            role: self.role.clone(),
            content: self.content.clone(),
            tool_calls: clone_tool_calls(&self.tool_calls),
            tool_call_id: clone_opt_string(&self.tool_call_id),
        }
    }
}

} // verus!
