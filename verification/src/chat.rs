//! The messages of a conversation with the model, and the tool calls in them.
use vstd::prelude::*;
use vstd::string::*;

use crate::usage::LLMTokenUsage;

verus! {

/// Who a message comes from.
#[derive(Debug, Clone, Copy, PartialEq, Eq, Structural)]
pub enum Role {
    System,
    Developer,
    User,
    Assistant,
    Tool,
}

/// The function that a tool call names, with its arguments as JSON text.
#[derive(Debug, PartialEq, Eq)]
pub struct FunctionCall {
    pub name: String,
    pub arguments: String,
}

/// A call of a tool that the assistant asks for.
#[derive(Debug, PartialEq, Eq)]
pub struct ToolCall {
    pub id: String,
    pub kind: String,
    pub function: FunctionCall,
    pub metadata: Option<String>,
}

/// How a tool call ended.
#[derive(Debug, Clone, Copy, PartialEq, Eq, Structural)]
pub enum ToolCallResultStatus {
    Success,
    Error,
    Cancelled,
}

/// A tool call together with what came of it.
#[derive(Debug, PartialEq, Eq)]
pub struct ToolCallResult {
    pub call: ToolCall,
    pub result: String,
    pub status: ToolCallResultStatus,
}

/// A picture in a message.
#[derive(Debug, PartialEq, Eq)]
pub struct ImageUrl {
    pub url: String,
    pub detail: Option<String>,
}

/// A part of a message that consists of several.
#[derive(Debug, PartialEq, Eq)]
pub struct ContentPart {
    pub kind: String,
    pub text: Option<String>,
    pub image_url: Option<ImageUrl>,
}

/// What a message says.
#[derive(Debug, PartialEq, Eq)]
pub enum MessageContent {
    String(String),
    Array(Vec<ContentPart>),
}

/// A message of the conversation.
#[derive(Debug, PartialEq, Eq)]
pub struct ChatMessage {
    pub role: Role,
    pub content: Option<MessageContent>,
    pub name: Option<String>,
    pub tool_calls: Option<Vec<ToolCall>>,
    pub tool_call_id: Option<String>,
    pub usage: Option<LLMTokenUsage>,
}

/// The model of a [`ToolCallResult`].
pub struct ToolCallResultView {
    pub call: ToolCall,
    pub result: Seq<char>,
    pub status: ToolCallResultStatus,
}

/// The model of a [`ContentPart`].
pub struct ContentPartView {
    pub kind: Seq<char>,
    pub text: Option<Seq<char>>,
    pub image_url: Option<ImageUrl>,
}

/// The model of a [`MessageContent`].
pub enum ContentView {
    Text(Seq<char>),
    Parts(Seq<ContentPartView>),
}

/// The model of a [`ChatMessage`].
pub struct ChatMessageView {
    pub role: Role,
    pub content: Option<ContentView>,
    pub name: Option<Seq<char>>,
    pub tool_calls: Option<Seq<ToolCall>>,
    pub tool_call_id: Option<Seq<char>>,
    pub usage: Option<LLMTokenUsage>,
}

impl DeepView for ToolCallResult {
    type V = ToolCallResultView;

    open spec fn deep_view(&self) -> ToolCallResultView {
        ToolCallResultView { call: self.call, result: self.result@, status: self.status }
    }
}

impl DeepView for ContentPart {
    type V = ContentPartView;

    open spec fn deep_view(&self) -> ContentPartView {
        ContentPartView {
            kind: self.kind@,
            text: self.text.deep_view(),
            image_url: self.image_url,
        }
    }
}

impl DeepView for MessageContent {
    type V = ContentView;

    open spec fn deep_view(&self) -> ContentView {
        match self {
            MessageContent::String(text) => ContentView::Text(text@),
            MessageContent::Array(parts) => ContentView::Parts(parts.deep_view()),
        }
    }
}

impl DeepView for ChatMessage {
    type V = ChatMessageView;

    open spec fn deep_view(&self) -> ChatMessageView {
        ChatMessageView {
            role: self.role,
            content: self.content.deep_view(),
            name: self.name.deep_view(),
            tool_calls: match self.tool_calls {
                Some(calls) => Some(calls@),
                None => None,
            },
            tool_call_id: self.tool_call_id.deep_view(),
            usage: self.usage,
        }
    }
}

/// A message of `role` that says `text` and no more.
pub open spec fn text_message(role: Role, text: Seq<char>) -> ChatMessageView {
    ChatMessageView {
        role,
        content: Some(ContentView::Text(text)),
        name: None,
        tool_calls: None,
        tool_call_id: None,
        usage: None,
    }
}

/// The message that reports `text` as the result of the tool call `id`.
pub open spec fn tool_result_message(id: Seq<char>, text: Seq<char>) -> ChatMessageView {
    ChatMessageView { tool_call_id: Some(id), ..text_message(Role::Tool, text) }
}

impl Clone for FunctionCall {
    fn clone(&self) -> (res: Self)
        ensures
            res == *self,
    {
        FunctionCall { name: self.name.clone(), arguments: self.arguments.clone() }
    }
}

impl Clone for ToolCall {
    fn clone(&self) -> (res: Self)
        ensures
            res == *self,
    {
        ToolCall {
            id: self.id.clone(),
            kind: self.kind.clone(),
            function: self.function.clone(),
            metadata: self.metadata.clone(),
        }
    }
}

impl Clone for ToolCallResult {
    fn clone(&self) -> (res: Self)
        ensures
            res == *self,
    {
        ToolCallResult {
            call: self.call.clone(),
            result: self.result.clone(),
            status: self.status,
        }
    }
}

impl Default for ChatMessage {
    fn default() -> (res: Self)
        ensures
            res == (ChatMessage {
                role: Role::User,
                content: None,
                name: None,
                tool_calls: None,
                tool_call_id: None,
                usage: None,
            }),
    {
        ChatMessage {
            role: Role::User,
            content: None,
            name: None,
            tool_calls: None,
            tool_call_id: None,
            usage: None,
        }
    }
}

/// The same tool calls again.
pub fn copy_calls(calls: &Vec<ToolCall>) -> (res: Vec<ToolCall>)
    ensures
        res@ == calls@,
{
    let copy = calls.clone();
    assert(copy@ =~= calls@);
    copy
}

/// A system message.
pub fn system_message(text: String) -> (res: ChatMessage)
    ensures
        res.deep_view() == text_message(Role::System, text@),
{
    ChatMessage {
        role: Role::System,
        content: Some(MessageContent::String(text)),
        ..Default::default()
    }
}

/// A message of the user.
pub fn user_message(text: String) -> (res: ChatMessage)
    ensures
        res.deep_view() == text_message(Role::User, text@),
{
    ChatMessage {
        role: Role::User,
        content: Some(MessageContent::String(text)),
        ..Default::default()
    }
}

/// The message that reports `text` as the result of the tool call `id`.
pub fn tool_result(id: String, text: String) -> (res: ChatMessage)
    ensures
        res.deep_view() == tool_result_message(id@, text@),
{
    ChatMessage {
        role: Role::Tool,
        content: Some(MessageContent::String(text)),
        tool_call_id: Some(id),
        ..Default::default()
    }
}

} // verus!
