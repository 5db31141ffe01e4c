//! The parts that requests and responses share.

use vstd::prelude::*;

verus! {

#[derive(Debug, Clone, Copy, PartialEq, Eq, Structural)]
#[allow(non_camel_case_types)]
pub enum MessageRole {
    user,
    system,
    assistant,
}

/// The characters of an optional string.
pub open spec fn opt_chars(s: Option<String>) -> Option<Seq<char>> {
    match s {
        Some(s) => Some(s@),
        None => None,
    }
}

/// Copies an optional string.
pub fn clone_opt_string(s: &Option<String>) -> (copy: Option<String>)
    ensures
        opt_chars(copy) == opt_chars(*s),
{
    match s {
        Some(s) => Some(s.clone()),
        None => None,
    }
}

#[derive(Debug, PartialEq)]
pub struct FunctionCall {
    pub name: Option<String>,
    pub arguments: Option<String>,
}

pub struct FunctionCallView {
    pub name: Option<Seq<char>>,
    pub arguments: Option<Seq<char>>,
}

impl View for FunctionCall {
    type V = FunctionCallView;

    open spec fn view(&self) -> FunctionCallView {
        FunctionCallView { name: opt_chars(self.name), arguments: opt_chars(self.arguments) }
    }
}

impl Clone for FunctionCall {
    fn clone(&self) -> (copy: Self)
        ensures
            copy@ == self@,
    {
        FunctionCall {
            name: clone_opt_string(&self.name),
            arguments: clone_opt_string(&self.arguments),
        }
    }
}

#[derive(Debug, PartialEq)]
pub struct ChatCompletionMessage {
    pub role: MessageRole,
    pub content: Option<String>,
    pub name: Option<String>,
    pub function_call: Option<FunctionCall>,
}

pub struct ChatCompletionMessageView {
    pub role: MessageRole,
    pub content: Option<Seq<char>>,
    pub name: Option<Seq<char>>,
    pub function_call: Option<FunctionCallView>,
}

impl View for ChatCompletionMessage {
    type V = ChatCompletionMessageView;

    open spec fn view(&self) -> ChatCompletionMessageView {
        ChatCompletionMessageView {
            role: self.role,
            content: opt_chars(self.content),
            name: opt_chars(self.name),
            function_call: match self.function_call {
                Some(call) => Some(call@),
                None => None,
            },
        }
    }
}

impl ChatCompletionMessageView {
    /// A message that holds a role and a content and nothing else.
    pub open spec fn plain(role: MessageRole, content: Seq<char>) -> ChatCompletionMessageView {
        ChatCompletionMessageView { role, content: Some(content), name: None, function_call: None }
    }
}

impl ChatCompletionMessage {
    /// A message that holds a role and a content and nothing else.
    pub fn plain(role: MessageRole, content: String) -> (message: ChatCompletionMessage)
        ensures
            message@ == ChatCompletionMessageView::plain(role, content@),
    {
        ChatCompletionMessage { role, content: Some(content), name: None, function_call: None }
    }
}

impl Default for ChatCompletionMessage {
    /// A message of the user with no content, no name and no function call.
    fn default() -> (message: Self)
        ensures
            message@ == (ChatCompletionMessageView {
                role: MessageRole::user,
                content: None,
                name: None,
                function_call: None,
            }),
    {
        Self { role: MessageRole::user, content: None, name: None, function_call: None }
    }
}

impl Clone for ChatCompletionMessage {
    fn clone(&self) -> (copy: Self)
        ensures
            copy@ == self@,
    {
        ChatCompletionMessage {
            role: self.role,
            content: clone_opt_string(&self.content),
            name: clone_opt_string(&self.name),
            function_call: match &self.function_call {
                Some(call) => Some(call.clone()),
                None => None,
            },
        }
    }
}

/// The views of a sequence of messages, in order.
pub open spec fn message_views(messages: Seq<ChatCompletionMessage>) -> Seq<
    ChatCompletionMessageView,
> {
    messages.map_values(|m: ChatCompletionMessage| m@)
}

/// What one completion used, in tokens.
#[derive(Debug, Clone, Copy, PartialEq, Eq, Structural)]
pub struct Usage {
    pub prompt_tokens: i32,
    pub completion_tokens: i32,
    pub total_tokens: i32,
}

impl Usage {
    /// Whether the total is the sum of the two parts.
    pub open spec fn adds_up(self) -> bool {
        self.total_tokens == self.prompt_tokens + self.completion_tokens
    }
}

} // verus!
