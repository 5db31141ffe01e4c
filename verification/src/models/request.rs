//! What is sent to the completion service.

use std::collections::HashMap;
use vstd::prelude::*;
use crate::models::gpt_models::GptModel;
use crate::models::req_and_res::{
    message_views, opt_chars, ChatCompletionMessage, ChatCompletionMessageView,
};
use crate::models::temperature::Temperature;

verus! {

#[derive(Debug, PartialEq, Eq)]
pub enum JSONSchemaType {
    Object,
    Number,
    String,
    Array,
    Null,
    Boolean,
}

#[derive(Debug, PartialEq, Eq)]
pub struct JSONSchemaDefine {
    pub schema_type: Option<JSONSchemaType>,
    pub description: Option<String>,
    pub enum_values: Option<Vec<String>>,
    pub properties: Option<HashMap<String, Box<JSONSchemaDefine>>>,
    pub required: Option<Vec<String>>,
    pub items: Option<Box<JSONSchemaDefine>>,
}

#[derive(Debug, PartialEq, Eq)]
pub struct FunctionParameters {
    pub schema_type: JSONSchemaType,
    pub properties: Option<HashMap<String, Box<JSONSchemaDefine>>>,
    pub required: Option<Vec<String>>,
}

/// A function that the model may be told about.
#[derive(Debug, PartialEq, Eq)]
pub struct Function {
    pub name: String,
    pub description: Option<String>,
    pub parameters: Option<FunctionParameters>,
}

#[derive(Debug, PartialEq)]
pub struct ChatCompletionRequest {
    pub model: GptModel,
    pub messages: Vec<ChatCompletionMessage>,
    pub functions: Option<Vec<Function>>,
    pub function_call: Option<String>,
    pub temperature: Option<Temperature>,
}

/// A request as the contracts speak of it. The function declarations are
/// left as they are: the library builds no request that holds any.
pub struct ChatCompletionRequestView {
    pub model: GptModel,
    pub messages: Seq<ChatCompletionMessageView>,
    pub functions: Option<Vec<Function>>,
    pub function_call: Option<Seq<char>>,
    pub temperature: Option<Temperature>,
}

impl View for ChatCompletionRequest {
    type V = ChatCompletionRequestView;

    open spec fn view(&self) -> ChatCompletionRequestView {
        ChatCompletionRequestView {
            model: self.model,
            messages: message_views(self.messages@),
            functions: self.functions,
            function_call: opt_chars(self.function_call),
            temperature: self.temperature,
        }
    }
}

impl ChatCompletionRequestView {
    /// A request that holds messages and no function.
    pub open spec fn plain(
        model: GptModel,
        messages: Seq<ChatCompletionMessageView>,
        temperature: Option<Temperature>,
    ) -> ChatCompletionRequestView {
        ChatCompletionRequestView {
            model,
            messages,
            functions: None,
            function_call: None,
            temperature,
        }
    }
}

impl Default for ChatCompletionRequest {
    /// A request to the small model with no message, no function and no
    /// temperature.
    fn default() -> (request: Self)
        ensures
            request@ == ChatCompletionRequestView::plain(GptModel::Gpt35Turbo, Seq::empty(), None),
    {
        let request = Self {
            function_call: None,
            functions: None,
            model: GptModel::Gpt35Turbo,
            temperature: None,
            messages: Vec::new(),
        };
        assert(request@.messages =~= Seq::empty());
        request
    }
}

} // verus!
