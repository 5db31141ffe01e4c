//! What the completion service answers.

use vstd::prelude::*;
use crate::constants::cost_factors::{compute_cost, cost_of};
use crate::models::gpt_models::GptModel;
use crate::models::req_and_res::{ChatCompletionMessage, ChatCompletionMessageView, Usage};

verus! {

#[derive(Debug, Clone, Copy, PartialEq, Eq, Structural)]
#[allow(non_camel_case_types)]
pub enum FinishReason {
    stop,
    length,
    function_call,
    content_filter,
    null,
}

#[derive(Debug, PartialEq)]
pub struct ChatCompletionChoice {
    pub index: i64,
    pub message: ChatCompletionMessage,
    pub finish_reason: FinishReason,
}

pub struct ChatCompletionChoiceView {
    pub index: int,
    pub message: ChatCompletionMessageView,
    pub finish_reason: FinishReason,
}

impl View for ChatCompletionChoice {
    type V = ChatCompletionChoiceView;

    open spec fn view(&self) -> ChatCompletionChoiceView {
        ChatCompletionChoiceView {
            index: self.index as int,
            message: self.message@,
            finish_reason: self.finish_reason,
        }
    }
}

impl Clone for ChatCompletionChoice {
    fn clone(&self) -> (copy: Self)
        ensures
            copy@ == self@,
    {
        ChatCompletionChoice {
            index: self.index,
            message: self.message.clone(),
            finish_reason: self.finish_reason,
        }
    }
}

/// The views of a sequence of choices, in order.
pub open spec fn choice_views(choices: Seq<ChatCompletionChoice>) -> Seq<ChatCompletionChoiceView> {
    choices.map_values(|c: ChatCompletionChoice| c@)
}

#[derive(Debug, PartialEq)]
pub struct ChatCompletionResponse {
    pub id: String,
    pub object: String,
    pub created: i64,
    pub model: String,
    pub choices: Vec<ChatCompletionChoice>,
    pub usage: Usage,
}

pub struct ChatCompletionResponseView {
    pub id: Seq<char>,
    pub object: Seq<char>,
    pub created: int,
    pub model: Seq<char>,
    pub choices: Seq<ChatCompletionChoiceView>,
    pub usage: Usage,
}

impl View for ChatCompletionResponse {
    type V = ChatCompletionResponseView;

    open spec fn view(&self) -> ChatCompletionResponseView {
        ChatCompletionResponseView {
            id: self.id@,
            object: self.object@,
            created: self.created as int,
            model: self.model@,
            choices: choice_views(self.choices@),
            usage: self.usage,
        }
    }
}

impl ChatCompletionResponseView {
    /// The text of the first choice, where there is a first choice and it
    /// has a text.
    pub open spec fn first_content(self) -> Option<Seq<char>> {
        if self.choices.len() > 0 {
            self.choices[0].message.content
        } else {
            None
        }
    }
}

impl Clone for ChatCompletionResponse {
    fn clone(&self) -> (copy: Self)
        ensures
            copy@ == self@,
    {
        let mut choices: Vec<ChatCompletionChoice> = Vec::new();
        let mut i: usize = 0;
        while i < self.choices.len()
            invariant
                i <= self.choices.len(),
                choices.len() == i,
                forall|j: int| 0 <= j < i ==> choices@[j]@ == self.choices@[j]@,
            decreases self.choices.len() - i,
        {
            choices.push(self.choices[i].clone());
            i += 1;
        }
        let copy = ChatCompletionResponse {
            id: self.id.clone(),
            object: self.object.clone(),
            created: self.created,
            model: self.model.clone(),
            choices,
            usage: self.usage,
        };
        assert(copy@.choices =~= self@.choices);
        copy
    }
}

impl ChatCompletionResponse {
    /// The cost of this response under the given model, in microcents.
    pub fn cost(&self, model: &GptModel) -> (cost: i64)
        ensures
            cost == cost_of(self.usage, *model),
    {
        compute_cost(&self.usage, model)
    }

    /// The text of the first choice, where there is one.
    pub fn first_content(&self) -> (content: Option<&String>)
        ensures
            match content {
                Some(text) => self@.first_content() == Some(text@),
                None => self@.first_content() is None,
            },
    {
        if self.choices.len() > 0 {
            match &self.choices[0].message.content {
                Some(text) => Some(text),
                None => None,
            }
        } else {
            None
        }
    }
}

} // verus!
