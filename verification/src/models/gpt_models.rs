//! The models a completion can be asked of.

use vstd::prelude::*;
use crate::constants::model_strings::{
    reveal_model_strings, GPT3_5_TURBO, GPT3_5_TURBO_0613, GPT3_5_TURBO_16K, GPT4, GPT4_0314,
    GPT4_0613, GPT4_32K, GPT4_32K_0314,
};
use crate::models::strings::str_eq;

verus! {

#[derive(PartialEq, Eq, Structural, Hash, Clone, Copy, Debug)]
pub enum GptModel {
    Gpt35Turbo,
    Gpt35Turbo16k,
    Gpt35Turbo0613,
    Gpt4,
    Gpt40314,
    Gpt432k,
    Gpt432k0314,
    Gpt40613,
}

impl GptModel {
    /// The name of the model in the service's documentation.
    pub open spec fn name(self) -> Seq<char> {
        match self {
            GptModel::Gpt35Turbo => GPT3_5_TURBO@,
            GptModel::Gpt35Turbo0613 => GPT3_5_TURBO_0613@,
            GptModel::Gpt35Turbo16k => GPT3_5_TURBO_16K@,
            GptModel::Gpt4 => GPT4@,
            GptModel::Gpt40613 => GPT4_0613@,
            GptModel::Gpt40314 => GPT4_0314@,
            GptModel::Gpt432k => GPT4_32K@,
            GptModel::Gpt432k0314 => GPT4_32K_0314@,
        }
    }

    /// The model that a name stands for, if it is the name of one.
    pub open spec fn named(name: Seq<char>) -> Option<GptModel> {
        if name == GPT3_5_TURBO@ {
            Some(GptModel::Gpt35Turbo)
        } else if name == GPT3_5_TURBO_16K@ {
            Some(GptModel::Gpt35Turbo16k)
        } else if name == GPT3_5_TURBO_0613@ {
            Some(GptModel::Gpt35Turbo0613)
        } else if name == GPT4@ {
            Some(GptModel::Gpt4)
        } else if name == GPT4_0314@ {
            Some(GptModel::Gpt40314)
        } else if name == GPT4_32K@ {
            Some(GptModel::Gpt432k)
        } else if name == GPT4_32K_0314@ {
            Some(GptModel::Gpt432k0314)
        } else if name == GPT4_0613@ {
            Some(GptModel::Gpt40613)
        } else {
            None
        }
    }

    /// The model's name as the service's documentation writes it.
    pub fn to_string(&self) -> (name: String)
        ensures
            name@ == self.name(),
    {
        let name = match self {
            GptModel::Gpt35Turbo => GPT3_5_TURBO,
            GptModel::Gpt35Turbo0613 => GPT3_5_TURBO_0613,
            GptModel::Gpt35Turbo16k => GPT3_5_TURBO_16K,
            GptModel::Gpt4 => GPT4,
            GptModel::Gpt40613 => GPT4_0613,
            GptModel::Gpt40314 => GPT4_0314,
            GptModel::Gpt432k => GPT4_32K,
            GptModel::Gpt432k0314 => GPT4_32K_0314,
        };
        String::from_str(name)
    }

    /// Reads a model name; `None` where the name is that of no model.
    pub fn parse(model: &str) -> (found: Option<GptModel>)
        ensures
            found == GptModel::named(model@),
    {
        if str_eq(model, GPT3_5_TURBO) {
            Some(GptModel::Gpt35Turbo)
        } else if str_eq(model, GPT3_5_TURBO_16K) {
            Some(GptModel::Gpt35Turbo16k)
        } else if str_eq(model, GPT3_5_TURBO_0613) {
            Some(GptModel::Gpt35Turbo0613)
        } else if str_eq(model, GPT4) {
            Some(GptModel::Gpt4)
        } else if str_eq(model, GPT4_0314) {
            Some(GptModel::Gpt40314)
        } else if str_eq(model, GPT4_32K) {
            Some(GptModel::Gpt432k)
        } else if str_eq(model, GPT4_32K_0314) {
            Some(GptModel::Gpt432k0314)
        } else if str_eq(model, GPT4_0613) {
            Some(GptModel::Gpt40613)
        } else {
            None
        }
    }

    /// The model with the given name, which must be the name of a model.
    pub fn from_string(model: &String) -> (found: GptModel)
        requires
            GptModel::named(model@) is Some,
        ensures
            GptModel::named(model@) == Some(found),
    {
        GptModel::from_str(model.as_str())
    }

    /// The model with the given name, which must be the name of a model.
    pub fn from_str(model: &str) -> (found: GptModel)
        requires
            GptModel::named(model@) is Some,
        ensures
            GptModel::named(model@) == Some(found),
    {
        match GptModel::parse(model) {
            Some(found) => found,
            None => unreached(),
        }
    }

    /// Reading a model's name gives the model back.
    pub proof fn lemma_name_round_trip(self)
        ensures
            GptModel::named(self.name()) == Some(self),
    {
        reveal_model_strings();
        assert(GPT3_5_TURBO@.len() == 13);
        assert(GPT3_5_TURBO_0613@.len() == 18);
        assert(GPT3_5_TURBO_16K@.len() == 17);
        assert(GPT4@.len() == 5);
        assert(GPT4_0314@.len() == 10 && GPT4_0314@[7] == '3');
        assert(GPT4_0613@.len() == 10 && GPT4_0613@[7] == '6');
        assert(GPT4_32K@.len() == 9);
        assert(GPT4_32K_0314@.len() == 14);
    }

    /// No two models share a name.
    pub proof fn lemma_names_differ(self, other: GptModel)
        ensures
            self.name() == other.name() <==> self == other,
    {
        self.lemma_name_round_trip();
        other.lemma_name_round_trip();
    }
}

} // verus!
