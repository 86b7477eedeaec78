//! The closed set of chat models, the names they go by and what a token
//! costs with each.

use vstd::prelude::*;
use vstd::string::StringExecFns;
use crate::error::Error;

verus! {

/// A supported chat model.
#[derive(Debug, Clone, Copy, PartialEq, Eq, Structural)]
pub enum Model {
    GPT3,
    GPT4,
    GPT4o,
}

impl Model {
    /// The name a user types and the settings file stores.
    pub open spec fn display_name(self) -> Seq<char> {
        match self {
            Model::GPT3 => "gpt-3"@,
            Model::GPT4 => "gpt-4"@,
            Model::GPT4o => "gpt-4o"@,
        }
    }

    /// The name the chat service knows the model by.
    pub open spec fn api_name(self) -> Seq<char> {
        match self {
            Model::GPT3 => "gpt-3.5-turbo"@,
            Model::GPT4 => "gpt-4-turbo"@,
            Model::GPT4o => "gpt-4o"@,
        }
    }

    /// Price of one prompt token, in billionths of a dollar.
    pub open spec fn prompt_price(self) -> int {
        match self {
            Model::GPT3 => 500,
            Model::GPT4 => 10_000,
            Model::GPT4o => 5_000,
        }
    }

    /// Price of one completion token, in billionths of a dollar.
    pub open spec fn completion_price(self) -> int {
        match self {
            Model::GPT3 => 1_500,
            Model::GPT4 => 30_000,
            Model::GPT4o => 15_000,
        }
    }

    /// The model that goes by `name`, if there is one. Names are matched
    /// exactly, case included.
    pub open spec fn named(name: Seq<char>) -> Option<Model> {
        if name == Model::GPT3.display_name() {
            Some(Model::GPT3)
        } else if name == Model::GPT4.display_name() {
            Some(Model::GPT4)
        } else if name == Model::GPT4o.display_name() {
            Some(Model::GPT4o)
        } else {
            None
        }
    }

    /// Returns the string representation of the model, under which
    /// [`Model::from_display_name`] finds it again.
    pub fn to_string(&self) -> (name: String)
        ensures
            name@ == self.display_name(),
            Model::named(name@) == Some(*self),
    {
        proof {
            lemma_named_display_name(*self);
        }
        match self {
            Model::GPT3 => "gpt-3".to_owned(),
            Model::GPT4 => "gpt-4".to_owned(),
            Model::GPT4o => "gpt-4o".to_owned(),
        }
    }

    /// Returns the model to use with the API.
    pub fn api_model(&self) -> (name: String)
        ensures
            name@ == self.api_name(),
    {
        match self {
            Model::GPT3 => "gpt-3.5-turbo".to_owned(),
            Model::GPT4 => "gpt-4-turbo".to_owned(),
            Model::GPT4o => "gpt-4o".to_owned(),
        }
    }

    /// Returns the price per token for the model input, in billionths of a
    /// dollar.
    pub fn prompt_cost(&self) -> (price: u64)
        ensures
            price == self.prompt_price(),
    {
        match self {
            Model::GPT3 => 500,
            Model::GPT4 => 10_000,
            Model::GPT4o => 5_000,
        }
    }

    /// Returns the price per token for the model output, in billionths of a
    /// dollar.
    pub fn completion_cost(&self) -> (price: u64)
        ensures
            price == self.completion_price(),
    {
        match self {
            Model::GPT3 => 1_500,
            Model::GPT4 => 30_000,
            Model::GPT4o => 15_000,
        }
    }

    /// Looks a model up by the name a user typed.
    pub fn from_display_name(name: &str) -> (found: Result<Model, Error>)
        ensures
            found == match Model::named(name@) {
                Some(model) => Ok::<Model, Error>(model),
                None => Err(Error::UnknownModel),
            },
    {
        let given = name.to_owned();
        if given == "gpt-3".to_owned() {
            Ok(Model::GPT3)
        } else if given == "gpt-4".to_owned() {
            Ok(Model::GPT4)
        } else if given == "gpt-4o".to_owned() {
            Ok(Model::GPT4o)
        } else {
            Err(Error::UnknownModel)
        }
    }
}

impl Model {
    /// What a user is told about a name that is no model's.
    pub open spec fn invalid_name_text(name: Seq<char>) -> Seq<char> {
        "'"@ + name + "' is not a valid model"@
    }

    /// Returns what a user is told about a name that is no model's.
    pub fn invalid_name_message(name: &str) -> (text: String)
        ensures
            text@ == Model::invalid_name_text(name@),
    {
        let mut text = "'".to_owned();
        text.append(name);
        text.append("' is not a valid model");
        text
    }
}

impl core::str::FromStr for Model {
    type Err = String;

    fn from_str(s: &str) -> (parsed: Result<Self, String>)
        ensures
            match Model::named(s@) {
                Some(model) => parsed == Ok::<Model, String>(model),
                None => parsed matches Err(text) && text@ == Model::invalid_name_text(s@),
            },
    {
        match Model::from_display_name(s) {
            Ok(model) => Ok(model),
            Err(_) => Err(Model::invalid_name_message(s)),
        }
    }
}

/// Every model is found again under its own display name, and the three
/// names are distinct.
pub proof fn lemma_named_display_name(model: Model)
    ensures
        Model::named(model.display_name()) == Some(model),
{
    reveal_strlit("gpt-3");
    reveal_strlit("gpt-4");
    reveal_strlit("gpt-4o");
    assert("gpt-3"@[4] != "gpt-4"@[4]);
    assert("gpt-3"@.len() != "gpt-4o"@.len());
    assert("gpt-4"@.len() != "gpt-4o"@.len());
}

} // verus!
