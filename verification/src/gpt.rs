//! What is sent to the chat service and what comes back, as plain data,
//! and the builder that puts a query together.

use vstd::prelude::*;
use vstd::string::StringExecFns;
use crate::error::Error;
use crate::model::Model;

verus! {

/// Where queries are sent.
pub const COMPLETION_URL: &'static str = "https://api.openai.com/v1/chat/completions";

/// How this program names itself to the chat service.
pub const USER_AGENT: &'static str = "pgpt/0.1.0";

/// The value of the authorization header for an API key.
pub open spec fn bearer(api_key: Seq<char>) -> Seq<char> {
    "Bearer "@ + api_key
}

/// Returns the value of the authorization header for an API key.
pub fn authorization(api_key: &str) -> (value: String)
    ensures
        value@ == bearer(api_key@),
{
    let mut value = "Bearer ".to_owned();
    value.append(api_key);
    value
}

/// The answer of the chat service to one query.
#[derive(Debug)]
pub struct GPTResponse {
    pub choices: Vec<GPTChoice>,
    pub created: i64,
    pub id: String,
    pub model: String,
    pub object: String,
    pub usage: GPTUsage,
}

/// One of the completions in an answer.
#[derive(Debug)]
pub struct GPTChoice {
    pub finish_reason: String,
    pub index: i32,
    pub message: GPTMessage,
}

/// The token counts that an answer was billed for.
#[derive(Debug, Clone, Copy, PartialEq, Eq, Structural)]
pub struct GPTUsage {
    pub completion_tokens: i32,
    pub prompt_tokens: i32,
    pub total_tokens: i32,
}

impl GPTUsage {
    /// What these tokens cost with `model`, in billionths of a dollar:
    /// each prompt token and each completion token at the model's price.
    pub open spec fn cost(self, model: Model) -> int {
        self.prompt_tokens * model.prompt_price() + self.completion_tokens
            * model.completion_price()
    }

    /// Calculates the total cost of the query, in billionths of a dollar.
    pub fn total_cost(&self, model: &Model) -> (cost: i64)
        ensures
            cost == self.cost(*model),
    {
        let prompt_price: i64 = model.prompt_cost() as i64;
        let completion_price: i64 = model.completion_cost() as i64;
        let prompt_tokens: i64 = self.prompt_tokens as i64;
        let completion_tokens: i64 = self.completion_tokens as i64;
        assert(-0x8000_0000 * 30_000 <= prompt_tokens * prompt_price <= 0x8000_0000 * 30_000)
            by (nonlinear_arith)
            requires
                -0x8000_0000 <= prompt_tokens <= 0x8000_0000,
                0 <= prompt_price <= 30_000,
        ;
        assert(-0x8000_0000 * 30_000 <= completion_tokens * completion_price <= 0x8000_0000
            * 30_000) by (nonlinear_arith)
            requires
                -0x8000_0000 <= completion_tokens <= 0x8000_0000,
                0 <= completion_price <= 30_000,
        ;
        prompt_tokens * prompt_price + completion_tokens * completion_price
    }
}

/// An amount of money as it is shown: whole dollars and millionths of a
/// dollar, with the sign apart.
#[derive(Debug, Clone, Copy, PartialEq, Eq, Structural)]
pub struct Amount {
    pub negative: bool,
    pub dollars: u64,
    pub millionths: u32,
}

/// A cost in billionths of a dollar, rounded to the nearest millionth, a
/// half going away from zero, and split into dollars and millionths.
pub open spec fn shown_amount(cost: int) -> Amount {
    let magnitude = if cost < 0 {
        -cost
    } else {
        cost
    };
    let rounded = (magnitude + 500) / 1000;
    Amount {
        negative: cost < 0,
        dollars: (rounded / 1_000_000) as u64,
        millionths: (rounded % 1_000_000) as u32,
    }
}

/// Turns a cost in billionths of a dollar into the amount to show.
pub fn dollars(cost: i64) -> (amount: Amount)
    ensures
        amount == shown_amount(cost as int),
{
    let magnitude: u64 = if cost < 0 {
        (-(cost + 1)) as u64 + 1
    } else {
        cost as u64
    };
    let rounded: u64 = (magnitude + 500) / 1000;
    Amount {
        negative: cost < 0,
        dollars: rounded / 1_000_000,
        millionths: (rounded % 1_000_000) as u32,
    }
}

/// Who said a message.
#[derive(Debug, Clone, Copy, PartialEq, Eq, Structural)]
pub enum GPTRole {
    System,
    Assistant,
    User,
}

/// One message of a conversation.
#[derive(Debug)]
pub struct GPTMessage {
    pub role: GPTRole,
    pub content: String,
}

/// What a [`GPTMessage`] holds, as mathematical text.
pub struct Message {
    pub role: GPTRole,
    pub content: Seq<char>,
}

impl View for GPTMessage {
    type V = Message;

    open spec fn view(&self) -> Message {
        Message { role: self.role, content: self.content@ }
    }
}

impl DeepView for GPTMessage {
    type V = Message;

    open spec fn deep_view(&self) -> Message {
        self@
    }
}

impl Clone for GPTMessage {
    fn clone(&self) -> (copy: Self)
        ensures
            copy@ == self@,
    {
        GPTMessage { role: self.role, content: self.content.clone() }
    }
}

/// A query as it goes out: the model's API name and the conversation.
#[derive(Debug)]
pub struct GPTQuery {
    pub model: String,
    pub messages: Vec<GPTMessage>,
}

/// What a [`GPTQuery`] holds, as mathematical text.
pub struct Query {
    pub model: Seq<char>,
    pub messages: Seq<Message>,
}

impl View for GPTQuery {
    type V = Query;

    open spec fn view(&self) -> Query {
        Query { model: self.model@, messages: self.messages.deep_view() }
    }
}

/// Collects the model and the messages of a query.
pub struct GPTQueryBuilder {
    pub model: Option<Model>,
    pub messages: Vec<GPTMessage>,
}

impl GPTQueryBuilder {
    /// What the builder would build: the query, or why there is none. A
    /// missing model is reported before missing messages.
    pub open spec fn built(&self) -> Result<Query, Error> {
        match self.model {
            None => Err(Error::MissingModel),
            Some(model) => if self.messages.len() == 0 {
                Err(Error::NoMessages)
            } else {
                Ok(Query { model: model.api_name(), messages: self.messages.deep_view() })
            },
        }
    }

    /// A builder with no model and no messages.
    pub fn new() -> (builder: Self)
        ensures
            builder.model is None,
            builder.messages@.len() == 0,
    {
        GPTQueryBuilder { model: None, messages: Vec::new() }
    }

    /// Sets the model, replacing an earlier choice.
    pub fn model(&mut self, model: &Model) -> (this: &mut Self)
        ensures
            this.model == Some(*model),
            this.messages == old(self).messages,
            *final(self) == *final(this),
    {
        self.model = Some(*model);
        self
    }

    /// Adds a message to the end of the query.
    pub fn message(&mut self, role: GPTRole, content: &str) -> (this: &mut Self)
        ensures
            this.model == old(self).model,
            this.messages.deep_view() == old(self).messages.deep_view().push(
                Message { role, content: content@ },
            ),
            *final(self) == *final(this),
    {
        let message = GPTMessage { role, content: content.to_owned() };
        self.messages.push(message);
        assert(self.messages.deep_view() =~= old(self).messages.deep_view().push(
            Message { role, content: content@ },
        ));
        self
    }

    /// Builds the query.
    pub fn build(&self) -> (query: Result<GPTQuery, Error>)
        ensures
            match query {
                Ok(q) => self.built() == Ok::<Query, Error>(q@),
                Err(e) => self.built() == Err::<Query, Error>(e),
            },
    {
        let model = match self.model {
            None => { return Err(Error::MissingModel); },
            Some(model) => model,
        };
        if self.messages.len() == 0 {
            return Err(Error::NoMessages);
        }
        let mut messages: Vec<GPTMessage> = Vec::new();
        let mut i: usize = 0;
        while i < self.messages.len()
            invariant
                i <= self.messages.len(),
                messages.len() == i,
                forall|j: int| 0 <= j < i ==> messages[j]@ == self.messages[j]@,
            decreases self.messages.len() - i,
        {
            messages.push(self.messages[i].clone());
            i += 1;
        }
        assert(messages.deep_view() =~= self.messages.deep_view());
        Ok(GPTQuery { model: model.api_model(), messages })
    }
}

impl GPTQuery {
    /// Starts a query.
    pub fn builder() -> (builder: GPTQueryBuilder)
        ensures
            builder.model is None,
            builder.messages@.len() == 0,
    {
        GPTQueryBuilder::new()
    }
}

} // verus!
