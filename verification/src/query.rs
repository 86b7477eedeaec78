//! A query from end to end, but for the call to the chat service itself:
//! which model it goes to, which exchanges go with it as context, and what
//! its answer leaves behind in the cache.

use std::sync::Arc;
use vstd::prelude::*;
use crate::cache::{append_and_trim, keep_last, slice_for_context, CachePair, CacheValue};
use crate::cli::QueryArgs;
use crate::error::Error;
use crate::gpt::{GPTQuery, GPTResponse, GPTRole, Message, Query};
use crate::model::Model;
use crate::settings::Config;

verus! {

/// The model a query goes to: the one asked for, else the configured one.
pub open spec fn chosen_model(args: QueryArgs, config: Config) -> Model {
    match args.model {
        Some(model) => model,
        None => config.model,
    }
}

/// The number of cached exchanges a query may replay: the number asked
/// for, else the configured one, and never more than the cache keeps.
pub open spec fn window(args: QueryArgs, config: Config) -> nat {
    let wanted = match args.context {
        Some(n) => n,
        None => config.context,
    };
    if wanted <= config.cache_length {
        wanted as nat
    } else {
        config.cache_length as nat
    }
}

/// The messages of a query: every exchange of the context as what the
/// user said and what the assistant answered, oldest first, then the new
/// question.
pub open spec fn conversation(context: Seq<CachePair>, question: Seq<char>) -> Seq<Message> {
    Seq::new(
        2 * context.len() + 1,
        |i: int|
            if i == 2 * context.len() {
                Message { role: GPTRole::User, content: question }
            } else if i % 2 == 0 {
                Message { role: GPTRole::User, content: context[i / 2].prompt }
            } else {
                Message { role: GPTRole::Assistant, content: context[i / 2].response }
            },
    )
}

/// Gets the model for a query: the one given with it, else the one in the
/// configuration.
pub fn get_model(args: Arc<QueryArgs>, config: Arc<Config>) -> (model: Model)
    ensures
        model == chosen_model(*args, *config),
{
    match &args.model {
        Some(model) => *model,
        None => config.model,
    }
}

/// Gets the width of the context window for a query. A window wider than
/// the cache's capacity is clamped to it, never refused.
pub fn context_window(args: &QueryArgs, config: &Config) -> (width: usize)
    ensures
        width == window(*args, *config),
{
    let wanted = match args.context {
        Some(n) => n,
        None => config.context,
    };
    if wanted <= config.cache_length {
        wanted
    } else {
        config.cache_length
    }
}

/// Selects the exchanges that go with a query as context: the most recent
/// ones of the cache, as many as the window allows.
pub fn query_context(args: &QueryArgs, config: &Config, cache: &Vec<CacheValue>) -> (context: Vec<
    CacheValue,
>)
    ensures
        context.deep_view() == keep_last(cache.deep_view(), window(*args, *config)),
{
    slice_for_context(cache, context_window(args, config))
}

/// Builds the query that goes out: the chosen model, the context and the
/// question.
pub fn prepare_query(args: &QueryArgs, config: &Config, cache: &Vec<CacheValue>) -> (query:
    GPTQuery)
    ensures
        query@ == (Query {
            model: chosen_model(*args, *config).api_name(),
            messages: conversation(
                keep_last(cache.deep_view(), window(*args, *config)),
                args.query@,
            ),
        }),
{
    let model = match &args.model {
        Some(model) => *model,
        None => config.model,
    };
    let context = query_context(args, config, cache);
    let mut builder = GPTQuery::builder();
    builder.model(&model);
    let mut i: usize = 0;
    while i < context.len()
        invariant
            i <= context.len(),
            builder.model == Some(model),
            builder.messages.deep_view() == conversation(context.deep_view(), args.query@).subrange(
                0,
                2 * i,
            ),
        decreases context.len() - i,
    {
        builder.message(GPTRole::User, context[i].prompt.as_str());
        builder.message(GPTRole::Assistant, context[i].response.as_str());
        assert(builder.messages.deep_view() =~= conversation(
            context.deep_view(),
            args.query@,
        ).subrange(0, 2 * (i + 1)));
        i += 1;
    }
    builder.message(GPTRole::User, args.query.as_str());
    assert(builder.messages.deep_view() =~= conversation(context.deep_view(), args.query@));
    builder.build().unwrap()
}

/// What a query leaves behind once it was answered.
#[derive(Debug)]
pub struct QueryReport {
    /// The model that answered, as the service names it.
    pub model: String,
    /// The answer.
    pub content: String,
    /// What the query cost, in billionths of a dollar, where that was
    /// asked for.
    pub cost: Option<i64>,
    /// The cache to write back: the old one with this exchange appended,
    /// trimmed to the capacity.
    pub cache: Vec<CacheValue>,
}

/// Takes the answer to a query: what to show of it, and the cache with
/// the new exchange in it.
///
/// The answer is the first choice's message; an answer without a choice
/// is refused with `EmptyResponse`. The cost is counted at the prices of
/// the model the query went to. The exchange is appended to the cache and
/// the oldest ones leave until the cache fits its capacity, so that with a
/// capacity of zero nothing is remembered and the query still succeeds.
pub fn conclude_query(
    response: &GPTResponse,
    args: &QueryArgs,
    config: &Config,
    cache: Vec<CacheValue>,
) -> (report: Result<QueryReport, Error>)
    ensures
        match report {
            Ok(r) => {
                &&& response.choices@.len() > 0
                &&& r.model@ == response.model@
                &&& r.content@ == response.choices@[0].message.content@
                &&& r.cost == (if args.cost {
                    Some(response.usage.cost(chosen_model(*args, *config)) as i64)
                } else {
                    None
                })
                &&& r.cache.deep_view() == keep_last(
                    cache.deep_view().push(
                        CachePair {
                            prompt: args.query@,
                            response: response.choices@[0].message.content@,
                        },
                    ),
                    config.cache_length as nat,
                )
            },
            Err(e) => response.choices@.len() == 0 && e == Error::EmptyResponse,
        },
{
    if response.choices.len() == 0 {
        return Err(Error::EmptyResponse);
    }
    let model = match &args.model {
        Some(model) => *model,
        None => config.model,
    };
    let content = response.choices[0].message.content.clone();
    let cost = if args.cost {
        Some(response.usage.total_cost(&model))
    } else {
        None
    };
    let pair = CacheValue { prompt: args.query.clone(), response: content.clone() };
    let cache = append_and_trim(cache, pair, config.cache_length);
    Ok(QueryReport { model: response.model.clone(), content, cost, cache })
}

} // verus!
