use std::sync::Arc;

use pgpt::cache::CacheValue;
use pgpt::cli::QueryArgs;
use pgpt::error::Error;
use pgpt::gpt::{GPTChoice, GPTMessage, GPTResponse, GPTRole, GPTUsage};
use pgpt::model::Model;
use pgpt::query::{conclude_query, context_window, get_model, prepare_query, query_context};
use pgpt::settings::Config;

fn args(query: &str, model: Option<Model>, context: Option<usize>, cost: bool) -> QueryArgs {
    QueryArgs { model, query: query.to_string(), cost, context, show_context: false }
}

fn config(model: Model, cache_length: usize, context: usize) -> Config {
    Config { api_key: "sk-abc123".to_string(), model, cache_length, context }
}

fn pair(name: &str) -> CacheValue {
    CacheValue { prompt: format!("{name}?"), response: format!("{name}!") }
}

fn cache(names: &[&str]) -> Vec<CacheValue> {
    names.iter().map(|n| pair(n)).collect()
}

fn prompts(cache: &[CacheValue]) -> Vec<String> {
    cache.iter().map(|p| p.prompt.clone()).collect()
}

fn answer(contents: &[&str], prompt_tokens: i32, completion_tokens: i32) -> GPTResponse {
    GPTResponse {
        choices: contents
            .iter()
            .enumerate()
            .map(|(i, content)| GPTChoice {
                finish_reason: "stop".to_string(),
                index: i as i32,
                message: GPTMessage { role: GPTRole::Assistant, content: content.to_string() },
            })
            .collect(),
        created: 1_700_000_000,
        id: "chatcmpl-1".to_string(),
        model: "gpt-4-turbo-2024-04-09".to_string(),
        object: "chat.completion".to_string(),
        usage: GPTUsage {
            completion_tokens,
            prompt_tokens,
            total_tokens: prompt_tokens + completion_tokens,
        },
    }
}

#[test]
fn the_model_of_the_query_wins_over_the_configured_one() {
    let chosen = get_model(
        Arc::new(args("q", Some(Model::GPT4o), None, false)),
        Arc::new(config(Model::GPT3, 5, 0)),
    );
    assert_eq!(chosen, Model::GPT4o);
}

#[test]
fn without_a_model_the_configured_one_is_used() {
    let chosen = get_model(Arc::new(args("q", None, None, false)), Arc::new(config(Model::GPT4, 5, 0)));
    assert_eq!(chosen, Model::GPT4);
}

#[test]
fn the_window_of_the_query_wins_over_the_configured_one() {
    assert_eq!(context_window(&args("q", None, Some(2), false), &config(Model::GPT3, 5, 4)), 2);
    assert_eq!(context_window(&args("q", None, None, false), &config(Model::GPT3, 5, 4)), 4);
    assert_eq!(context_window(&args("q", None, Some(0), false), &config(Model::GPT3, 5, 4)), 0);
}

#[test]
fn the_window_is_clamped_to_the_capacity() {
    assert_eq!(context_window(&args("q", None, Some(9), false), &config(Model::GPT3, 5, 0)), 5);
    assert_eq!(context_window(&args("q", None, None, false), &config(Model::GPT3, 3, 7)), 3);
    assert_eq!(context_window(&args("q", None, Some(5), false), &config(Model::GPT3, 5, 0)), 5);
    assert_eq!(context_window(&args("q", None, Some(1), false), &config(Model::GPT3, 0, 0)), 0);
}

#[test]
fn the_context_is_the_most_recent_exchanges() {
    let cached = cache(&["A", "B", "C"]);
    let context = query_context(&args("q", None, Some(2), false), &config(Model::GPT3, 5, 0), &cached);
    assert_eq!(prompts(&context), vec!["B?", "C?"]);
    let context = query_context(&args("q", None, Some(9), false), &config(Model::GPT3, 5, 0), &cached);
    assert_eq!(prompts(&context), vec!["A?", "B?", "C?"]);
    let context = query_context(&args("q", None, None, false), &config(Model::GPT3, 5, 0), &cached);
    assert!(context.is_empty());
}

#[test]
fn a_query_without_context_is_one_user_message() {
    let query = prepare_query(&args("why?", None, None, false), &config(Model::GPT3, 5, 0), &cache(&["A"]));
    assert_eq!(query.model, "gpt-3.5-turbo");
    assert_eq!(query.messages.len(), 1);
    assert_eq!(query.messages[0].role, GPTRole::User);
    assert_eq!(query.messages[0].content, "why?");
}

#[test]
fn a_query_with_context_replays_the_exchanges_first() {
    let query = prepare_query(
        &args("why?", Some(Model::GPT4), Some(2), false),
        &config(Model::GPT3, 5, 0),
        &cache(&["A", "B", "C"]),
    );
    assert_eq!(query.model, "gpt-4-turbo");
    let said: Vec<(GPTRole, &str)> =
        query.messages.iter().map(|m| (m.role, m.content.as_str())).collect();
    assert_eq!(
        said,
        vec![
            (GPTRole::User, "B?"),
            (GPTRole::Assistant, "B!"),
            (GPTRole::User, "C?"),
            (GPTRole::Assistant, "C!"),
            (GPTRole::User, "why?"),
        ]
    );
}

#[test]
fn an_answer_is_reported_and_cached() {
    let report = conclude_query(
        &answer(&["because", "or not"], 10, 20),
        &args("why?", None, None, false),
        &config(Model::GPT4, 3, 0),
        cache(&["A", "B", "C"]),
    )
    .expect("an answer with choices");
    assert_eq!(report.model, "gpt-4-turbo-2024-04-09");
    assert_eq!(report.content, "because");
    assert_eq!(report.cost, None);
    assert_eq!(prompts(&report.cache), vec!["B?", "C?", "why?"]);
    assert_eq!(report.cache[2].response, "because");
}

#[test]
fn the_cost_is_counted_where_asked_for() {
    let report = conclude_query(
        &answer(&["because"], 10, 20),
        &args("why?", None, None, true),
        &config(Model::GPT4, 3, 0),
        Vec::new(),
    )
    .expect("an answer with choices");
    // 10 tokens at 10000 and 20 tokens at 30000.
    assert_eq!(report.cost, Some(700_000));
    let report = conclude_query(
        &answer(&["because"], 10, 20),
        &args("why?", Some(Model::GPT3), None, true),
        &config(Model::GPT4, 3, 0),
        Vec::new(),
    )
    .expect("an answer with choices");
    // 10 tokens at 500 and 20 tokens at 1500.
    assert_eq!(report.cost, Some(35_000));
}

#[test]
fn with_zero_capacity_the_query_succeeds_and_nothing_is_cached() {
    let report = conclude_query(
        &answer(&["because"], 1, 1),
        &args("why?", None, None, false),
        &config(Model::GPT3, 0, 0),
        cache(&["A"]),
    )
    .expect("an answer with choices");
    assert_eq!(report.content, "because");
    assert!(report.cache.is_empty());
}

#[test]
fn an_answer_without_choices_is_an_error() {
    let report = conclude_query(
        &answer(&[], 1, 0),
        &args("why?", None, None, false),
        &config(Model::GPT3, 5, 0),
        cache(&["A"]),
    );
    assert_eq!(report.err(), Some(Error::EmptyResponse));
}
