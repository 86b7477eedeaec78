use pgpt::error::Error;
use pgpt::gpt::{dollars, Amount, GPTMessage, GPTQuery, GPTQueryBuilder, GPTRole, GPTUsage};
use pgpt::model::Model;

fn usage(prompt_tokens: i32, completion_tokens: i32) -> GPTUsage {
    GPTUsage { completion_tokens, prompt_tokens, total_tokens: prompt_tokens.wrapping_add(completion_tokens) }
}

#[test]
fn total_cost_adds_both_prices() {
    // 1000 prompt tokens at 500 and 2000 completion tokens at 1500.
    assert_eq!(usage(1000, 2000).total_cost(&Model::GPT3), 3_500_000);
    assert_eq!(usage(1000, 2000).total_cost(&Model::GPT4), 70_000_000);
    assert_eq!(usage(1000, 2000).total_cost(&Model::GPT4o), 35_000_000);
    assert_eq!(usage(1, 0).total_cost(&Model::GPT3), 500);
    assert_eq!(usage(0, 1).total_cost(&Model::GPT3), 1_500);
}

#[test]
fn total_cost_of_nothing_is_nothing() {
    assert_eq!(usage(0, 0).total_cost(&Model::GPT4), 0);
}

#[test]
fn total_cost_at_the_limits_does_not_overflow() {
    assert_eq!(
        usage(i32::MAX, i32::MAX).total_cost(&Model::GPT4),
        2_147_483_647i64 * 40_000
    );
    assert_eq!(
        usage(i32::MIN, i32::MIN).total_cost(&Model::GPT4),
        -2_147_483_648i64 * 40_000
    );
}

#[test]
fn builder_starts_empty() {
    let builder = GPTQueryBuilder::new();
    assert!(builder.model.is_none());
    assert!(builder.messages.is_empty());
    let builder = GPTQuery::builder();
    assert!(builder.model.is_none());
    assert!(builder.messages.is_empty());
}

#[test]
fn build_without_model_fails() {
    let mut builder = GPTQuery::builder();
    builder.message(GPTRole::User, "hello");
    assert_eq!(builder.build().err(), Some(Error::MissingModel));
    assert_eq!(GPTQuery::builder().build().err(), Some(Error::MissingModel));
}

#[test]
fn build_without_messages_fails() {
    let mut builder = GPTQuery::builder();
    builder.model(&Model::GPT4);
    assert_eq!(builder.build().err(), Some(Error::NoMessages));
}

#[test]
fn build_keeps_model_and_messages_in_order() {
    let mut builder = GPTQuery::builder();
    builder
        .model(&Model::GPT3)
        .message(GPTRole::System, "be brief")
        .message(GPTRole::User, "hello")
        .model(&Model::GPT4);
    let query = builder.build().expect("a model and two messages");
    assert_eq!(query.model, "gpt-4-turbo");
    assert_eq!(query.messages.len(), 2);
    assert_eq!(query.messages[0].role, GPTRole::System);
    assert_eq!(query.messages[0].content, "be brief");
    assert_eq!(query.messages[1].role, GPTRole::User);
    assert_eq!(query.messages[1].content, "hello");
    // The builder is left as it was and builds the same again.
    assert_eq!(builder.build().expect("unchanged builder").messages.len(), 2);
}

#[test]
fn a_copy_of_a_message_holds_the_same() {
    let message = GPTMessage { role: GPTRole::Assistant, content: "hi".to_string() };
    let copy = message.clone();
    assert_eq!(copy.role, GPTRole::Assistant);
    assert_eq!(copy.content, "hi");
}

#[test]
fn a_cost_is_shown_in_dollars_and_millionths() {
    assert_eq!(dollars(700_000), Amount { negative: false, dollars: 0, millionths: 700 });
    assert_eq!(dollars(1_234_567_000), Amount { negative: false, dollars: 1, millionths: 234_567 });
    assert_eq!(dollars(35_000), Amount { negative: false, dollars: 0, millionths: 35 });
    assert_eq!(dollars(0), Amount { negative: false, dollars: 0, millionths: 0 });
}

#[test]
fn a_cost_is_rounded_to_the_nearest_millionth() {
    assert_eq!(dollars(499), Amount { negative: false, dollars: 0, millionths: 0 });
    assert_eq!(dollars(500), Amount { negative: false, dollars: 0, millionths: 1 });
    assert_eq!(dollars(1_499), Amount { negative: false, dollars: 0, millionths: 1 });
    assert_eq!(dollars(1_234_567_890), Amount { negative: false, dollars: 1, millionths: 234_568 });
    assert_eq!(dollars(999_999_500), Amount { negative: false, dollars: 1, millionths: 0 });
}

#[test]
fn a_negative_cost_keeps_its_sign() {
    assert_eq!(dollars(-1_500), Amount { negative: true, dollars: 0, millionths: 2 });
    assert_eq!(dollars(-2_000_000_000), Amount { negative: true, dollars: 2, millionths: 0 });
    assert_eq!(dollars(-1), Amount { negative: true, dollars: 0, millionths: 0 });
}

#[test]
fn a_cost_at_the_limits_does_not_overflow() {
    assert_eq!(
        dollars(i64::MAX),
        Amount { negative: false, dollars: 9_223_372_036, millionths: 854_776 }
    );
    assert_eq!(
        dollars(i64::MIN),
        Amount { negative: true, dollars: 9_223_372_036, millionths: 854_776 }
    );
}
