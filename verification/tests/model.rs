use pgpt::error::Error;
use pgpt::model::Model;

#[test]
fn display_names_are_the_settings_names() {
    assert_eq!(Model::GPT3.to_string(), "gpt-3");
    assert_eq!(Model::GPT4.to_string(), "gpt-4");
    assert_eq!(Model::GPT4o.to_string(), "gpt-4o");
}

#[test]
fn api_names_are_the_wire_names() {
    assert_eq!(Model::GPT3.api_model(), "gpt-3.5-turbo");
    assert_eq!(Model::GPT4.api_model(), "gpt-4-turbo");
    assert_eq!(Model::GPT4o.api_model(), "gpt-4o");
}

#[test]
fn prompt_prices_per_token() {
    // 0.5, 10 and 5 dollars per million tokens, in billionths of a dollar.
    assert_eq!(Model::GPT3.prompt_cost(), 500);
    assert_eq!(Model::GPT4.prompt_cost(), 10_000);
    assert_eq!(Model::GPT4o.prompt_cost(), 5_000);
}

#[test]
fn completion_prices_per_token() {
    // 1.5, 30 and 15 dollars per million tokens, in billionths of a dollar.
    assert_eq!(Model::GPT3.completion_cost(), 1_500);
    assert_eq!(Model::GPT4.completion_cost(), 30_000);
    assert_eq!(Model::GPT4o.completion_cost(), 15_000);
}

#[test]
fn every_display_name_is_found() {
    assert_eq!(Model::from_display_name("gpt-3"), Ok(Model::GPT3));
    assert_eq!(Model::from_display_name("gpt-4"), Ok(Model::GPT4));
    assert_eq!(Model::from_display_name("gpt-4o"), Ok(Model::GPT4o));
}

#[test]
fn display_name_round_trips() {
    for model in [Model::GPT3, Model::GPT4, Model::GPT4o] {
        assert_eq!(Model::from_display_name(&model.to_string()), Ok(model));
    }
}

#[test]
fn unknown_names_are_refused() {
    for name in ["", "gpt", "gpt-5", "GPT-3", "gpt-4O", " gpt-3", "gpt-3 ", "gpt-3.5-turbo", "gpt-4-turbo"] {
        assert_eq!(Model::from_display_name(name), Err(Error::UnknownModel), "{name:?}");
    }
}

#[test]
fn parsing_goes_by_display_name() {
    assert_eq!("gpt-4o".parse::<Model>(), Ok(Model::GPT4o));
    assert_eq!("gpt-9".parse::<Model>(), Err("'gpt-9' is not a valid model".to_string()));
}

#[test]
fn invalid_name_message_quotes_the_name() {
    assert_eq!(Model::invalid_name_message("turbo"), "'turbo' is not a valid model");
    assert_eq!(Model::invalid_name_message(""), "'' is not a valid model");
}

#[test]
fn every_error_has_its_text() {
    assert_eq!(Error::MissingModel.message(), "Cannot build query without model!");
    assert_eq!(Error::NoMessages.message(), "Cannot build query with no messages!");
    assert_eq!(Error::InvalidSecret.message(), "Received empty API key");
    let all = [
        Error::NotFound,
        Error::ConfigCorrupt,
        Error::MalformedInput,
        Error::AuthenticationFailure,
        Error::InvalidSecret,
        Error::UnknownModel,
        Error::IOError,
        Error::NetworkFailure,
        Error::UpstreamError,
        Error::NoUsername,
        Error::MessageTooLong,
        Error::MissingModel,
        Error::NoMessages,
        Error::EmptyResponse,
    ];
    for (i, a) in all.iter().enumerate() {
        assert!(!a.message().is_empty());
        for b in &all[i + 1..] {
            assert_ne!(a.message(), b.message());
        }
    }
}

#[test]
fn only_not_found_starts_a_first_run() {
    assert!(Error::NotFound.starts_first_run());
    assert!(!Error::ConfigCorrupt.starts_first_run());
    assert!(!Error::MalformedInput.starts_first_run());
    assert!(!Error::AuthenticationFailure.starts_first_run());
    assert!(!Error::IOError.starts_first_run());
}
