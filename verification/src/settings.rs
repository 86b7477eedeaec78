//! The settings: the model, how many exchanges the cache keeps, and how
//! many of them a query replays by default.

use std::sync::Arc;
use vstd::prelude::*;
use crate::error::Error;
use crate::model::Model;

verus! {

/// The settings as the settings file holds them, the model by its display
/// name.
#[derive(Debug)]
pub struct ConfigJSON {
    pub model: String,
    pub cache_length: usize,
    pub context: usize,
}

/// What a [`ConfigJSON`] holds, as mathematical values.
pub struct Settings {
    pub model: Seq<char>,
    pub cache_length: nat,
    pub context: nat,
}

impl View for ConfigJSON {
    type V = Settings;

    open spec fn view(&self) -> Settings {
        Settings {
            model: self.model@,
            cache_length: self.cache_length as nat,
            context: self.context as nat,
        }
    }
}

impl Clone for ConfigJSON {
    fn clone(&self) -> (copy: Self)
        ensures
            copy@ == self@,
    {
        ConfigJSON {
            model: self.model.clone(),
            cache_length: self.cache_length,
            context: self.context,
        }
    }
}

/// The settings of a first run: the smallest model, a cache of five
/// exchanges, and no context replayed.
pub open spec fn default_settings() -> Settings {
    Settings { model: Model::GPT3.display_name(), cache_length: 5, context: 0 }
}

impl Default for ConfigJSON {
    fn default() -> (config: Self)
        ensures
            config@ == default_settings(),
    {
        ConfigJSON { model: Model::GPT3.to_string(), cache_length: 5, context: 0 }
    }
}

/// Everything a query needs to know: the API key and the settings, the
/// model resolved.
#[derive(Debug)]
pub struct Config {
    pub api_key: String,
    pub model: Model,
    pub cache_length: usize,
    pub context: usize,
}

impl Config {
    /// Puts the configuration together from the API key and the settings
    /// that were loaded. Settings that name no supported model are refused
    /// with `UnknownModel`.
    pub fn load_config(api_key: String, config_json: &ConfigJSON) -> (config: Result<
        Arc<Config>,
        Error,
    >)
        ensures
            match Model::named(config_json.model@) {
                Some(model) => {
                    &&& config matches Ok(c)
                    &&& c.api_key@ == api_key@
                    &&& c.model == model
                    &&& c.cache_length == config_json.cache_length
                    &&& c.context == config_json.context
                },
                None => config matches Err(e) && e == Error::UnknownModel,
            },
    {
        match Model::from_display_name(config_json.model.as_str()) {
            Ok(model) => Ok(
                Arc::new(
                    Config {
                        api_key,
                        model,
                        cache_length: config_json.cache_length,
                        context: config_json.context,
                    },
                ),
            ),
            Err(e) => Err(e),
        }
    }
}

impl Error {
    /// Whether this error, met while loading the key or the settings, only
    /// means that nothing was stored yet, so that a first run may set it
    /// up. Every other error is the user's to see.
    pub fn starts_first_run(&self) -> (yes: bool)
        ensures
            yes == (*self == Error::NotFound),
    {
        match self {
            Error::NotFound => true,
            _ => false,
        }
    }
}

} // verus!
