//! The commands of the command line, as plain data, and what each of the
//! configuration commands decides. Reading the arguments and carrying out
//! the decisions is the caller's part.

use std::sync::Arc;
use vstd::prelude::*;
use vstd::string::StringExecFns;
use vstd::utf8::encode_utf8;
use crate::cache::{CachePair, CacheValue};
use crate::encryption::{encrypt, encrypted, nonce, sealable};
use crate::error::Error;
use crate::model::Model;
use crate::secret::{encryption_password, password_of, register_api_key, sealed_for_a_user};
use crate::settings::{Config, ConfigJSON, Settings};
use crate::text::trimmed;

verus! {

/// The command line as a whole.
#[derive(Debug)]
pub struct CLI {
    pub command: Commands,
}

/// The two things the program does.
#[derive(Debug)]
pub enum Commands {
    /// Make a query to the chat service.
    Query {
        /// The query, word by word.
        query: Vec<String>,
        /// Display the total cost associated with prompt and response.
        cost: bool,
        /// Use a specific model for the query.
        model: Option<Model>,
        /// The number of previous exchanges to include in the query.
        context: Option<usize>,
        /// Display the context that is being passed with the query.
        show_context: bool,
    },
    /// Configure settings.
    Config { config_commands: ConfigCommands },
}

/// What can be done to the configuration.
#[derive(Debug)]
pub enum ConfigCommands {
    /// Set a setting.
    Assign { config_setters: ConfigSetters },
    /// Show a setting.
    Show { config_settings: ConfigSettings },
    /// Clear what was saved.
    Clear { config_removers: ConfigRemovers },
}

/// A setting and its new value.
#[derive(Debug)]
#[allow(inconsistent_fields)]
pub enum ConfigSetters {
    /// The model to use.
    Model { value: Model },
    /// The API key.
    APIKey { value: String },
    /// The maximum number of exchanges to keep in the cache.
    CacheLength { value: usize },
    /// The default number of exchanges to send as context with a query.
    Context { value: usize },
}

/// What can be cleared.
#[derive(Debug, Clone, Copy, PartialEq, Eq, Structural)]
pub enum ConfigRemovers {
    /// The saved API key.
    APIKey,
    /// The saved exchanges.
    Cache,
}

/// What can be shown.
#[derive(Debug, Clone, Copy, PartialEq, Eq, Structural)]
pub enum ConfigSettings {
    Model,
    APIKey,
    CacheLength,
    Cache,
    Context,
    All,
}

/// A query as the user asked it.
#[derive(Debug)]
pub struct QueryArgs {
    pub model: Option<Model>,
    pub query: String,
    pub cost: bool,
    pub context: Option<usize>,
    pub show_context: bool,
}

/// The command line, sorted into the two things the program does.
#[derive(Debug)]
pub enum ParsedArgs {
    Query { args: Arc<QueryArgs> },
    Config { config: ConfigCommands },
}

/// The words with one space between each two of them.
pub open spec fn joined(words: Seq<Seq<char>>) -> Seq<char>
    decreases words.len(),
{
    if words.len() == 0 {
        Seq::empty()
    } else if words.len() == 1 {
        words[0]
    } else {
        joined(words.drop_last()) + seq![' '] + words.last()
    }
}

/// Joins the words of a query with single spaces.
pub fn join_words(words: &Vec<String>) -> (text: String)
    ensures
        text@ == joined(words.deep_view()),
{
    if words.len() == 0 {
        return String::new();
    }
    let mut text = words[0].clone();
    let mut i: usize = 1;
    assert(words.deep_view().subrange(0, 1) =~= seq![words[0]@]);
    while i < words.len()
        invariant
            1 <= i <= words.len(),
            text@ == joined(words.deep_view().subrange(0, i as int)),
        decreases words.len() - i,
    {
        proof {
            reveal_strlit(" ");
            let next = words.deep_view().subrange(0, i + 1);
            assert(next.drop_last() =~= words.deep_view().subrange(0, i as int));
            assert(next.last() == words[i as int]@);
            assert(" "@ =~= seq![' ']);
        }
        text.append(" ");
        text.append(words[i].as_str());
        i += 1;
    }
    assert(words.deep_view().subrange(0, i as int) =~= words.deep_view());
    text
}

impl Config {
    /// Sorts the command line into a query, its words joined, or a
    /// configuration command.
    pub fn parse_args(cli: CLI) -> (parsed: ParsedArgs)
        ensures
            match cli.command {
                Commands::Query { query, cost, model, context, show_context } => {
                    &&& parsed matches ParsedArgs::Query { args }
                    &&& args.query@ == joined(query.deep_view())
                    &&& args.model == model
                    &&& args.cost == cost
                    &&& args.context == context
                    &&& args.show_context == show_context
                },
                Commands::Config { config_commands } => parsed == (ParsedArgs::Config {
                    config: config_commands,
                }),
            },
    {
        match cli.command {
            Commands::Query { query, cost, model, context, show_context } => {
                let query = join_words(&query);
                let args = QueryArgs { query, model, cost, context, show_context };
                ParsedArgs::Query { args: Arc::new(args) }
            },
            Commands::Config { config_commands } => ParsedArgs::Config { config: config_commands },
        }
    }
}

/// What is to be written after a setting was set.
#[derive(Debug)]
pub enum SetOutcome {
    /// The key file, with these bytes.
    KeyFile(Vec<u8>),
    /// The settings file, with these settings.
    ConfigFile(ConfigJSON),
}

impl ConfigSetters {
    /// The settings after this setter was applied to them. The API key is
    /// no part of them.
    pub open spec fn applied(self, config: Settings) -> Settings {
        match self {
            ConfigSetters::Model { value } => Settings { model: value.display_name(), ..config },
            ConfigSetters::APIKey { value } => config,
            ConfigSetters::CacheLength { value } => Settings {
                cache_length: value as nat,
                ..config
            },
            ConfigSetters::Context { value } => Settings { context: value as nat, ..config },
        }
    }

    /// Applies the setter to the settings that were loaded and says what
    /// is to be written.
    ///
    /// A model, a cache length or a context replaces that one setting, and
    /// the settings file is written whole. An API key is trimmed and
    /// sealed for the key file; one that is empty or only whitespace is
    /// refused with `InvalidSecret`, and the other errors are those of the
    /// password, the random source and the cipher.
    pub fn set(&self, config: ConfigJSON) -> (outcome: Result<SetOutcome, Error>)
        ensures
            match *self {
                ConfigSetters::APIKey { value } => if trimmed(value@).len() == 0 {
                    outcome matches Err(e) && e == Error::InvalidSecret
                } else {
                    match outcome {
                        Ok(SetOutcome::KeyFile(bytes)) => sealed_for_a_user(
                            trimmed(value@),
                            bytes@,
                        ),
                        Ok(SetOutcome::ConfigFile(_)) => false,
                        Err(e) => {
                            ||| e == Error::NoUsername
                            ||| e == Error::IOError
                            ||| e == Error::MessageTooLong && !sealable(
                                encode_utf8(trimmed(value@)).len(),
                            )
                        },
                    }
                },
                _ => outcome matches Ok(SetOutcome::ConfigFile(written)) && written@
                    == self.applied(config@),
            },
    {
        let mut config = config;
        match self {
            ConfigSetters::APIKey { value } => {
                return match register_api_key(value.as_str()) {
                    Ok((_, bytes)) => Ok(SetOutcome::KeyFile(bytes)),
                    Err(e) => Err(e),
                };
            },
            ConfigSetters::CacheLength { value } => {
                config.cache_length = *value;
            },
            ConfigSetters::Model { value } => {
                config.model = value.to_string();
            },
            ConfigSetters::Context { value } => {
                config.context = *value;
            },
        }
        Ok(SetOutcome::ConfigFile(config))
    }
}

/// What clearing comes to.
#[derive(Debug)]
pub enum ClearAction {
    /// Delete the key file; it is `NotFound` where there is none.
    RemoveKeyFile,
    /// Overwrite the cache file with these exchanges. The file stays.
    WriteCache(Vec<CacheValue>),
}

impl ConfigRemovers {
    /// Says what clearing comes to: the key file is deleted, the cache
    /// file is overwritten with an empty cache.
    pub fn clear(&self) -> (action: ClearAction)
        ensures
            match *self {
                ConfigRemovers::APIKey => action is RemoveKeyFile,
                ConfigRemovers::Cache => action matches ClearAction::WriteCache(cache)
                    && cache@.len() == 0,
            },
    {
        match self {
            ConfigRemovers::APIKey => ClearAction::RemoveKeyFile,
            ConfigRemovers::Cache => ClearAction::WriteCache(crate::cache::clear_cache()),
        }
    }
}

/// One thing to show of the configuration.
#[derive(Debug)]
pub enum ShowLine {
    /// The model's display name.
    Model(String),
    /// The API key, encrypted and made printable.
    APIKey(String),
    /// The capacity of the cache.
    CacheLength(usize),
    /// The default context window.
    Context(usize),
    /// The heading above the cached exchanges.
    CacheTitle,
    /// One cached exchange, numbered from one, oldest first.
    CacheEntry { number: usize, total: usize, prompt: String, response: String },
    /// The hint that the cache is shown by a command of its own.
    CacheHint,
}

/// What a [`ShowLine`] holds, as mathematical values.
pub enum Line {
    Model(Seq<char>),
    APIKey(Seq<char>),
    CacheLength(nat),
    Context(nat),
    CacheTitle,
    CacheEntry { number: nat, total: nat, prompt: Seq<char>, response: Seq<char> },
    CacheHint,
}

impl View for ShowLine {
    type V = Line;

    open spec fn view(&self) -> Line {
        match *self {
            ShowLine::Model(name) => Line::Model(name@),
            ShowLine::APIKey(key) => Line::APIKey(key@),
            ShowLine::CacheLength(n) => Line::CacheLength(n as nat),
            ShowLine::Context(n) => Line::Context(n as nat),
            ShowLine::CacheTitle => Line::CacheTitle,
            ShowLine::CacheEntry { number, total, prompt, response } => Line::CacheEntry {
                number: number as nat,
                total: total as nat,
                prompt: prompt@,
                response: response@,
            },
            ShowLine::CacheHint => Line::CacheHint,
        }
    }
}

impl DeepView for ShowLine {
    type V = Line;

    open spec fn deep_view(&self) -> Line {
        self@
    }
}

impl ShowLine {
    /// The words that introduce this line.
    pub open spec fn label_text(self) -> Seq<char> {
        match self {
            ShowLine::Model(_) => "Model"@,
            ShowLine::APIKey(_) => "API Key (encrypted)"@,
            ShowLine::CacheLength(_) => "Cache Length"@,
            ShowLine::Context(_) => "Context"@,
            ShowLine::CacheTitle => "Cache"@,
            ShowLine::CacheEntry { .. } => "Cached"@,
            ShowLine::CacheHint => "To display cache, run `pgpt config show cache`"@,
        }
    }

    /// Returns the words that introduce this line.
    pub fn label(&self) -> (text: String)
        ensures
            text@ == self.label_text(),
    {
        match self {
            ShowLine::Model(_) => "Model".to_owned(),
            ShowLine::APIKey(_) => "API Key (encrypted)".to_owned(),
            ShowLine::CacheLength(_) => "Cache Length".to_owned(),
            ShowLine::Context(_) => "Context".to_owned(),
            ShowLine::CacheTitle => "Cache".to_owned(),
            ShowLine::CacheEntry { .. } => "Cached".to_owned(),
            ShowLine::CacheHint => "To display cache, run `pgpt config show cache`".to_owned(),
        }
    }
}

/// The printable text that `String::from_utf8_lossy` makes of bytes:
/// what they decode to, with the Unicode replacement character in place
/// of whatever is not UTF-8.
pub uninterp spec fn lossy_text(bytes: Seq<u8>) -> Seq<char>;

/// Calls `String::from_utf8_lossy`. Trusted: the result is the text of
/// that name; the function reads nothing but its argument and cannot fail.
#[verifier::external_body]
fn string_from_utf8_lossy(bytes: &[u8]) -> (text: String)
    ensures
        text@ == lossy_text(bytes@),
{
    String::from_utf8_lossy(bytes).into_owned()
}

/// Makes bytes printable: text where they are text, the replacement
/// character where they are not.
pub fn printable(bytes: &[u8]) -> (text: String)
    ensures
        text@ == lossy_text(bytes@),
{
    string_from_utf8_lossy(bytes)
}

/// Whether `display` is the printable text of `key` sealed under the
/// password of some user, with some nonce.
pub open spec fn displays_sealed(key: Seq<char>, display: Seq<char>) -> bool {
    exists|name: Seq<char>, nonce: Seq<u8>|
        name.len() > 0 && display == lossy_text(
            #[trigger] encrypted(encode_utf8(key), password_of(name), nonce),
        )
}

/// Makes the text under which the API key is shown: the key, sealed anew
/// for the current user and made printable. The key itself is never
/// shown. The errors are those of the password, the random source and the
/// cipher.
pub fn encrypted_key_display(api_key: &str) -> (display: Result<String, Error>)
    ensures
        match display {
            Ok(text) => displays_sealed(api_key@, text@),
            Err(e) => {
                ||| e == Error::NoUsername
                ||| e == Error::IOError
                ||| e == Error::MessageTooLong && !sealable(encode_utf8(api_key@).len())
            },
        },
{
    let password = match encryption_password() {
        Ok(p) => p,
        Err(e) => { return Err(e); },
    };
    let fresh = match nonce() {
        Ok(n) => n,
        Err(e) => { return Err(e); },
    };
    match encrypt(api_key.as_bytes(), password.as_str(), &fresh) {
        Ok(bytes) => {
            let text = printable(bytes.as_slice());
            proof {
                let name = choose|name: Seq<char>| name.len() > 0 && password@ == password_of(name);
                assert(text@ == lossy_text(
                    encrypted(encode_utf8(api_key@), password_of(name), fresh@),
                ));
            }
            Ok(text)
        },
        Err(e) => Err(e),
    }
}

impl ConfigSettings {
    /// What is shown for this setting: the one setting asked for; for the
    /// cache its heading and every exchange, oldest first and numbered
    /// from one; for all of them the four settings and a hint at the
    /// cache.
    pub open spec fn shown(self, config: Settings, key: Seq<char>, cache: Seq<CachePair>) -> Seq<
        Line,
    > {
        match self {
            ConfigSettings::Model => seq![Line::Model(config.model)],
            ConfigSettings::APIKey => seq![Line::APIKey(key)],
            ConfigSettings::CacheLength => seq![Line::CacheLength(config.cache_length)],
            ConfigSettings::Context => seq![Line::Context(config.context)],
            ConfigSettings::Cache => seq![Line::CacheTitle] + Seq::new(
                cache.len(),
                |i: int|
                    Line::CacheEntry {
                        number: (i + 1) as nat,
                        total: cache.len(),
                        prompt: cache[i].prompt,
                        response: cache[i].response,
                    },
            ),
            ConfigSettings::All => seq![
                Line::Model(config.model),
                Line::APIKey(key),
                Line::CacheLength(config.cache_length),
                Line::Context(config.context),
                Line::CacheHint,
            ],
        }
    }

    /// Whether showing this setting reads the cache.
    pub fn needs_cache(&self) -> (yes: bool)
        ensures
            yes == (*self == ConfigSettings::Cache),
    {
        match self {
            ConfigSettings::Cache => true,
            _ => false,
        }
    }

    /// Lists what is shown for this setting, given the text that stands
    /// for the API key.
    pub fn show_lines(
        &self,
        config: &ConfigJSON,
        key_display: &str,
        cache: &Vec<CacheValue>,
    ) -> (lines: Vec<ShowLine>)
        ensures
            lines.deep_view() == self.shown(config@, key_display@, cache.deep_view()),
    {
        let mut lines: Vec<ShowLine> = Vec::new();
        match self {
            ConfigSettings::Model => {
                lines.push(ShowLine::Model(config.model.clone()));
            },
            ConfigSettings::APIKey => {
                lines.push(ShowLine::APIKey(key_display.to_owned()));
            },
            ConfigSettings::CacheLength => {
                lines.push(ShowLine::CacheLength(config.cache_length));
            },
            ConfigSettings::Context => {
                lines.push(ShowLine::Context(config.context));
            },
            ConfigSettings::Cache => {
                lines.push(ShowLine::CacheTitle);
                let total = cache.len();
                let mut i: usize = 0;
                while i < total
                    invariant
                        i <= total == cache.len(),
                        lines.len() == i + 1,
                        lines[0]@ == Line::CacheTitle,
                        forall|j: int|
                            0 <= j < i ==> lines[j + 1]@ == (Line::CacheEntry {
                                number: (j + 1) as nat,
                                total: total as nat,
                                prompt: cache[j]@.prompt,
                                response: cache[j]@.response,
                            }),
                    decreases total - i,
                {
                    lines.push(
                        ShowLine::CacheEntry {
                            number: i + 1,
                            total,
                            prompt: cache[i].prompt.clone(),
                            response: cache[i].response.clone(),
                        },
                    );
                    i += 1;
                }
            },
            ConfigSettings::All => {
                lines.push(ShowLine::Model(config.model.clone()));
                lines.push(ShowLine::APIKey(key_display.to_owned()));
                lines.push(ShowLine::CacheLength(config.cache_length));
                lines.push(ShowLine::Context(config.context));
                lines.push(ShowLine::CacheHint);
            },
        }
        assert(lines.deep_view() =~= self.shown(config@, key_display@, cache.deep_view()));
        lines
    }

    /// Lists what is shown for this setting. The API key stands in it
    /// sealed and made printable, never as it is; it is sealed whatever is
    /// asked for, so the errors of [`encrypted_key_display`] are the
    /// errors here.
    pub fn show(&self, config: &ConfigJSON, api_key: &str, cache: &Vec<CacheValue>) -> (lines:
        Result<Vec<ShowLine>, Error>)
        ensures
            match lines {
                Ok(lines) => exists|display: Seq<char>|
                    #[trigger] displays_sealed(api_key@, display) && lines.deep_view()
                        == self.shown(config@, display, cache.deep_view()),
                Err(e) => {
                    ||| e == Error::NoUsername
                    ||| e == Error::IOError
                    ||| e == Error::MessageTooLong && !sealable(encode_utf8(api_key@).len())
                },
            },
    {
        match encrypted_key_display(api_key) {
            Ok(display) => {
                let lines = self.show_lines(config, display.as_str(), cache);
                assert(displays_sealed(api_key@, display@));
                Ok(lines)
            },
            Err(e) => Err(e),
        }
    }
}

} // verus!
