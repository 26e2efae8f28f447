//! Configuration: a set of named text parameters, read from a JSON object
//! once and never changed afterwards.
use vstd::prelude::*;
use vstd::string::StringExecFns;
use std::collections::BTreeMap;

verus! {

/// The error type of the JSON parser; nothing is known of its values.
#[verifier::external_type_specification]
#[verifier::external_body]
pub struct ExJsonError(serde_json::Error);

/// What the JSON parser makes of `text` when a map from text to text is
/// asked for: the entries of the map, or `None` where the parser refuses
/// the text.
pub uninterp spec fn json_string_map(text: Seq<char>) -> Option<Seq<(Seq<char>, Seq<char>)>>;

/// The names and values of `entries` as plain text.
pub open spec fn plain(entries: Seq<(String, String)>) -> Seq<(Seq<char>, Seq<char>)> {
    entries.map_values(|e: (String, String)| (e.0@, e.1@))
}

/// Calls `serde_json::from_str` for a `BTreeMap<String, String>` and hands
/// out the entries of the map. The contract claims only that the outcome is
/// the one that `json_string_map` names for the text: the same text always
/// parses to the same entries, or is always refused.
#[verifier::external_body]
fn parse_string_map(text: &str) -> (r: Result<Vec<(String, String)>, serde_json::Error>)
    ensures
        match r {
            Ok(entries) => json_string_map(text@) == Some(plain(entries@)),
            Err(_) => json_string_map(text@) is None,
        },
{
    match serde_json::from_str::<BTreeMap<String, String>>(text) {
        Ok(m) => Ok(m.into_iter().collect()),
        Err(e) => Err(e),
    }
}

/// Why a configuration could not be made.
#[derive(Debug, PartialEq, Eq, Structural, Clone, Copy)]
pub enum ConfigError {
    /// The text is not a JSON object whose values are all strings.
    Malformed,
}

/// The value of the first of `entries` from `from` on whose name is `key`.
pub open spec fn lookup(entries: Seq<(Seq<char>, Seq<char>)>, key: Seq<char>, from: int) -> Option<Seq<char>>
    decreases entries.len() - from,
{
    if from < 0 || from >= entries.len() {
        None
    } else if entries[from].0 == key {
        Some(entries[from].1)
    } else {
        lookup(entries, key, from + 1)
    }
}

/// The parameters of the process, by name.
#[derive(Debug)]
pub struct Config {
    entries: Vec<(String, String)>,
}

impl Config {
    /// The parameters as pairs of name and value.
    pub closed spec fn entries(&self) -> Seq<(Seq<char>, Seq<char>)> {
        plain(self.entries@)
    }

    /// The configuration that the JSON text describes. It is made exactly
    /// if the parser takes the text as a map from text to text, and then
    /// holds the entries of that map.
    pub fn parse(text: &str) -> (r: Result<Config, ConfigError>)
        ensures
            match r {
                Ok(c) => json_string_map(text@) == Some(c.entries()),
                Err(e) => json_string_map(text@) is None && e == ConfigError::Malformed,
            },
    {
        Config::from_parsed(parse_string_map(text))
    }

    /// The configuration for an outcome of the parser: its entries where it
    /// took the text, `Malformed` where it refused.
    pub fn from_parsed(parsed: Result<Vec<(String, String)>, serde_json::Error>) -> (r: Result<
        Config,
        ConfigError,
    >)
        ensures
            match parsed {
                Ok(entries) => r matches Ok(c) && c.entries() == plain(entries@),
                Err(_) => r == Err::<Config, ConfigError>(ConfigError::Malformed),
            },
    {
        match parsed {
            Ok(entries) => Ok(Config { entries }),
            Err(_) => Err(ConfigError::Malformed),
        }
    }
}

/// The value of the parameter `key`, or `None` where the configuration has
/// no parameter of that name.
pub fn get(config: &Config, key: &str) -> (r: Option<String>)
    ensures
        match r {
            Some(v) => lookup(config.entries(), key@, 0) == Some(v@),
            None => lookup(config.entries(), key@, 0) is None,
        },
{
    let wanted = String::from_str(key);
    let n: usize = config.entries.len();
    let mut i: usize = 0;
    while i < n
        invariant
            n == config.entries@.len(),
            i <= n,
            wanted@ == key@,
            lookup(config.entries(), key@, 0) == lookup(config.entries(), key@, i as int),
        decreases n - i,
    {
        let entry = &config.entries[i];
        if entry.0 == wanted {
            return Some(entry.1.clone());
        }
        i = i + 1;
    }
    None
}

} // verus!
