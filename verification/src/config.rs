//! The user's settings and their built-in fall-backs.

use vstd::prelude::*;
use vstd::string::StringExecFns;

use crate::model::Config;
use crate::text::text_of;

verus! {

/// The priority of a task that is given none.
pub open spec fn builtin_priority() -> Seq<char> {
    "medium"@
}

/// The format in which deadlines are read.
pub open spec fn builtin_date_format() -> Seq<char> {
    "%Y-%m-%d"@
}

/// The settings of a user who has set nothing.
pub fn default() -> (config: Config)
    ensures
        config.default_priority matches Some(priority) && priority@ == builtin_priority(),
        config.date_format matches Some(format) && format@ == builtin_date_format(),
{
    Config {
        default_priority: Some(String::from_str("medium")),
        date_format: Some(String::from_str("%Y-%m-%d")),
    }
}

/// The settings to work with: those that were read, or the built-in ones
/// where the settings file is missing or cannot be understood.
pub fn or_default(loaded: Option<Config>) -> (config: Config)
    ensures
        loaded matches Some(given) ==> config == given,
        loaded is None ==> (config.default_priority matches Some(priority) && priority@
            == builtin_priority()) && (config.date_format matches Some(format) && format@
            == builtin_date_format()),
{
    match loaded {
        Some(given) => given,
        None => default(),
    }
}

/// The date format that the settings ask for.
pub open spec fn date_format_of(config: Config) -> Seq<char> {
    match config.date_format {
        Some(format) => format@,
        None => builtin_date_format(),
    }
}

/// Picks the date format out of the settings.
pub fn date_format(config: &Config) -> (format: &str)
    ensures
        format@ == date_format_of(*config),
{
    match &config.date_format {
        Some(format) => format.as_str(),
        None => "%Y-%m-%d",
    }
}

/// The priority of a new task: the one given, else the one from the
/// settings, else the built-in one.
pub open spec fn priority_of(given: Option<Seq<char>>, config: Config) -> Seq<char> {
    match given {
        Some(priority) => priority,
        None => match config.default_priority {
            Some(priority) => priority@,
            None => builtin_priority(),
        },
    }
}

/// Picks the priority of a new task.
pub fn priority(given: Option<&str>, config: &Config) -> (priority: String)
    ensures
        priority@ == priority_of(text_of(given), *config),
{
    match given {
        Some(text) => String::from_str(text),
        None => match &config.default_priority {
            Some(text) => text.clone(),
            None => String::from_str("medium"),
        },
    }
}

} // verus!
