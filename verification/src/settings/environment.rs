//! Typed readings of single environment variables.

use std::time::Duration;

use vstd::prelude::*;

use crate::error;
use crate::error::Error;
use crate::text;

verus! {

/// Environment override for the serialized request-size ceiling.
pub const MAX_REQUEST_BODY_SIZE_ENV: &'static str = "AGENTIC_MAX_REQUEST_BODY_SIZE_BYTES";

// ---------------------------------------------------------------------------
// Values
// ---------------------------------------------------------------------------

/// Why a variable has no text.
#[derive(Debug, PartialEq, Eq)]
pub enum VarError {
    NotPresent,
    /// The variable is set to something that is no text; says what.
    NotUnicode(String),
}

/// A variable as a value.
pub enum RawVar {
    Missing,
    Unreadable(Seq<char>),
    Text(Seq<char>),
}

/// The value of a reading.
pub open spec fn raw(value: Result<String, VarError>) -> RawVar {
    match value {
        Ok(text) => RawVar::Text(text@),
        Err(VarError::NotPresent) => RawVar::Missing,
        Err(VarError::NotUnicode(why)) => RawVar::Unreadable(why@),
    }
}

/// The environment as a function: what each variable holds.
pub type RawEnvironment = spec_fn(Seq<char>) -> RawVar;

/// Every answer of `env` is what `model` says.
pub open spec fn reads<E: Fn(&str) -> Result<String, VarError>>(env: E, model: RawEnvironment) -> bool {
    forall|name: &str, value: Result<String, VarError>| #[trigger]
        call_ensures(env, (name,), value) ==> raw(value) == model(name@)
}

/// A set of settings as a function: the text of each one that is given.
pub type Environment = spec_fn(Seq<char>) -> Option<Seq<char>>;

/// Every answer of `lookup` is what `model` says.
pub open spec fn answers<F: Fn(&str) -> Option<String>>(lookup: F, model: Environment) -> bool {
    forall|name: &str, value: Option<String>| #[trigger]
        call_ensures(lookup, (name,), value) ==> text::opt_text(value) == model(name@)
}

/// The text of a variable without surrounding white space, none where it has none or
/// nothing is left of it.
pub open spec fn clean_reading(value: RawVar) -> Option<Seq<char>> {
    match value {
        RawVar::Text(text) => text::cleaned(Some(text)),
        _ => None,
    }
}

/// An environment by its clean readings.
pub open spec fn cleaned_environment(model: RawEnvironment) -> Environment {
    |name: Seq<char>| clean_reading(model(name))
}

/// A number other than zero.
#[derive(Debug, Clone, Copy, PartialEq, Eq, Structural)]
pub struct NonZeroUsize {
    value: usize,
}

impl NonZeroUsize {
    #[verifier::type_invariant]
    spec fn well_formed(self) -> bool {
        self.value > 0
    }

    /// The number.
    pub closed spec fn number(self) -> usize {
        self.value
    }

    /// `value` as a number other than zero, where it is one.
    pub fn new(value: usize) -> (r: Option<Self>)
        ensures
            match r {
                Some(nonzero) => nonzero.number() == value && value > 0,
                None => value == 0,
            },
    {
        if value == 0 {
            None
        } else {
            Some(NonZeroUsize { value })
        }
    }

    /// The number.
    pub fn get(self) -> (value: usize)
        ensures
            value == self.number(),
            value > 0,
    {
        proof {
            use_type_invariant(&self);
        }
        self.value
    }
}

/// The number of an optional setting.
pub open spec fn opt_number(value: Option<NonZeroUsize>) -> Option<usize> {
    match value {
        Some(nonzero) => Some(nonzero.number()),
        None => None,
    }
}

/// A result with its number and its error as values.
pub open spec fn number_outcome(r: Result<NonZeroUsize, Error>) -> Result<usize, Seq<char>> {
    match r {
        Ok(nonzero) => Ok(nonzero.number()),
        Err(error) => Err(error@),
    }
}

/// Where temporary `SQLite` tables live.
#[derive(Debug, Clone, Copy, PartialEq, Eq, Structural)]
pub enum SqliteTempStore {
    /// As `SQLite` was compiled.
    Default,
    File,
    Memory,
}

impl Default for SqliteTempStore {
    fn default() -> (store: Self)
        ensures
            store == SqliteTempStore::Memory,
    {
        SqliteTempStore::Memory
    }
}

/// The duration of a whole number of seconds.
pub uninterp spec fn duration_of_secs(secs: u64) -> Duration;

/// `Duration::from_secs`: the duration of that many seconds, which depends on nothing
/// else.
pub assume_specification[ Duration::from_secs ](secs: u64) -> (duration: Duration)
    ensures
        duration == duration_of_secs(secs),
;

// ---------------------------------------------------------------------------
// Models
// ---------------------------------------------------------------------------

/// What is said of a variable that cannot be read.
pub open spec fn unreadable(name: Seq<char>, why: Seq<char>) -> Seq<char> {
    "failed to read "@ + name + ": "@ + why
}

/// A reading that must be an unsigned integer.
pub open spec fn checked_unsigned(name: Seq<char>, parsed: Result<u64, Seq<char>>) -> Result<u64, Seq<char>> {
    match parsed {
        Ok(number) => Ok(number),
        Err(why) => Err(name + " must be an unsigned integer: "@ + why),
    }
}

/// A reading that must be an integer greater than zero.
pub open spec fn checked_positive(name: Seq<char>, parsed: Result<u32, Seq<char>>) -> Result<u32, Seq<char>> {
    match parsed {
        Ok(number) => if number == 0 {
            Err(name + " must be greater than 0"@)
        } else {
            Ok(number)
        },
        Err(why) => Err(name + " must be a positive integer: "@ + why),
    }
}

/// A reading that must be a number other than zero.
pub open spec fn checked_nonzero(name: Seq<char>, parsed: Result<usize, Seq<char>>) -> Result<usize, Seq<char>> {
    match parsed {
        Ok(number) => Ok(number),
        Err(why) => Err(name + " must be a positive integer: "@ + why),
    }
}

/// An unsigned integer setting: the default where the variable is not set.
pub open spec fn u64_setting(name: Seq<char>, value: RawVar, default: u64) -> Result<u64, Seq<char>> {
    match value {
        RawVar::Missing => Ok(default),
        RawVar::Unreadable(why) => Err(unreadable(name, why)),
        RawVar::Text(text) => checked_unsigned(name, text::u64_parse(text)),
    }
}

/// A positive integer setting: the default where the variable is not set.
pub open spec fn u32_setting(name: Seq<char>, value: RawVar, default: u32) -> Result<u32, Seq<char>> {
    match value {
        RawVar::Missing => Ok(default),
        RawVar::Unreadable(why) => Err(unreadable(name, why)),
        RawVar::Text(text) => checked_positive(name, text::u32_parse(text)),
    }
}

/// A size or count that is never zero: the default where the variable is not set.
pub open spec fn nonzero_setting(name: Seq<char>, value: RawVar, default: usize) -> Result<usize, Seq<char>> {
    match value {
        RawVar::Missing => Ok(default),
        RawVar::Unreadable(why) => Err(unreadable(name, why)),
        RawVar::Text(text) => checked_nonzero(name, text::nonzero_usize_parse(text)),
    }
}

/// The number other than zero that a text stands for, none where it stands for none.
pub open spec fn usable_number(value: Option<Seq<char>>) -> Option<usize> {
    match value {
        Some(text) => match text::nonzero_usize_parse(text) {
            Ok(number) => Some(number),
            Err(_) => None,
        },
        None => None,
    }
}

/// A timeout in seconds that cannot be switched off.
pub open spec fn duration_setting(name: Seq<char>, value: RawVar, default_seconds: u64) -> Result<
    Duration,
    Seq<char>,
> {
    match u64_setting(name, value, default_seconds) {
        Ok(seconds) => if seconds == 0 {
            Err(name + " must be greater than 0"@)
        } else {
            Ok(duration_of_secs(seconds))
        },
        Err(why) => Err(why),
    }
}

/// A timeout in seconds that zero switches off.
pub open spec fn optional_duration_setting(name: Seq<char>, value: RawVar, default_seconds: u64) -> Result<
    Option<Duration>,
    Seq<char>,
> {
    match u64_setting(name, value, default_seconds) {
        Ok(seconds) => Ok(
            if seconds > 0 {
                Some(duration_of_secs(seconds))
            } else {
                None
            },
        ),
        Err(why) => Err(why),
    }
}

/// The store that a keyword or its number selects.
pub open spec fn temp_store_keyword(text: Seq<char>) -> Option<SqliteTempStore> {
    let word = text::keyword(text);
    if word == "default"@ || word == "0"@ {
        Some(SqliteTempStore::Default)
    } else if word == "file"@ || word == "1"@ {
        Some(SqliteTempStore::File)
    } else if word == "memory"@ || word == "2"@ {
        Some(SqliteTempStore::Memory)
    } else {
        None
    }
}

/// The temporary store setting: memory where the variable is not set.
pub open spec fn temp_store_setting(value: RawVar) -> Result<SqliteTempStore, Seq<char>> {
    match value {
        RawVar::Missing => Ok(SqliteTempStore::Memory),
        RawVar::Unreadable(why) => Err(unreadable("SQLITE_TEMP_STORE"@, why)),
        RawVar::Text(text) => match temp_store_keyword(text) {
            Some(store) => Ok(store),
            None => Err("SQLITE_TEMP_STORE must be one of default, file, memory, 0, 1, or 2"@),
        },
    }
}

/// The request-size ceiling: argument, environment, configuration file, default, in
/// that order. With an argument the environment is not looked at.
pub open spec fn max_request_body_size_setting(
    cli: Option<usize>,
    file: Option<usize>,
    value: RawVar,
    default: usize,
) -> Result<usize, Seq<char>> {
    match cli {
        Some(size) => Ok(size),
        None => nonzero_setting(
            MAX_REQUEST_BODY_SIZE_ENV@,
            value,
            match file {
                Some(size) => size,
                None => default,
            },
        ),
    }
}

// ---------------------------------------------------------------------------
// Readings
// ---------------------------------------------------------------------------

fn unreadable_error(name: &str, why: &str) -> (error: Error)
    ensures
        error@ == unreadable(name@, why@),
{
    error::config_error("failed to read ", name, ": ", why)
}

fn zero_error(name: &str) -> (error: Error)
    ensures
        error@ == name@ + " must be greater than 0"@,
{
    Error::Config(name.to_owned().concat(" must be greater than 0"))
}

fn number_error(name: &str, expected: &str, why: &str) -> (error: Error)
    ensures
        error@ == name@ + expected@ + why@,
{
    Error::Config(name.to_owned().concat(expected).concat(why))
}

/// Hold a parsed reading to an unsigned integer setting.
///
/// # Errors
/// Names the variable where the text was no such number.
pub fn unsigned_from_parsed(name: &str, parsed: Result<u64, String>) -> (r: Result<u64, Error>)
    ensures
        error::outcome(r) == checked_unsigned(name@, text::parsed(parsed)),
{
    match parsed {
        Ok(number) => Ok(number),
        Err(why) => Err(number_error(name, " must be an unsigned integer: ", why.as_str())),
    }
}

/// Hold a parsed reading to a positive integer setting.
///
/// # Errors
/// Names the variable where the text was no such number.
pub fn positive_from_parsed(name: &str, parsed: Result<u32, String>) -> (r: Result<u32, Error>)
    ensures
        error::outcome(r) == checked_positive(name@, text::parsed(parsed)),
{
    match parsed {
        Ok(number) => {
            if number == 0 {
                return Err(zero_error(name));
            }
            Ok(number)
        },
        Err(why) => Err(number_error(name, " must be a positive integer: ", why.as_str())),
    }
}

/// Hold a parsed reading to a setting that is never zero.
///
/// # Errors
/// Names the variable where the text was no such number.
pub fn nonzero_from_parsed(name: &str, parsed: Result<NonZeroUsize, String>) -> (r: Result<NonZeroUsize, Error>)
    ensures
        number_outcome(r) == checked_nonzero(
            name@,
            match parsed {
                Ok(nonzero) => Ok(nonzero.number()),
                Err(why) => Err(why@),
            },
        ),
{
    match parsed {
        Ok(nonzero) => Ok(nonzero),
        Err(why) => Err(number_error(name, " must be a positive integer: ", why.as_str())),
    }
}

/// Read a text as a number other than zero.
pub fn parse_nonzero(value: &str) -> (r: Result<NonZeroUsize, String>)
    ensures
        match r {
            Ok(nonzero) => text::nonzero_usize_parse(value@) == Ok::<usize, Seq<char>>(nonzero.number()),
            Err(why) => text::nonzero_usize_parse(value@) == Err::<usize, Seq<char>>(why@),
        },
{
    match text::parse_nonzero_usize(value) {
        Ok(number) => Ok(NonZeroUsize { value: number }),
        Err(why) => Err(why),
    }
}

/// The number other than zero that a text stands for, none where it stands for none.
pub fn parse_usable_nonzero(value: Option<String>) -> (r: Option<NonZeroUsize>)
    ensures
        opt_number(r) == usable_number(text::opt_text(value)),
{
    match value {
        Some(text) => match parse_nonzero(text.as_str()) {
            Ok(number) => Some(number),
            Err(_) => None,
        },
        None => None,
    }
}

/// An unsigned integer setting.
///
/// # Errors
/// Names the variable where it cannot be read or holds no such number.
pub fn parse_env_u64_value(name: &str, value: Result<String, VarError>, default: u64) -> (r: Result<u64, Error>)
    ensures
        error::outcome(r) == u64_setting(name@, raw(value), default),
{
    match value {
        Ok(text) => unsigned_from_parsed(name, text::parse_u64(text.as_str())),
        Err(VarError::NotPresent) => Ok(default),
        Err(VarError::NotUnicode(why)) => Err(unreadable_error(name, why.as_str())),
    }
}

/// A positive integer setting.
///
/// # Errors
/// Names the variable where it cannot be read or holds no such number.
pub fn parse_env_u32_value(name: &str, value: Result<String, VarError>, default: u32) -> (r: Result<u32, Error>)
    ensures
        error::outcome(r) == u32_setting(name@, raw(value), default),
{
    match value {
        Ok(text) => positive_from_parsed(name, text::parse_u32(text.as_str())),
        Err(VarError::NotPresent) => Ok(default),
        Err(VarError::NotUnicode(why)) => Err(unreadable_error(name, why.as_str())),
    }
}

/// A setting that is never zero.
///
/// # Errors
/// Names the variable where it cannot be read or holds no such number.
pub fn parse_env_nonzero_usize_value(
    name: &str,
    value: Result<String, VarError>,
    default: NonZeroUsize,
) -> (r: Result<NonZeroUsize, Error>)
    ensures
        number_outcome(r) == nonzero_setting(name@, raw(value), default.number()),
{
    match value {
        Ok(text) => nonzero_from_parsed(name, parse_nonzero(text.as_str())),
        Err(VarError::NotPresent) => Ok(default),
        Err(VarError::NotUnicode(why)) => Err(unreadable_error(name, why.as_str())),
    }
}

/// A timeout in seconds that cannot be switched off.
///
/// # Errors
/// Names the variable where it cannot be read, holds no such number or is zero.
pub fn parse_env_duration_value(
    name: &str,
    value: Result<String, VarError>,
    default_seconds: u64,
) -> (r: Result<Duration, Error>)
    ensures
        error::outcome(r) == duration_setting(name@, raw(value), default_seconds),
{
    let seconds: u64 = parse_env_u64_value(name, value, default_seconds)?;
    if seconds == 0 {
        return Err(zero_error(name));
    }
    Ok(Duration::from_secs(seconds))
}

/// A timeout in seconds that zero switches off.
///
/// # Errors
/// Names the variable where it cannot be read or holds no such number.
pub fn parse_env_optional_duration_value(
    name: &str,
    value: Result<String, VarError>,
    default_seconds: u64,
) -> (r: Result<Option<Duration>, Error>)
    ensures
        error::outcome(r) == optional_duration_setting(name@, raw(value), default_seconds),
{
    let seconds: u64 = parse_env_u64_value(name, value, default_seconds)?;
    if seconds > 0 {
        Ok(Some(Duration::from_secs(seconds)))
    } else {
        Ok(None)
    }
}

/// The temporary store setting.
///
/// # Errors
/// Names the variable where it cannot be read or selects no store.
pub fn parse_env_temp_store_value(value: Result<String, VarError>) -> (r: Result<SqliteTempStore, Error>)
    ensures
        error::outcome(r) == temp_store_setting(raw(value)),
{
    match value {
        Ok(text) => {
            let word: String = text.as_str().trim().to_ascii_lowercase();
            if text::same_text(word.as_str(), "default") || text::same_text(word.as_str(), "0") {
                Ok(SqliteTempStore::Default)
            } else if text::same_text(word.as_str(), "file") || text::same_text(word.as_str(), "1") {
                Ok(SqliteTempStore::File)
            } else if text::same_text(word.as_str(), "memory") || text::same_text(word.as_str(), "2") {
                Ok(SqliteTempStore::Memory)
            } else {
                Err(
                    Error::Config(
                        "SQLITE_TEMP_STORE must be one of default, file, memory, 0, 1, or 2".to_owned(),
                    ),
                )
            }
        },
        Err(VarError::NotPresent) => Ok(SqliteTempStore::Memory),
        Err(VarError::NotUnicode(why)) => Err(unreadable_error("SQLITE_TEMP_STORE", why.as_str())),
    }
}

/// A value without surrounding white space, none where nothing is left of it.
pub fn clean_value(value: Option<String>) -> (r: Option<String>)
    ensures
        text::opt_text(r) == text::cleaned(text::opt_text(value)),
{
    text::cleaned_copy(value)
}

/// A variable without surrounding white space, none where it cannot be read or nothing
/// is left of it.
pub fn environment_value<E>(env: &E, name: &str) -> (r: Option<String>) where
    E: Fn(&str) -> Result<String, VarError>,

    requires
        call_requires(*env, (name,)),
    ensures
        exists|value: Result<String, VarError>| #[trigger]
            call_ensures(*env, (name,), value) && text::opt_text(r) == clean_reading(raw(value)),
{
    let value: Result<String, VarError> = env(name);
    let ghost answer = value;
    let text: Option<String> = match value {
        Ok(text) => Some(text),
        Err(_) => None,
    };
    let r: Option<String> = clean_value(text);
    assert(call_ensures(*env, (name,), answer) && text::opt_text(r) == clean_reading(raw(answer)));
    r
}

/// The request-size ceiling: argument, environment, configuration file, default, in
/// that order.
///
/// An explicit argument short-circuits the lower-priority sources, so a stale or
/// malformed variable inherited from the environment cannot block startup when the
/// operator names a valid value.
///
/// # Errors
/// Names the variable where it is looked at and cannot be read or holds no such number.
pub fn resolve_max_request_body_size_value(
    cli: Option<NonZeroUsize>,
    file: Option<NonZeroUsize>,
    value: Result<String, VarError>,
    default: NonZeroUsize,
) -> (r: Result<NonZeroUsize, Error>)
    ensures
        number_outcome(r) == max_request_body_size_setting(
            opt_number(cli),
            opt_number(file),
            raw(value),
            default.number(),
        ),
{
    if let Some(size) = cli {
        return Ok(size);
    }
    parse_env_nonzero_usize_value(
        MAX_REQUEST_BODY_SIZE_ENV,
        value,
        match file {
            Some(size) => size,
            None => default,
        },
    )
}

// ---------------------------------------------------------------------------
// Laws
// ---------------------------------------------------------------------------

/// A setting whose variable is not set is its default.
pub proof fn law_unset_variables_give_defaults(name: Seq<char>, word: u64, count: u32, size: usize)
    ensures
        u64_setting(name, RawVar::Missing, word) == Ok::<u64, Seq<char>>(word),
        u32_setting(name, RawVar::Missing, count) == Ok::<u32, Seq<char>>(count),
        nonzero_setting(name, RawVar::Missing, size) == Ok::<usize, Seq<char>>(size),
        temp_store_setting(RawVar::Missing) == Ok::<SqliteTempStore, Seq<char>>(SqliteTempStore::Memory),
{
}

/// The default of a setting never matters once its variable is set.
pub proof fn law_set_variables_outrank_defaults(
    name: Seq<char>,
    value: RawVar,
    words: (u64, u64),
    counts: (u32, u32),
    sizes: (usize, usize),
)
    requires
        value != RawVar::Missing,
    ensures
        u64_setting(name, value, words.0) == u64_setting(name, value, words.1),
        u32_setting(name, value, counts.0) == u32_setting(name, value, counts.1),
        nonzero_setting(name, value, sizes.0) == nonzero_setting(name, value, sizes.1),
        duration_setting(name, value, words.0) == duration_setting(name, value, words.1),
        optional_duration_setting(name, value, words.0) == optional_duration_setting(name, value, words.1),
{
}

/// A positive setting that is read from text is never zero, and stands in the text.
pub proof fn law_positive_settings_are_positive(name: Seq<char>, text: Seq<char>, count: u32, size: usize)
    ensures
        u32_setting(name, RawVar::Text(text), count) matches Ok(number) ==> number > 0
            && text::unsigned_value(text) == Some(number as nat),
        nonzero_setting(name, RawVar::Text(text), size) matches Ok(number) ==> number > 0
            && text::unsigned_value(text) == Some(number as nat),
{
}

/// An argument settles the request-size ceiling whatever the environment, the file and
/// the default hold.
pub proof fn law_argument_settles_request_size(
    size: usize,
    file: Option<usize>,
    value: RawVar,
    default: usize,
)
    ensures
        max_request_body_size_setting(Some(size), file, value, default) == Ok::<usize, Seq<char>>(size),
{
}

/// Without an argument a variable that is set decides, and the file and the default
/// never matter; with neither the file decides, and with nothing at all the default.
pub proof fn law_request_size_precedence(
    file: Option<usize>,
    other_file: Option<usize>,
    size: usize,
    value: RawVar,
    default: usize,
    other_default: usize,
)
    ensures
        value != RawVar::Missing ==> max_request_body_size_setting(None, file, value, default)
            == max_request_body_size_setting(None, other_file, value, other_default),
        max_request_body_size_setting(None, Some(size), RawVar::Missing, default) == Ok::<usize, Seq<char>>(size),
        max_request_body_size_setting(None, None, RawVar::Missing, default) == Ok::<usize, Seq<char>>(default),
{
}

/// The number that a reading gives: the default where the variable is not set, and else
/// the number that its text stands for, if that lies between `least` and `most`.
pub open spec fn number_read(value: RawVar, default: nat, least: nat, most: nat) -> Option<nat> {
    match value {
        RawVar::Missing => Some(default),
        RawVar::Unreadable(_) => None,
        RawVar::Text(text) => match text::unsigned_value(text) {
            Some(number) => if least <= number <= most {
                Some(number)
            } else {
                None
            },
            None => None,
        },
    }
}

/// A reading shows a variable as it is: its text, that it is not set, or why it is no
/// text.
pub proof fn law_readings_show_their_variable(text: String, why: String)
    ensures
        raw(Ok(text)) == RawVar::Text(text@),
        raw(Err(VarError::NotPresent)) == RawVar::Missing,
        raw(Err(VarError::NotUnicode(why))) == RawVar::Unreadable(why@),
{
}

/// A number setting is the number that is read, and refused where none is: an unsigned
/// setting takes any number that fits, a positive one and a size none but zero.
pub proof fn law_number_settings_are_the_numbers_read(name: Seq<char>, value: RawVar, word: u64, count: u32, size: usize)
    ensures
        match number_read(value, word as nat, 0, u64::MAX as nat) {
            Some(number) => u64_setting(name, value, word) == Ok::<u64, Seq<char>>(number as u64),
            None => u64_setting(name, value, word) is Err,
        },
        match number_read(value, count as nat, 1, u32::MAX as nat) {
            Some(number) => u32_setting(name, value, count) == Ok::<u32, Seq<char>>(number as u32),
            None => u32_setting(name, value, count) is Err,
        },
        match number_read(value, size as nat, 1, usize::MAX as nat) {
            Some(number) => nonzero_setting(name, value, size) == Ok::<usize, Seq<char>>(number as usize),
            None => nonzero_setting(name, value, size) is Err,
        },
{
}

/// A timeout is that many seconds; zero refuses one that cannot be switched off, and
/// switches the other kind off.
pub proof fn law_timeouts_are_the_seconds_read(name: Seq<char>, value: RawVar, seconds: u64)
    ensures
        match number_read(value, seconds as nat, 0, u64::MAX as nat) {
            Some(number) => {
                &&& number > 0 ==> duration_setting(name, value, seconds) == Ok::<Duration, Seq<char>>(
                    duration_of_secs(number as u64),
                )
                &&& number == 0 ==> duration_setting(name, value, seconds) == Err::<Duration, Seq<char>>(
                    name + " must be greater than 0"@,
                )
                &&& number > 0 ==> optional_duration_setting(name, value, seconds) == Ok::<Option<Duration>, Seq<char>>(
                    Some(duration_of_secs(number as u64)),
                )
                &&& number == 0 ==> optional_duration_setting(name, value, seconds) == Ok::<Option<Duration>, Seq<char>>(
                    None,
                )
            },
            None => duration_setting(name, value, seconds) is Err && optional_duration_setting(name, value, seconds)
                is Err,
        },
{
}

/// A refusal names its variable and says why: that it cannot be read, that it is no
/// number of the kind, or that it is zero.
pub proof fn law_refusals_name_their_variable(name: Seq<char>, text: Seq<char>, why: Seq<char>, word: u64, count: u32, size: usize)
    ensures
        ({
            let message = "failed to read "@ + name + ": "@ + why;
            &&& u64_setting(name, RawVar::Unreadable(why), word) == Err::<u64, Seq<char>>(message)
            &&& u32_setting(name, RawVar::Unreadable(why), count) == Err::<u32, Seq<char>>(message)
            &&& nonzero_setting(name, RawVar::Unreadable(why), size) == Err::<usize, Seq<char>>(message)
            &&& duration_setting(name, RawVar::Unreadable(why), word) == Err::<Duration, Seq<char>>(message)
            &&& optional_duration_setting(name, RawVar::Unreadable(why), word) == Err::<Option<Duration>, Seq<char>>(
                message,
            )
        }),
        number_read(RawVar::Text(text), 0, 0, u64::MAX as nat) is None ==> ({
            let message = name + " must be an unsigned integer: "@ + text::u64_refusal(text);
            &&& u64_setting(name, RawVar::Text(text), word) == Err::<u64, Seq<char>>(message)
            &&& duration_setting(name, RawVar::Text(text), word) == Err::<Duration, Seq<char>>(message)
            &&& optional_duration_setting(name, RawVar::Text(text), word) == Err::<Option<Duration>, Seq<char>>(message)
        }),
        number_read(RawVar::Text(text), 0, 0, u32::MAX as nat) is None ==> u32_setting(name, RawVar::Text(text), count)
            == Err::<u32, Seq<char>>(name + " must be a positive integer: "@ + text::u32_refusal(text)),
        text::unsigned_value(text) == Some(0nat) ==> u32_setting(name, RawVar::Text(text), count) == Err::<u32, Seq<char>>(
            name + " must be greater than 0"@,
        ),
        number_read(RawVar::Text(text), 0, 1, usize::MAX as nat) is None ==> nonzero_setting(
            name,
            RawVar::Text(text),
            size,
        ) == Err::<usize, Seq<char>>(name + " must be a positive integer: "@ + text::nonzero_usize_refusal(text)),
{
}

/// The temporary store goes by its word or its number, in any case and with any white
/// space around it; every other text is refused.
pub proof fn law_temporary_store_goes_by_its_word(text: Seq<char>, why: Seq<char>)
    ensures
        ({
            let word = text::lower(text::trimmed(text));
            let store = temp_store_setting(RawVar::Text(text));
            &&& word == "default"@ || word == "0"@ <==> store == Ok::<SqliteTempStore, Seq<char>>(
                SqliteTempStore::Default,
            )
            &&& word == "file"@ || word == "1"@ <==> store == Ok::<SqliteTempStore, Seq<char>>(SqliteTempStore::File)
            &&& word == "memory"@ || word == "2"@ <==> store == Ok::<SqliteTempStore, Seq<char>>(
                SqliteTempStore::Memory,
            )
            &&& store matches Err(message) ==> message
                == "SQLITE_TEMP_STORE must be one of default, file, memory, 0, 1, or 2"@
        }),
        temp_store_setting(RawVar::Unreadable(why)) == Err::<SqliteTempStore, Seq<char>>(
            "failed to read SQLITE_TEMP_STORE: "@ + why,
        ),
{
    reveal_strlit("default");
    reveal_strlit("0");
    reveal_strlit("file");
    reveal_strlit("1");
    reveal_strlit("memory");
    reveal_strlit("2");
    let word = text::lower(text::trimmed(text));
    assert("default"@.len() == 7 && "memory"@.len() == 6 && "file"@.len() == 4);
    assert("0"@[0] == '0' && "1"@[0] == '1' && "2"@[0] == '2');
    assert("0"@.len() == 1 && "1"@.len() == 1 && "2"@.len() == 1);
    reveal_strlit("failed to read ");
    reveal_strlit("SQLITE_TEMP_STORE");
    reveal_strlit(": ");
    reveal_strlit("failed to read SQLITE_TEMP_STORE: ");
    assert("failed to read "@ + "SQLITE_TEMP_STORE"@ + ": "@ =~= "failed to read SQLITE_TEMP_STORE: "@);
}

/// A clean reading is the trimmed text of a variable that is set to more than white
/// space, and nothing otherwise.
pub proof fn law_clean_readings_are_trimmed(text: Seq<char>, why: Seq<char>, model: RawEnvironment, name: Seq<char>)
    ensures
        text::trimmed(text).len() > 0 ==> clean_reading(RawVar::Text(text)) == Some(text::trimmed(text)),
        text::trimmed(text).len() == 0 ==> clean_reading(RawVar::Text(text)) is None,
        clean_reading(RawVar::Missing) is None,
        clean_reading(RawVar::Unreadable(why)) is None,
        cleaned_environment(model)(name) == clean_reading(model(name)),
{
}

/// The number of a text that may be missing is the number other than zero that it
/// stands for, and none where it stands for none.
pub proof fn law_usable_numbers_are_read(text: Seq<char>)
    ensures
        usable_number(None) is None,
        match text::unsigned_value(text) {
            Some(number) => if 1 <= number <= usize::MAX {
                usable_number(Some(text)) == Some(number as usize)
            } else {
                usable_number(Some(text)) is None
            },
            None => usable_number(Some(text)) is None,
        },
{
}

/// The request-size ceiling without an argument is the number read from its own
/// variable, with the file's or else the default as the fallback.
pub proof fn law_request_size_is_read(file: Option<usize>, value: RawVar, default: usize)
    ensures
        match number_read(
            value,
            match file {
                Some(size) => size as nat,
                None => default as nat,
            },
            1,
            usize::MAX as nat,
        ) {
            Some(number) => max_request_body_size_setting(None, file, value, default) == Ok::<usize, Seq<char>>(
                number as usize,
            ),
            None => max_request_body_size_setting(None, file, value, default) is Err,
        },
        value matches RawVar::Unreadable(why) ==> max_request_body_size_setting(None, file, value, default) == Err::<
            usize,
            Seq<char>,
        >("failed to read AGENTIC_MAX_REQUEST_BODY_SIZE_BYTES: "@ + why),
{
    reveal_strlit("failed to read ");
    reveal_strlit("AGENTIC_MAX_REQUEST_BODY_SIZE_BYTES");
    reveal_strlit(": ");
    reveal_strlit("failed to read AGENTIC_MAX_REQUEST_BODY_SIZE_BYTES: ");
    assert("failed to read "@ + "AGENTIC_MAX_REQUEST_BODY_SIZE_BYTES"@ + ": "@
        =~= "failed to read AGENTIC_MAX_REQUEST_BODY_SIZE_BYTES: "@);
}

/// The number parsers return what is read: the number where there is one, and else a
/// failure that begins with the variable's name or says that it could not be read.
pub proof fn law_parsed_numbers_are_read(
    name: &str,
    value: Result<String, VarError>,
    word: u64,
    count: u32,
    size: NonZeroUsize,
    words: Result<u64, Error>,
    counts: Result<u32, Error>,
    sizes: Result<NonZeroUsize, Error>,
)
    requires
        call_ensures(parse_env_u64_value, (name, value, word), words),
        call_ensures(parse_env_u32_value, (name, value, count), counts),
        call_ensures(parse_env_nonzero_usize_value, (name, value, size), sizes),
    ensures
        match number_read(raw(value), word as nat, 0, u64::MAX as nat) {
            Some(number) => words matches Ok(parsed) && parsed == number,
            None => words is Err,
        },
        match number_read(raw(value), count as nat, 1, u32::MAX as nat) {
            Some(number) => counts matches Ok(parsed) && parsed == number,
            None => counts is Err,
        },
        match number_read(raw(value), size.number() as nat, 1, usize::MAX as nat) {
            Some(number) => sizes matches Ok(parsed) && parsed.number() == number,
            None => sizes is Err,
        },
        words matches Err(failure) ==> u64_setting(name@, raw(value), word) == Err::<u64, Seq<char>>(failure@),
        counts matches Err(failure) ==> u32_setting(name@, raw(value), count) == Err::<u32, Seq<char>>(failure@),
        sizes matches Err(failure) ==> nonzero_setting(name@, raw(value), size.number()) == Err::<usize, Seq<char>>(
            failure@,
        ),
{
    law_number_settings_are_the_numbers_read(name@, raw(value), word, count, size.number());
}

/// The timeout and store parsers return what their settings say.
pub proof fn law_parsed_timeouts_and_stores_are_read(
    name: &str,
    value: Result<String, VarError>,
    seconds: u64,
    timeout: Result<Duration, Error>,
    optional_timeout: Result<Option<Duration>, Error>,
    store: Result<SqliteTempStore, Error>,
)
    requires
        call_ensures(parse_env_duration_value, (name, value, seconds), timeout),
        call_ensures(parse_env_optional_duration_value, (name, value, seconds), optional_timeout),
        call_ensures(parse_env_temp_store_value, (value,), store),
    ensures
        timeout matches Ok(duration) ==> (number_read(raw(value), seconds as nat, 1, u64::MAX as nat) matches Some(number)
            && (number > 0 && duration == duration_of_secs(number as u64))),
        optional_timeout matches Ok(duration) ==> (number_read(raw(value), seconds as nat, 0, u64::MAX as nat)
            matches Some(number) && match duration {
            Some(some) => number > 0 && some == duration_of_secs(number as u64),
            None => number == 0,
        }),
        store matches Ok(selected) ==> temp_store_setting(raw(value)) == Ok::<SqliteTempStore, Seq<char>>(selected),
        timeout matches Err(failure) ==> duration_setting(name@, raw(value), seconds) == Err::<Duration, Seq<char>>(
            failure@,
        ),
        optional_timeout matches Err(failure) ==> optional_duration_setting(name@, raw(value), seconds) == Err::<
            Option<Duration>,
            Seq<char>,
        >(failure@),
        store matches Err(failure) ==> temp_store_setting(raw(value)) == Err::<SqliteTempStore, Seq<char>>(failure@),
{
    law_timeouts_are_the_seconds_read(name@, raw(value), seconds);
}

/// A number other than zero is made from every number but zero, and is that number.
pub proof fn law_nonzero_numbers_are_kept(value: usize, r: Option<NonZeroUsize>, number: NonZeroUsize, given_back: usize)
    requires
        call_ensures(NonZeroUsize::new, (value,), r),
        call_ensures(NonZeroUsize::get, (number,), given_back),
    ensures
        r is Some <==> value > 0,
        r == Some(number) ==> given_back == value,
        opt_number(Some(number)) == Some(given_back),
        opt_number(None) is None,
{
}

/// Parsed readings are held to their kind: a number passes as it is, zero is refused
/// where it must be positive, and a text that was no number is refused with what was said
/// of it.
pub proof fn law_parsed_readings_are_held_to_their_kind(
    name: &str,
    unsigned: Result<u64, String>,
    positive: Result<u32, String>,
    nonzero: Result<NonZeroUsize, String>,
    words: Result<u64, Error>,
    counts: Result<u32, Error>,
    sizes: Result<NonZeroUsize, Error>,
)
    requires
        call_ensures(unsigned_from_parsed, (name, unsigned), words),
        call_ensures(positive_from_parsed, (name, positive), counts),
        call_ensures(nonzero_from_parsed, (name, nonzero), sizes),
    ensures
        match unsigned {
            Ok(number) => words == Ok::<u64, Error>(number),
            Err(why) => words matches Err(error) && error@ == name@ + " must be an unsigned integer: "@ + why@,
        },
        match positive {
            Ok(number) => if number == 0 {
                counts matches Err(error) && error@ == name@ + " must be greater than 0"@
            } else {
                counts == Ok::<u32, Error>(number)
            },
            Err(why) => counts matches Err(error) && error@ == name@ + " must be a positive integer: "@ + why@,
        },
        match nonzero {
            Ok(number) => sizes matches Ok(kept) && kept.number() == number.number(),
            Err(why) => sizes matches Err(error) && error@ == name@ + " must be a positive integer: "@ + why@,
        },
{
}

/// Texts are read as numbers other than zero by what they stand for, and cleaned by what
/// is left of them.
pub proof fn law_texts_are_read_and_cleaned(
    text: &str,
    value: Option<String>,
    number: Result<NonZeroUsize, String>,
    usable: Option<NonZeroUsize>,
    clean: Option<String>,
    store: SqliteTempStore,
)
    requires
        call_ensures(parse_nonzero, (text,), number),
        call_ensures(parse_usable_nonzero, (value,), usable),
        call_ensures(clean_value, (value,), clean),
        call_ensures(SqliteTempStore::default, (), store),
    ensures
        number is Ok <==> (text::unsigned_value(text@) matches Some(read) && 1 <= read <= usize::MAX),
        number matches Ok(kept) ==> text::unsigned_value(text@) == Some(kept.number() as nat),
        number matches Err(why) ==> why@ == text::nonzero_usize_refusal(text@),
        usable is Some <==> value is Some && (text::unsigned_value(value->Some_0@) matches Some(read) && 1 <= read
            <= usize::MAX),
        usable matches Some(kept) ==> text::unsigned_value(value->Some_0@) == Some(kept.number() as nat),
        clean is Some <==> value is Some && text::trimmed(value->Some_0@).len() > 0,
        clean matches Some(kept) ==> kept@ == text::trimmed(value->Some_0@),
        store is Memory,
{
}

/// What the environment gives for a variable is its trimmed text, and nothing where it
/// cannot be read or nothing is left of it.
pub proof fn law_environment_gives_trimmed_texts<E: Fn(&str) -> Result<String, VarError>>(
    env: E,
    name: &str,
    held: RawVar,
    r: Option<String>,
)
    requires
        forall|value: Result<String, VarError>| #[trigger]
            call_ensures(env, (name,), value) ==> match value {
                Ok(text) => held == RawVar::Text(text@),
                Err(_) => !(held is Text),
            },
        call_ensures(environment_value::<E>, (&env, name), r),
    ensures
        r is Some <==> (held matches RawVar::Text(text) && text::trimmed(text).len() > 0),
        r matches Some(kept) ==> kept@ == text::trimmed(held->Text_0),
{
    let args = seq![(&env, name)][0];
    assert(args.0 == &env && args.1 == name);
    let value = choose|value: Result<String, VarError>| #[trigger]
        call_ensures(env, (name,), value) && text::opt_text(r) == clean_reading(raw(value));
    assert(call_ensures(env, (name,), value));
}

/// The request-size ceiling that is returned: the argument's, or else the number read
/// from the variable, with the file's or the default as the fallback.
pub proof fn law_returned_request_size_follows_its_sources(
    cli: Option<NonZeroUsize>,
    file: Option<NonZeroUsize>,
    value: Result<String, VarError>,
    default: NonZeroUsize,
    r: Result<NonZeroUsize, Error>,
)
    requires
        call_ensures(resolve_max_request_body_size_value, (cli, file, value, default), r),
    ensures
        match cli {
            Some(size) => r matches Ok(kept) && kept.number() == size.number(),
            None => match number_read(
                raw(value),
                match file {
                    Some(size) => size.number() as nat,
                    None => default.number() as nat,
                },
                1,
                usize::MAX as nat,
            ) {
                Some(number) => r matches Ok(kept) && kept.number() == number,
                None => r is Err,
            },
        },
{
}

} // verus!
