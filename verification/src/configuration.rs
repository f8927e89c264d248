//! Settings of the server: where it listens, where releases are stored, how
//! the SQLite database is opened, and the deployment environment that picks
//! the configuration file.
use vstd::prelude::*;
use crate::text::{
    all_decimal_digits, ascii_lowercase, decimal, decimal_value, digit_char, is_ascii_text,
    law_decimal_round_trip, lowercase_of, to_lowercase,
};
use vstd::string::StringExecFns;
use std::str::FromStr;

verus! {

/// A threshold for log events, ordered from the one that lets nothing through
/// to the one that lets everything through (the values of `tracing`'s
/// `LevelFilter`).
#[derive(Clone, Copy, Debug, PartialEq, Eq, Structural)]
pub enum LevelFilter {
    Off,
    Error,
    Warn,
    Info,
    Debug,
    Trace,
}

/// The same thresholds as the `log` crate names them (`log::LevelFilter`).
#[derive(Clone, Copy, Debug, PartialEq, Eq, Structural)]
pub enum LogLevelFilter {
    Off,
    Error,
    Warn,
    Info,
    Debug,
    Trace,
}

/// Rank of a threshold: 0 lets nothing through, 5 lets everything through.
pub open spec fn level_rank(l: LevelFilter) -> nat {
    match l {
        LevelFilter::Off => 0,
        LevelFilter::Error => 1,
        LevelFilter::Warn => 2,
        LevelFilter::Info => 3,
        LevelFilter::Debug => 4,
        LevelFilter::Trace => 5,
    }
}

/// Rank of a `log` threshold, on the same scale as `level_rank`.
pub open spec fn log_level_rank(l: LogLevelFilter) -> nat {
    match l {
        LogLevelFilter::Off => 0,
        LogLevelFilter::Error => 1,
        LogLevelFilter::Warn => 2,
        LogLevelFilter::Info => 3,
        LogLevelFilter::Debug => 4,
        LogLevelFilter::Trace => 5,
    }
}

/// Maps a `tracing` threshold into the `log` threshold of the same name.
pub fn convert_to_log_level_filter(level: LevelFilter) -> (r: LogLevelFilter)
    ensures
        log_level_rank(r) == level_rank(level),
{
    match level {
        LevelFilter::Off => LogLevelFilter::Off,
        LevelFilter::Error => LogLevelFilter::Error,
        LevelFilter::Warn => LogLevelFilter::Warn,
        LevelFilter::Info => LogLevelFilter::Info,
        LevelFilter::Debug => LogLevelFilter::Debug,
        LevelFilter::Trace => LogLevelFilter::Trace,
    }
}

/// The threshold of a rank on `level_rank`'s scale.
pub open spec fn level_of_rank(n: nat) -> Option<LevelFilter> {
    if n == 0 {
        Some(LevelFilter::Off)
    } else if n == 1 {
        Some(LevelFilter::Error)
    } else if n == 2 {
        Some(LevelFilter::Warn)
    } else if n == 3 {
        Some(LevelFilter::Info)
    } else if n == 4 {
        Some(LevelFilter::Debug)
    } else if n == 5 {
        Some(LevelFilter::Trace)
    } else {
        None
    }
}

/// The digits of a text read as an unsigned number: the text without one
/// leading `+`.
pub open spec fn unsigned_digits(s: Seq<char>) -> Seq<char> {
    if s.len() > 0 && s[0] == '+' {
        s.drop_first()
    } else {
        s
    }
}

/// What `tracing`'s `LevelFilter::from_str` yields for a text (`None` where it
/// reports an error): a text that reads as an unsigned number (an optional
/// `+` and at least one decimal digit) from 0 to 5 gives the threshold of that
/// rank; otherwise the empty text gives `Error`, and the six names `off`,
/// `error`, `warn`, `info`, `debug`, `trace` in any ASCII letter case give
/// their thresholds; every other text is an error.
pub open spec fn level_from_text(s: Seq<char>) -> Option<LevelFilter> {
    let digits = unsigned_digits(s);
    if digits.len() > 0 && all_decimal_digits(digits) && decimal_value(digits) <= 5 {
        level_of_rank(decimal_value(digits))
    } else {
        named_level(ascii_lowercase(s))
    }
}

/// The text of `tracing`'s `ParseLevelFilterError`.
pub open spec fn level_filter_error_text() -> Seq<char> {
    "error parsing level filter: expected one of \"off\", \"error\", \"warn\", \"info\", \"debug\", \"trace\", or a number 0-5"@
}

/// The threshold a lower case level name stands for; the empty text stands
/// for `Error`.
pub open spec fn named_level(s: Seq<char>) -> Option<LevelFilter> {
    if s == "off"@ {
        Some(LevelFilter::Off)
    } else if s == "error"@ || s.len() == 0 {
        Some(LevelFilter::Error)
    } else if s == "warn"@ {
        Some(LevelFilter::Warn)
    } else if s == "info"@ {
        Some(LevelFilter::Info)
    } else if s == "debug"@ {
        Some(LevelFilter::Debug)
    } else if s == "trace"@ {
        Some(LevelFilter::Trace)
    } else {
        None
    }
}

/// Parses a log threshold.
///
/// Trusted: calls `tracing::level_filters::LevelFilter::from_str` and maps the
/// six constants it can return to `LevelFilter`'s variants. Its source first
/// reads the text as a `usize` (an optional `+` and decimal digits) and takes
/// the values 0 to 5; failing that, it takes the empty text as `ERROR` and the
/// six names in any ASCII case (`eq_ignore_ascii_case`); anything else is its
/// `ParseLevelFilterError`, whose text is `level_filter_error_text`.
#[verifier::external_body]
fn parse_level_filter(s: &str) -> (r: Result<LevelFilter, String>)
    ensures
        r is Ok <==> level_from_text(s@) is Some,
        r is Ok ==> Some(r->Ok_0) == level_from_text(s@),
        r is Err ==> r->Err_0@ == level_filter_error_text(),
{
    match tracing::level_filters::LevelFilter::from_str(s) {
        Ok(tracing::level_filters::LevelFilter::OFF) => Ok(LevelFilter::Off),
        Ok(tracing::level_filters::LevelFilter::ERROR) => Ok(LevelFilter::Error),
        Ok(tracing::level_filters::LevelFilter::WARN) => Ok(LevelFilter::Warn),
        Ok(tracing::level_filters::LevelFilter::INFO) => Ok(LevelFilter::Info),
        Ok(tracing::level_filters::LevelFilter::DEBUG) => Ok(LevelFilter::Debug),
        // the one constant left is TRACE
        Ok(_) => Ok(LevelFilter::Trace),
        Err(e) => Err(e.to_string()),
    }
}

/// Reads a log threshold from a configuration value: the text is lower cased
/// and then parsed as `tracing` parses a `LevelFilter`.
pub fn deserialize_log_level(text: &str) -> (r: Result<LevelFilter, String>)
    ensures
        r is Ok <==> level_from_text(lowercase_of(text@)) is Some,
        r matches Ok(l) ==> level_from_text(lowercase_of(text@)) == Some(l),
        r matches Err(e) ==> e@ == level_filter_error_text(),
        is_ascii_text(text@) ==> lowercase_of(text@) == ascii_lowercase(text@),
{
    let lower = to_lowercase(text);
    parse_level_filter(lower.as_str())
}


/// Settings of the HTTP application.
#[derive(Debug, PartialEq, Eq)]
pub struct ApplicationSettings {
    pub port: u16,
    pub host: String,
    pub log_level: LevelFilter,
    /// Directory under which every project keeps its release files.
    pub release_path: String,
}

impl Default for ApplicationSettings {
    fn default() -> (r: Self)
        ensures
            r.port == 3000,
            r.host@ == "localhost"@,
            r.log_level == LevelFilter::Trace,
            r.release_path@ == "/releases"@,
    {
        ApplicationSettings {
            port: 3000,
            host: "localhost".to_owned(),
            log_level: LevelFilter::Trace,
            release_path: "/releases".to_owned(),
        }
    }
}

/// Settings of the SQLite database.
#[derive(Debug, PartialEq, Eq)]
pub struct DatabaseSettings {
    pub database_url: String,
    pub log_level: LevelFilter,
}

impl Default for DatabaseSettings {
    fn default() -> (r: Self)
        ensures
            r.database_url@ == "sqlite://botifactory.db"@,
            r.log_level == LevelFilter::Info,
    {
        DatabaseSettings {
            database_url: "sqlite://botifactory.db".to_owned(),
            log_level: LevelFilter::Info,
        }
    }
}

/// All settings of the server.
#[derive(Debug, PartialEq, Eq)]
pub struct Settings {
    pub database: DatabaseSettings,
    pub application: ApplicationSettings,
}

impl Default for Settings {
    fn default() -> (r: Self)
        ensures
            r.database.database_url@ == "sqlite://botifactory.db"@,
            r.database.log_level == LevelFilter::Info,
            r.application.port == 3000,
            r.application.host@ == "localhost"@,
            r.application.log_level == LevelFilter::Trace,
            r.application.release_path@ == "/releases"@,
    {
        Settings { database: DatabaseSettings::default(), application: ApplicationSettings::default() }
    }
}

/// SQLite journal modes (those of `sqlx::sqlite::SqliteJournalMode`).
#[derive(Clone, Copy, Debug, PartialEq, Eq, Structural)]
pub enum JournalMode {
    Delete,
    Truncate,
    Persist,
    Memory,
    Wal,
    Off,
}

/// SQLite auto-vacuum modes (those of `sqlx::sqlite::SqliteAutoVacuum`;
/// `Disabled` is the one `sqlx` calls `None`).
#[derive(Clone, Copy, Debug, PartialEq, Eq, Structural)]
pub enum AutoVacuum {
    Disabled,
    Full,
    Incremental,
}

/// How to open the SQLite database: the connection URL together with the
/// options that are set on top of what the URL says.
#[derive(Debug, PartialEq, Eq)]
pub struct SqliteOptions {
    /// The URL the options are parsed from.
    pub url: String,
    /// A database file that replaces the one the URL names.
    pub filename: Option<String>,
    pub journal_mode: JournalMode,
    pub create_if_missing: bool,
    pub auto_vacuum: AutoVacuum,
    /// Threshold at which executed statements are logged.
    pub log_statements: LogLevelFilter,
}

/// Whether `sqlx` accepts a text as a SQLite connection URL
/// (`SqliteConnectOptions::from_str` returns `Ok`).
pub uninterp spec fn sqlite_url_accepted(url: Seq<char>) -> bool;

/// Checks a SQLite connection URL.
///
/// Trusted: calls `sqlx::sqlite::SqliteConnectOptions::from_str` and reports
/// whether it returned `Ok`; the answer is named `sqlite_url_accepted`.
#[verifier::external_body]
fn sqlite_url_parses(url: &str) -> (ok: bool)
    ensures
        ok == sqlite_url_accepted(url@),
{
    sqlx::sqlite::SqliteConnectOptions::from_str(url).is_ok()
}

impl DatabaseSettings {
    /// Options that open the database at the configured URL in WAL journal
    /// mode, creating it when missing, with full auto-vacuum and statements
    /// logged at the configured threshold.
    pub fn without_db(&self) -> (r: SqliteOptions)
        requires
            sqlite_url_accepted(self.database_url@),
        ensures
            r.url@ == self.database_url@,
            r.filename is None,
            r.journal_mode == JournalMode::Wal,
            r.create_if_missing,
            r.auto_vacuum == AutoVacuum::Full,
            log_level_rank(r.log_statements) == level_rank(self.log_level),
    {
        SqliteOptions {
            url: self.database_url.clone(),
            filename: None,
            journal_mode: JournalMode::Wal,
            create_if_missing: true,
            auto_vacuum: AutoVacuum::Full,
            log_statements: convert_to_log_level_filter(self.log_level),
        }
    }

    /// The options of `without_db`, with the database file set to the
    /// configured URL text itself.
    pub fn with_db(&self) -> (r: SqliteOptions)
        requires
            sqlite_url_accepted(self.database_url@),
        ensures
            r.url@ == self.database_url@,
            r.filename matches Some(f) && f@ == self.database_url@,
            r.journal_mode == JournalMode::Wal,
            r.create_if_missing,
            r.auto_vacuum == AutoVacuum::Full,
            log_level_rank(r.log_statements) == level_rank(self.log_level),
    {
        let mut options = self.without_db();
        options.filename = Some(self.database_url.clone());
        options
    }

    /// The options of `with_db` when `sqlx` accepts the configured URL, and
    /// `None` when it does not (where opening the database must fail).
    pub fn connect_options(&self) -> (r: Option<SqliteOptions>)
        ensures
            r is Some <==> sqlite_url_accepted(self.database_url@),
            r matches Some(o) ==> {
                &&& o.url@ == self.database_url@
                &&& o.filename matches Some(f) && f@ == self.database_url@
                &&& o.journal_mode == JournalMode::Wal
                &&& o.create_if_missing
                &&& o.auto_vacuum == AutoVacuum::Full
                &&& log_level_rank(o.log_statements) == level_rank(self.log_level)
            },
    {
        if sqlite_url_parses(self.database_url.as_str()) {
            Some(self.with_db())
        } else {
            None
        }
    }
}

/// The deployment environment; it names the configuration file that is read
/// on top of the base one.
#[derive(Clone, Copy, Debug, PartialEq, Eq, Structural)]
pub enum Environment {
    Development,
    Test,
    Production,
}

/// The name of an environment.
pub open spec fn environment_name(e: Environment) -> Seq<char> {
    match e {
        Environment::Development => "development"@,
        Environment::Test => "test"@,
        Environment::Production => "production"@,
    }
}

/// The environment a (lower case) name stands for.
pub open spec fn environment_named(name: Seq<char>) -> Option<Environment> {
    if name == "development"@ {
        Some(Environment::Development)
    } else if name == "test"@ {
        Some(Environment::Test)
    } else if name == "production"@ {
        Some(Environment::Production)
    } else {
        None
    }
}

/// What follows the rejected name in the error for an unknown environment.
pub open spec fn unsupported_environment_suffix() -> Seq<char> {
    " is not a supported environment. Use 'development', 'test', or 'production'."@
}

impl Environment {
    pub fn as_str(&self) -> (s: &'static str)
        ensures
            s@ == environment_name(*self),
    {
        match self {
            Environment::Development => "development",
            Environment::Test => "test",
            Environment::Production => "production",
        }
    }
}

/// Every environment is read back from its own name: the name is ASCII,
/// already lower case, and names that environment.
pub proof fn law_environment_name_round_trip(e: Environment)
    ensures
        is_ascii_text(environment_name(e)),
        ascii_lowercase(environment_name(e)) == environment_name(e),
        environment_named(environment_name(e)) == Some(e),
{
    reveal_strlit("development");
    reveal_strlit("test");
    reveal_strlit("production");
    assert(ascii_lowercase("development"@) =~= "development"@);
    assert(ascii_lowercase("test"@) =~= "test"@);
    assert(ascii_lowercase("production"@) =~= "production"@);
    assert("development"@ != "test"@);
    assert("development"@ != "production"@);
    assert("test"@ != "production"@);
}

impl TryFrom<String> for Environment {
    type Error = String;

    /// Reads an environment from its name in any letter case.
    fn try_from(s: String) -> (r: Result<Self, Self::Error>)
        ensures
            r is Ok <==> environment_named(lowercase_of(s@)) is Some,
            r matches Ok(e) ==> environment_named(lowercase_of(s@)) == Some(e),
            r matches Err(m) ==> m@ == lowercase_of(s@) + unsupported_environment_suffix(),
            is_ascii_text(s@) ==> lowercase_of(s@) == ascii_lowercase(s@),
    {
        let lower = to_lowercase(s.as_str());
        if lower == "development".to_owned() {
            Ok(Environment::Development)
        } else if lower == "test".to_owned() {
            Ok(Environment::Test)
        } else if lower == "production".to_owned() {
            Ok(Environment::Production)
        } else {
            let mut message = lower;
            message.append(" is not a supported environment. Use 'development', 'test', or 'production'.");
            Err(message)
        }
    }
}

/// The error of `try_from` is a `String`, which no spec function can build
/// from its text, so the conversion is described by the `ensures` of
/// `try_from` itself rather than by `try_from_spec`.
impl vstd::std_specs::convert::TryFromSpecImpl<String> for Environment {
    open spec fn obeys_try_from_spec() -> bool {
        false
    }

    open spec fn try_from_spec(v: String) -> Result<Self, String> {
        arbitrary()
    }
}

/// The environment the server runs in, from the value of its environment
/// variable: `development` where the variable is unset.
pub fn environment_from_variable(value: Option<String>) -> (r: Result<Environment, String>)
    ensures
        value is None ==> r == Ok::<Environment, String>(Environment::Development),
        value matches Some(v) ==> {
            &&& (r is Ok <==> environment_named(lowercase_of(v@)) is Some)
            &&& (r matches Ok(e) ==> environment_named(lowercase_of(v@)) == Some(e))
            &&& (r matches Err(m) ==> m@ == lowercase_of(v@) + unsupported_environment_suffix())
        },
{
    match value {
        Some(v) => Environment::try_from(v),
        None => {
            let r = Environment::try_from("development".to_owned());
            proof {
                reveal_strlit("development");
                assert(ascii_lowercase("development"@) =~= "development"@);
            }
            r
        }
    }
}

/// Every threshold is read back from its rank written in decimal, and ranks
/// name thresholds one to one.
pub proof fn law_level_numbers(l: LevelFilter)
    ensures
        level_of_rank(level_rank(l)) == Some(l),
        level_from_text(decimal(level_rank(l))) == Some(l),
{
    let d = decimal(level_rank(l));
    law_decimal_round_trip(level_rank(l));
    assert(d =~= seq![digit_char(level_rank(l))]);
    assert(unsigned_digits(d) == d);
    assert(all_decimal_digits(d));
}

/// Different `log` thresholds have different ranks, so the conversion from a
/// `tracing` threshold, which keeps the rank, has exactly one answer.
pub proof fn law_log_ranks_distinct(a: LogLevelFilter, b: LogLevelFilter)
    ensures
        log_level_rank(a) == log_level_rank(b) ==> a == b,
        log_level_rank(a) <= 5,
{
}

} // verus!
