use botifactory::configuration::{
    convert_to_log_level_filter, deserialize_log_level, environment_from_variable, ApplicationSettings,
    AutoVacuum, DatabaseSettings, Environment, JournalMode, LevelFilter, LogLevelFilter, Settings,
};

#[test]
fn converts_every_level_to_the_log_level_of_the_same_name() {
    assert_eq!(convert_to_log_level_filter(LevelFilter::Off), LogLevelFilter::Off);
    assert_eq!(convert_to_log_level_filter(LevelFilter::Error), LogLevelFilter::Error);
    assert_eq!(convert_to_log_level_filter(LevelFilter::Warn), LogLevelFilter::Warn);
    assert_eq!(convert_to_log_level_filter(LevelFilter::Info), LogLevelFilter::Info);
    assert_eq!(convert_to_log_level_filter(LevelFilter::Debug), LogLevelFilter::Debug);
    assert_eq!(convert_to_log_level_filter(LevelFilter::Trace), LogLevelFilter::Trace);
}

#[test]
fn reads_level_names_in_any_case() {
    assert_eq!(deserialize_log_level("info"), Ok(LevelFilter::Info));
    assert_eq!(deserialize_log_level("INFO"), Ok(LevelFilter::Info));
    assert_eq!(deserialize_log_level("Trace"), Ok(LevelFilter::Trace));
    assert_eq!(deserialize_log_level("oFF"), Ok(LevelFilter::Off));
    assert_eq!(deserialize_log_level("WARN"), Ok(LevelFilter::Warn));
    assert_eq!(deserialize_log_level("debug"), Ok(LevelFilter::Debug));
    assert_eq!(deserialize_log_level("error"), Ok(LevelFilter::Error));
}

#[test]
fn reads_level_numbers_and_the_empty_text() {
    assert_eq!(deserialize_log_level("0"), Ok(LevelFilter::Off));
    assert_eq!(deserialize_log_level("3"), Ok(LevelFilter::Info));
    assert_eq!(deserialize_log_level("5"), Ok(LevelFilter::Trace));
    assert_eq!(deserialize_log_level(""), Ok(LevelFilter::Error));
    assert_eq!(deserialize_log_level("+3"), Ok(LevelFilter::Info));
    assert_eq!(deserialize_log_level("004"), Ok(LevelFilter::Debug));
    assert_eq!(deserialize_log_level("+"), Err(level_error()));
    assert_eq!(deserialize_log_level("-1"), Err(level_error()));
    assert_eq!(deserialize_log_level(" 3"), Err(level_error()));
}

fn level_error() -> String {
    "error parsing level filter: expected one of \"off\", \"error\", \"warn\", \"info\", \"debug\", \"trace\", or a number 0-5".to_string()
}

#[test]
fn rejects_unknown_levels_with_tracings_message() {
    let expected = "error parsing level filter: expected one of \"off\", \"error\", \"warn\", \"info\", \"debug\", \"trace\", or a number 0-5";
    assert_eq!(deserialize_log_level("verbose"), Err(expected.to_string()));
    assert_eq!(deserialize_log_level("6"), Err(expected.to_string()));
}

#[test]
fn default_settings() {
    let app = ApplicationSettings::default();
    assert_eq!(app.port, 3000);
    assert_eq!(app.host, "localhost");
    assert_eq!(app.log_level, LevelFilter::Trace);
    assert_eq!(app.release_path, "/releases");
    let db = DatabaseSettings::default();
    assert_eq!(db.database_url, "sqlite://botifactory.db");
    assert_eq!(db.log_level, LevelFilter::Info);
    let all = Settings::default();
    assert_eq!(all.application, ApplicationSettings::default());
    assert_eq!(all.database, DatabaseSettings::default());
}

#[test]
fn connect_options_for_the_default_url() {
    let db = DatabaseSettings::default();
    let options = db.connect_options().expect("the default url is accepted");
    assert_eq!(options.url, "sqlite://botifactory.db");
    assert_eq!(options.filename, Some("sqlite://botifactory.db".to_string()));
    assert_eq!(options.journal_mode, JournalMode::Wal);
    assert!(options.create_if_missing);
    assert_eq!(options.auto_vacuum, AutoVacuum::Full);
    assert_eq!(options.log_statements, LogLevelFilter::Info);
    let bare = db.without_db();
    assert_eq!(bare.filename, None);
    assert_eq!(bare.url, "sqlite://botifactory.db");
}

#[test]
fn connect_options_refuse_an_unknown_url_parameter() {
    let db = DatabaseSettings {
        database_url: "sqlite://a.db?colour=blue".to_string(),
        log_level: LevelFilter::Debug,
    };
    assert_eq!(db.connect_options(), None);
    let db = DatabaseSettings { database_url: "sqlite://a.db?mode=ro".to_string(), log_level: LevelFilter::Off };
    let options = db.connect_options().expect("mode=ro is accepted");
    assert_eq!(options.log_statements, LogLevelFilter::Off);
}

#[test]
fn environment_names() {
    assert_eq!(Environment::Development.as_str(), "development");
    assert_eq!(Environment::Test.as_str(), "test");
    assert_eq!(Environment::Production.as_str(), "production");
}

#[test]
fn environment_round_trips_through_its_name() {
    for e in [Environment::Development, Environment::Test, Environment::Production] {
        assert_eq!(Environment::try_from(e.as_str().to_string()), Ok(e));
    }
}

#[test]
fn environment_is_read_in_any_case() {
    assert_eq!(Environment::try_from("PRODUCTION".to_string()), Ok(Environment::Production));
    assert_eq!(Environment::try_from("Test".to_string()), Ok(Environment::Test));
}

#[test]
fn unknown_environment_is_refused_with_its_lower_case_name() {
    assert_eq!(
        Environment::try_from("Staging".to_string()),
        Err("staging is not a supported environment. Use 'development', 'test', or 'production'.".to_string())
    );
}

#[test]
fn environment_defaults_to_development() {
    assert_eq!(environment_from_variable(None), Ok(Environment::Development));
    assert_eq!(environment_from_variable(Some("test".to_string())), Ok(Environment::Test));
    assert!(environment_from_variable(Some("qa".to_string())).is_err());
}
