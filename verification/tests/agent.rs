use rollbar_rust::agent::configuration::{
    Configuration, ConfigurationBuilder, FileKind, LoadedFile, TomlConfiguration,
};
use rollbar_rust::agent::errors::ErrorKind;
use rollbar_rust::agent::ini::IniSection;
use rollbar_rust::agent::rules::{to_bool, to_pair_list};
use rollbar_rust::agent::settings::{App, Format, GlobalConfiguration, LogFormat, LogLevel};
use rollbar_rust::agent::table::Table;
use rollbar_rust::types::Level;

const SAMPLE: &str = "\
[DEFAULT]
endpoint = http://localhost:9000/api/1/item/
timeout = 7
log_level = warn
statefile = /tmp/agent.state
sleep_time = 30
ext_whitelist = log txt
ext_blacklist = gz
targets = /var/log/a  /var/log/b
blacklist = secret
scrub_regex_patterns = [0-9]+ token
delete_processed_files = yes
filter_chr_attr_sequences = False
unknown = ignored

[app:web]
params.access_token = abc123
params.environment = production
targets = /var/log/web
timeout = 12
endpoint = http://example.test/
min_log_level = crit
delete_processed_files = no
log_format.default = plain
log_format.patterns = one first two second

[format:plain]
type = python
format = %(message)s
datefmt = %Y

[other]
ignored = yes
";

fn builder_for(file: &str) -> ConfigurationBuilder {
    Configuration::builder().file(file)
}

fn read(text: &str) -> Result<Configuration, ErrorKind> {
    builder_for("agent.conf")
        .process_file(LoadedFile::Text(text.to_owned()))
        .map(|b| b.build())
}

fn section(name: Option<&str>, properties: &[(&str, &str)]) -> IniSection {
    IniSection {
        name: name.map(|n| n.to_owned()),
        properties: properties.iter().map(|(k, v)| (k.to_string(), v.to_string())).collect(),
    }
}

fn app_named<'a>(conf: &'a Configuration, name: &str) -> &'a App {
    &conf.apps.entries().iter().find(|(n, _)| n == name).unwrap().1
}

#[test]
fn builder_starts_from_the_defaults() {
    let conf = Configuration::builder().build();
    assert_eq!(conf.file, "");
    assert!(!conf.dry_run);
    assert!(!conf.skip_to_end);
    assert_eq!(conf.log_level(), LogLevel::Info);
    assert_eq!(LogLevel::default(), LogLevel::Info);
    assert!(conf.apps.is_empty());
    assert!(conf.formats.is_empty());
    let g = &conf.global;
    assert_eq!(g.endpoint, "https://api.rollbar.com/api/1/item/");
    assert_eq!(g.timeout_secs, 3);
    assert_eq!(g.log_level, Level::Info);
    assert_eq!(g.statefile, "/var/cache/rollbar-agent.state");
    assert_eq!(g.sleep_time, 10);
    assert_eq!(g.ext_whitelist, vec!["log", "rollbar"]);
    assert!(g.ext_blacklist.is_empty());
    assert!(g.targets.is_empty());
    assert!(g.blacklist.is_empty());
    assert!(g.scrub_regex_patterns.is_empty());
    assert!(!g.delete_processed_files);
    assert!(!g.filter_chr_attr_sequences);
    assert!(conf.validate().is_ok());
}

#[test]
fn builder_setters() {
    let mut builder = ConfigurationBuilder::new().file("x.toml").dry_run(true).skip_to_end(true);
    builder.verbose();
    assert_eq!(builder.file_kind(), FileKind::Toml);
    let conf = builder.build();
    assert_eq!(conf.file, "x.toml");
    assert!(conf.dry_run);
    assert!(conf.skip_to_end);
    assert_eq!(conf.log_level(), LogLevel::Debug);
    let mut quiet = ConfigurationBuilder::new();
    quiet.verbose();
    quiet.quiet();
    assert_eq!(quiet.build().log_level(), LogLevel::Warning);
}

#[test]
fn file_kind_goes_by_the_end_of_the_name() {
    assert_eq!(builder_for("rollbar-agent.conf").file_kind(), FileKind::Ini);
    assert_eq!(builder_for("a.toml").file_kind(), FileKind::Toml);
    assert_eq!(builder_for("a.conf.toml").file_kind(), FileKind::Toml);
    assert_eq!(builder_for("a.toml.conf").file_kind(), FileKind::Ini);
    assert_eq!(builder_for("conf").file_kind(), FileKind::Other);
    assert_eq!(builder_for("").file_kind(), FileKind::Other);
    assert_eq!(builder_for("a.CONF").file_kind(), FileKind::Other);
}

#[test]
fn ini_file_is_read_in_full() {
    let conf = read(SAMPLE).unwrap();
    let g = &conf.global;
    assert_eq!(g.endpoint, "http://localhost:9000/api/1/item/");
    assert_eq!(g.timeout_secs, 7);
    assert_eq!(g.log_level, Level::Warning);
    assert_eq!(g.statefile, "/tmp/agent.state");
    assert_eq!(g.sleep_time, 30);
    assert_eq!(g.ext_whitelist, vec!["log", "txt"]);
    assert_eq!(g.ext_blacklist, vec!["gz"]);
    assert_eq!(g.targets, vec!["/var/log/a", "/var/log/b"]);
    assert_eq!(g.blacklist, vec!["secret"]);
    assert_eq!(g.scrub_regex_patterns, vec!["[0-9]+", "token"]);
    assert!(g.delete_processed_files);
    assert!(!g.filter_chr_attr_sequences);

    assert_eq!(conf.apps.len(), 1);
    let app = app_named(&conf, "web");
    assert_eq!(app.name, "web");
    assert_eq!(app.timeout_secs, Some(12));
    assert_eq!(app.endpoint.as_deref(), Some("http://example.test/"));
    assert_eq!(app.targets, Some(vec!["/var/log/web".to_owned()]));
    assert_eq!(app.min_log_level, Some(Level::Critical));
    assert_eq!(app.delete_processed_files, Some(false));
    assert_eq!(app.filter_chr_attr_sequences, None);
    assert_eq!(app.ext_whitelist, None);
    let params = app.params.as_ref().unwrap();
    assert_eq!(
        params.entries(),
        &vec![
            ("access_token".to_owned(), "abc123".to_owned()),
            ("environment".to_owned(), "production".to_owned()),
        ]
    );
    let log_format = app.log_format.as_ref().unwrap();
    assert_eq!(log_format.default.as_deref(), Some("plain"));
    assert_eq!(
        log_format.patterns,
        Some(vec![
            vec!["one".to_owned(), "first".to_owned()],
            vec!["two".to_owned(), "second".to_owned()],
        ])
    );

    assert_eq!(conf.formats.len(), 1);
    let (name, format) = &conf.formats.entries()[0];
    assert_eq!(name, "plain");
    assert_eq!(format.name, "plain");
    assert_eq!(format.ty, "python");
    assert_eq!(format.format, "%(message)s");
    assert_eq!(format.datefmt.as_deref(), Some("%Y"));
    assert!(conf.validate().is_ok());
}

#[test]
fn ini_text_that_cannot_be_parsed_fails_the_file() {
    match read("[app:web\ntargets = x\n") {
        Err(ErrorKind::ProcessFileFailed) => {}
        other => panic!("{:?}", other.map(|c| c.file)),
    }
}

#[test]
fn file_that_was_not_loaded_fails_unless_its_name_is_unknown() {
    assert!(matches!(
        builder_for("a.conf").process_file(LoadedFile::Unread),
        Err(ErrorKind::ProcessFileFailed)
    ));
    assert!(matches!(
        builder_for("a.toml").process_file(LoadedFile::Unread),
        Err(ErrorKind::ProcessFileFailed)
    ));
    assert!(matches!(
        builder_for("a.toml").process_file(LoadedFile::Text(String::new())),
        Err(ErrorKind::ProcessFileFailed)
    ));
    let passed = builder_for("a.yaml").process_file(LoadedFile::Unread).unwrap().build();
    assert_eq!(passed.file, "a.yaml");
    assert!(passed.apps.is_empty());
    let untouched = builder_for("readme")
        .process_file(LoadedFile::Text(SAMPLE.to_owned()))
        .unwrap()
        .build();
    assert!(untouched.apps.is_empty());
    assert_eq!(untouched.global.timeout_secs, 3);
}

#[test]
fn bad_numbers_are_reported_with_their_key_and_value() {
    match read("[DEFAULT]\nendpoint = e\ntimeout = soon\n") {
        Err(ErrorKind::BadInput(key, value)) => {
            assert_eq!(key, "timeout");
            assert_eq!(value, "soon");
        }
        _ => panic!("expected a bad timeout"),
    }
    match read("[DEFAULT]\nsleep_time = -1\n") {
        Err(ErrorKind::BadInput(key, value)) => {
            assert_eq!(key, "sleep_time");
            assert_eq!(value, "-1");
        }
        _ => panic!("expected a bad sleep_time"),
    }
    match read("[app:a]\ntimeout = 1.5\n") {
        Err(ErrorKind::BadInput(key, value)) => {
            assert_eq!(key, "timeout");
            assert_eq!(value, "1.5");
        }
        _ => panic!("expected a bad app timeout"),
    }
}

#[test]
fn odd_pattern_list_is_reported() {
    match read("[app:a]\nlog_format.patterns = one first two\n") {
        Err(ErrorKind::BadInput(key, value)) => {
            assert_eq!(key, "log_format.patterns");
            assert_eq!(value, "one first two");
        }
        _ => panic!("expected a bad pattern list"),
    }
}

#[test]
fn defaults_are_read_before_any_section() {
    // The bad default comes later in the file than the bad application.
    let text = "[app:a]\ntimeout = x\n[DEFAULT]\ntimeout = y\n";
    match read(text) {
        Err(ErrorKind::BadInput(_, value)) => assert_eq!(value, "y"),
        _ => panic!("expected the default's error"),
    }
}

#[test]
fn process_defaults_keeps_what_was_read_before_the_bad_value() {
    let sections = vec![
        section(None, &[("timeout", "99")]),
        section(Some("DEFAULT"), &[("timeout", "5"), ("sleep_time", "x"), ("endpoint", "late")]),
        section(Some("DEFAULT"), &[("timeout", "6")]),
    ];
    let mut builder = ConfigurationBuilder::new();
    assert!(matches!(builder.process_defaults(&sections), Err(ErrorKind::BadInput("sleep_time", _))));
    let conf = builder.build();
    assert_eq!(conf.global.timeout_secs, 5);
    assert_eq!(conf.global.sleep_time, 10);
    assert_eq!(conf.global.endpoint, "https://api.rollbar.com/api/1/item/");
}

#[test]
fn only_the_first_default_section_counts() {
    let sections = vec![
        section(Some("DEFAULT"), &[("timeout", "5")]),
        section(Some("DEFAULT"), &[("timeout", "6"), ("sleep_time", "x")]),
    ];
    let mut builder = ConfigurationBuilder::new();
    assert!(builder.process_ini(&sections).is_ok());
    assert_eq!(builder.build().global.timeout_secs, 5);
}

#[test]
fn failed_application_leaves_earlier_sections_applied() {
    let sections = vec![
        section(Some("app:good"), &[("targets", "t")]),
        section(Some("format:f"), &[("type", "x")]),
        section(Some("app:bad"), &[("endpoint", "e"), ("timeout", "never")]),
        section(Some("app:late"), &[("targets", "t")]),
    ];
    let mut builder = ConfigurationBuilder::new();
    assert!(matches!(builder.process_ini(&sections), Err(ErrorKind::BadInput("timeout", _))));
    let conf = builder.build();
    assert_eq!(conf.apps.len(), 1);
    assert_eq!(conf.apps.entries()[0].0, "good");
    assert_eq!(conf.formats.len(), 1);
}

#[test]
fn later_section_of_the_same_name_replaces_the_earlier_in_place() {
    let sections = vec![
        section(Some("app:a"), &[("endpoint", "first")]),
        section(Some("app:b"), &[("endpoint", "second")]),
        section(Some("app:a"), &[("targets", "t")]),
    ];
    let mut builder = ConfigurationBuilder::new();
    builder.process_ini(&sections).unwrap();
    let conf = builder.build();
    assert_eq!(conf.apps.len(), 2);
    assert_eq!(conf.apps.entries()[0].0, "a");
    assert_eq!(conf.apps.entries()[1].0, "b");
    assert_eq!(conf.apps.entries()[0].1.endpoint, None);
    assert_eq!(conf.apps.entries()[0].1.targets, Some(vec!["t".to_owned()]));
}

#[test]
fn application_without_parameters_or_log_format_has_none() {
    let mut builder = ConfigurationBuilder::new();
    builder.process_app("plain", &vec![("targets".to_owned(), "a b".to_owned())]).unwrap();
    let conf = builder.build();
    let app = app_named(&conf, "plain");
    assert!(app.params.is_none());
    assert!(app.log_format.is_none());
    assert_eq!(app.targets, Some(vec!["a".to_owned(), "b".to_owned()]));
}

#[test]
fn parameter_names_lose_their_prefix_and_later_values_win() {
    let mut builder = ConfigurationBuilder::new();
    let props = vec![
        ("params.a".to_owned(), "1".to_owned()),
        ("params.b".to_owned(), "2".to_owned()),
        ("params.a".to_owned(), "3".to_owned()),
        ("params.".to_owned(), "empty".to_owned()),
        ("log_format.default.extra".to_owned(), "d".to_owned()),
        ("paramsx".to_owned(), "no".to_owned()),
    ];
    builder.process_app("p", &props).unwrap();
    let conf = builder.build();
    let app = app_named(&conf, "p");
    assert_eq!(
        app.params.as_ref().unwrap().entries(),
        &vec![
            ("a".to_owned(), "3".to_owned()),
            ("b".to_owned(), "2".to_owned()),
            ("".to_owned(), "empty".to_owned()),
        ]
    );
    assert_eq!(app.log_format.as_ref().unwrap().default.as_deref(), Some("d"));
    assert!(app.log_format.as_ref().unwrap().patterns.is_none());
}

#[test]
fn format_section_is_read() {
    let mut builder = ConfigurationBuilder::new();
    let props = vec![
        ("type".to_owned(), "a".to_owned()),
        ("other".to_owned(), "x".to_owned()),
        ("type".to_owned(), "b".to_owned()),
    ];
    builder.process_format("f", &props);
    let conf = builder.build();
    let format = &conf.formats.entries()[0].1;
    assert_eq!(format.name, "f");
    assert_eq!(format.ty, "b");
    assert_eq!(format.format, "");
    assert_eq!(format.datefmt, None);
    let bare = Format::new("n");
    assert_eq!(bare.name, "n");
    assert_eq!(bare.ty, "");
}

#[test]
fn app_validation_wants_targets_then_a_token() {
    let mut app = App::new("a");
    assert!(matches!(app.validate(), Err(ErrorKind::MissingTargets(ref n)) if n == "a"));
    app.targets = Some(vec![]);
    assert!(matches!(app.validate(), Err(ErrorKind::MissingTargets(ref n)) if n == "a"));
    app.targets = Some(vec!["t".to_owned()]);
    assert!(matches!(app.validate(), Err(ErrorKind::MissingAccessToken(ref n)) if n == "a"));
    let mut params: Table<String> = Table::new();
    params.insert("environment".to_owned(), "x".to_owned());
    app.params = Some(params);
    assert!(matches!(app.validate(), Err(ErrorKind::MissingAccessToken(_))));
    let mut params: Table<String> = Table::new();
    params.insert("access_token".to_owned(), "x".to_owned());
    app.params = Some(params);
    assert!(app.validate().is_ok());
    app.targets = None;
    assert!(matches!(app.validate(), Err(ErrorKind::MissingTargets(_))));
}

#[test]
fn configuration_validation_reports_the_first_bad_application() {
    let text = "[app:ok]\ntargets = t\nparams.access_token = x\n[app:no_token]\ntargets = t\n[app:no_targets]\nparams.access_token = x\n";
    let conf = read(text).unwrap();
    assert!(matches!(conf.validate(), Err(ErrorKind::MissingAccessToken(ref n)) if n == "no_token"));
    let text = "[app:no_targets]\nparams.access_token = x\n[app:no_token]\ntargets = t\n";
    let conf = read(text).unwrap();
    assert!(matches!(conf.validate(), Err(ErrorKind::MissingTargets(ref n)) if n == "no_targets"));
}

#[test]
fn error_messages() {
    assert_eq!(
        ErrorKind::MissingAccessToken("web".to_owned()).to_string(),
        "app:web is missing params.access_token"
    );
    assert_eq!(ErrorKind::MissingTargets("web".to_owned()).to_string(), "app:web is missing targets");
    assert_eq!(ErrorKind::ProcessFileFailed.to_string(), "process_file failed");
    assert_eq!(
        ErrorKind::BadInput("timeout", "soon".to_owned()).to_string(),
        "timeout had a bad value: soon"
    );
    assert_eq!(ErrorKind::MissingAccessToken(String::new()).description(), "access_token is missing");
    assert_eq!(ErrorKind::MissingTargets(String::new()).description(), "targets is missing");
    assert_eq!(ErrorKind::ProcessFileFailed.description(), "process_file failed");
    assert_eq!(ErrorKind::BadInput("k", String::new()).description(), "bad configuration file input");
}

#[test]
fn conversions_of_values() {
    let builder = ConfigurationBuilder::new();
    for off in ["false", "False", "FALSE", "no", "No", "NO"] {
        assert!(!builder.convert_to_bool(&off.to_owned()));
        assert!(!to_bool(off));
    }
    for on in ["true", "yes", "", "0", "fALSE", "nO", " no", "off"] {
        assert!(builder.convert_to_bool(&on.to_owned()), "{:?}", on);
    }
    assert_eq!(builder.convert_to_list(&" a  b\tc ".to_owned()), vec!["a", "b", "c"]);
    assert!(builder.convert_to_list(&"   ".to_owned()).is_empty());
    assert_eq!(
        builder.convert_to_pair_list(&"r1 n1 r2 n2 r3 n3".to_owned()).unwrap(),
        vec![vec!["r1", "n1"], vec!["r2", "n2"], vec!["r3", "n3"]]
    );
    assert!(builder.convert_to_pair_list(&"".to_owned()).unwrap().is_empty());
    assert!(matches!(
        builder.convert_to_pair_list(&"lonely".to_owned()),
        Err(ErrorKind::BadInput("log_format.patterns", ref v)) if v == "lonely"
    ));
    assert_eq!(to_pair_list("a b"), Some(vec![vec!["a".to_owned(), "b".to_owned()]]));
    assert_eq!(to_pair_list("a b c"), None);
}

#[test]
fn log_format_wraps_only_with_data() {
    let empty = LogFormat::default();
    assert!(!empty.has_data());
    assert!(empty.wrap_if_data().is_none());
    let with_default = LogFormat { default: Some("d".to_owned()), patterns: None };
    assert!(with_default.has_data());
    assert!(with_default.wrap_if_data().is_some());
    let with_patterns = LogFormat { default: None, patterns: Some(vec![]) };
    assert!(with_patterns.wrap_if_data().is_some());
}

#[test]
fn table_keeps_first_order_and_replaces_in_place() {
    let mut table: Table<String> = Table::new();
    assert!(table.is_empty());
    assert!(!table.contains_key("a"));
    table.insert("a".to_owned(), "1".to_owned());
    table.insert("b".to_owned(), "2".to_owned());
    table.insert("a".to_owned(), "3".to_owned());
    assert_eq!(table.len(), 2);
    assert!(table.contains_key("a"));
    assert!(table.contains_key("b"));
    assert!(!table.contains_key("c"));
    assert!(!table.contains_key(""));
    assert_eq!(table.into_values(), vec!["3", "2"]);
}

#[test]
fn toml_settings_join_the_builder() {
    let mut global = GlobalConfiguration::default();
    global.timeout_secs = 44;
    let mut first = App::new("a");
    first.endpoint = Some("one".to_owned());
    let second = App::new("b");
    let mut again = App::new("a");
    again.endpoint = Some("two".to_owned());
    let toml = TomlConfiguration {
        default: global,
        app: vec![first, second, again],
        format: vec![Format::new("f")],
    };
    let conf = builder_for("s.toml").process_file(LoadedFile::Settings(toml)).unwrap().build();
    assert_eq!(conf.global.timeout_secs, 44);
    assert_eq!(conf.apps.len(), 2);
    assert_eq!(conf.apps.entries()[0].0, "a");
    assert_eq!(conf.apps.entries()[0].1.endpoint.as_deref(), Some("two"));
    assert_eq!(conf.apps.entries()[1].0, "b");
    assert_eq!(conf.formats.entries()[0].0, "f");
}

#[test]
fn configuration_is_laid_out_for_toml_in_order() {
    let conf = read("[app:x]\ntargets = t\n[app:y]\ntargets = u\n[format:f]\ntype = p\n[DEFAULT]\ntimeout = 8\n")
        .unwrap();
    let toml = TomlConfiguration::from(conf);
    assert_eq!(toml.default.timeout_secs, 8);
    assert_eq!(toml.app.iter().map(|a| a.name.as_str()).collect::<Vec<_>>(), vec!["x", "y"]);
    assert_eq!(toml.format.len(), 1);
    assert_eq!(toml.format[0].ty, "p");
}

#[test]
fn ini_reader_keeps_file_order_and_repeated_keys() {
    let mut builder = builder_for("o.conf");
    builder
        .process_ini_file("[app:z]\ntargets = first\ntargets = second third\n[app:a]\ntargets = t\n")
        .unwrap();
    let conf = builder.build();
    assert_eq!(conf.apps.entries()[0].0, "z");
    assert_eq!(conf.apps.entries()[1].0, "a");
    assert_eq!(
        conf.apps.entries()[0].1.targets,
        Some(vec!["second".to_owned(), "third".to_owned()])
    );
}
