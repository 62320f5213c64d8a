use rollbar_rust::configuration::Configuration;
use rollbar_rust::types::{CrashReport, Exception, Level, Notifier, Person};

#[test]
fn level_from_str() {
    assert_eq!(Level::from("oops"), Level::Error);
    assert_eq!(Level::from("warn"), Level::Warning);
    assert_eq!(Level::from("warning"), Level::Warning);
    assert_eq!(Level::from("debug"), Level::Debug);
}

#[test]
fn level_from_every_known_name() {
    for name in ["critical", "crit", "criti", "CRITICAL", "CRIT", "CRITI"] {
        assert_eq!(Level::from(name), Level::Critical);
    }
    for name in ["warning", "warn", "warni", "WARNING", "WARN", "WARNI"] {
        assert_eq!(Level::from(name), Level::Warning);
    }
    assert_eq!(Level::from("info"), Level::Info);
    assert_eq!(Level::from("INFO"), Level::Info);
    assert_eq!(Level::from("DEBUG"), Level::Debug);
}

#[test]
fn level_from_unknown_or_mixed_case_is_error() {
    assert_eq!(Level::from(""), Level::Error);
    assert_eq!(Level::from("error"), Level::Error);
    assert_eq!(Level::from("Warning"), Level::Error);
    assert_eq!(Level::from("info "), Level::Error);
}

#[test]
fn level_python_numbers() {
    assert_eq!(Level::Debug.python_level(), 10);
    assert_eq!(Level::Info.python_level(), 20);
    assert_eq!(Level::Warning.python_level(), 30);
    assert_eq!(Level::Error.python_level(), 40);
    assert_eq!(Level::Critical.python_level(), 50);
}

#[test]
fn level_names_and_default() {
    assert_eq!(Level::Critical.to_string(), "critical");
    assert_eq!(Level::Error.to_string(), "error");
    assert_eq!(Level::Warning.to_string(), "warning");
    assert_eq!(Level::Info.to_string(), "info");
    assert_eq!(Level::Debug.to_string(), "debug");
    assert_eq!(Level::default(), Level::Error);
    assert!(Level::Debug < Level::Info && Level::Error < Level::Critical);
}

#[test]
fn level_name_reads_back() {
    for level in [Level::Debug, Level::Info, Level::Warning, Level::Error, Level::Critical] {
        assert_eq!(Level::from(level.to_string().as_str()), level);
    }
}

#[test]
fn transport_configuration_default() {
    let conf = Configuration::default();
    assert_eq!(conf.endpoint, "https://api.rollbar.com/api/1/item/");
    assert_eq!(conf.access_token, None);
    assert_eq!(conf.environment, None);
    assert_eq!(conf.host, None);
    assert_eq!(conf.code_version, None);
    assert_eq!(conf.log_level, Level::Info);
    assert_eq!(conf.timeout, 10);
    assert_eq!(conf.proxy, None);
}

#[test]
fn exception_builder_sets_fields() {
    let exc = Exception::builder(Some("main"))
        .class("java.lang.Error")
        .message("boom")
        .build();
    assert_eq!(exc.class, "java.lang.Error");
    assert_eq!(exc.message.as_deref(), Some("boom"));
    assert_eq!(exc.description, None);
}

#[test]
fn exception_class_defaults_to_thread_name() {
    assert_eq!(Exception::for_thread(Some("worker-1")).class, "worker-1");
    assert_eq!(Exception::for_thread(None).class, "unnamed");
    assert_eq!(Exception::builder(None).description("d").build().class, "unnamed");
}

#[test]
fn person_builder_sets_fields() {
    let person = Person::builder().id("42").username("bob").build();
    assert_eq!(person.id, "42");
    assert_eq!(person.username.as_deref(), Some("bob"));
    assert_eq!(person.email, None);
    let other = Person::builder().email("a@b.c").build();
    assert_eq!(other.id, "");
    assert_eq!(other.email.as_deref(), Some("a@b.c"));
}

#[test]
fn notifier_and_crash_report_builders() {
    let notifier = Notifier::builder().name("rollbar-rust").version("0.1.0").build();
    assert_eq!(notifier.name.as_deref(), Some("rollbar-rust"));
    assert_eq!(notifier.version.as_deref(), Some("0.1.0"));
    let empty = Notifier::default();
    assert_eq!(empty.name, None);
    assert_eq!(empty.version, None);
    let report = CrashReport::builder().raw("stack").build();
    assert_eq!(report.raw, "stack");
    assert_eq!(CrashReport::default().raw, "");
}
