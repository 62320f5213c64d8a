//! What the agent's settings are made of: global defaults, the
//! applications whose logs are watched, and the log formats.

use crate::agent::errors::{ErrorKind, ErrorView};
use crate::agent::table::{has_key, Table};
use crate::types::Level;
use vstd::prelude::*;

verus! {

/// How much the agent itself logs.
#[derive(Clone, Copy, Debug, PartialEq, Eq, PartialOrd, Ord, Hash, Structural)]
pub enum LogLevel {
    Debug,
    Info,
    Warning,
}

impl Default for LogLevel {
    fn default() -> (level: LogLevel)
        ensures
            level == LogLevel::Info,
    {
        LogLevel::Info
    }
}

/// Settings that hold for every application that does not say otherwise.
#[derive(Debug)]
pub struct GlobalConfiguration {
    pub endpoint: String,
    pub timeout_secs: u64,
    pub log_level: Level,
    pub statefile: String,
    pub sleep_time: u64,
    pub ext_whitelist: Vec<String>,
    pub ext_blacklist: Vec<String>,
    pub targets: Vec<String>,
    pub blacklist: Vec<String>,
    pub scrub_regex_patterns: Vec<String>,
    pub delete_processed_files: bool,
    pub filter_chr_attr_sequences: bool,
}

/// The global settings with their texts as sequences of characters.
pub struct GlobalView {
    pub endpoint: Seq<char>,
    pub timeout_secs: u64,
    pub log_level: Level,
    pub statefile: Seq<char>,
    pub sleep_time: u64,
    pub ext_whitelist: Seq<Seq<char>>,
    pub ext_blacklist: Seq<Seq<char>>,
    pub targets: Seq<Seq<char>>,
    pub blacklist: Seq<Seq<char>>,
    pub scrub_regex_patterns: Seq<Seq<char>>,
    pub delete_processed_files: bool,
    pub filter_chr_attr_sequences: bool,
}

impl DeepView for GlobalConfiguration {
    type V = GlobalView;

    open spec fn deep_view(&self) -> GlobalView {
        GlobalView {
            endpoint: self.endpoint@,
            timeout_secs: self.timeout_secs,
            log_level: self.log_level,
            statefile: self.statefile@,
            sleep_time: self.sleep_time,
            ext_whitelist: self.ext_whitelist.deep_view(),
            ext_blacklist: self.ext_blacklist.deep_view(),
            targets: self.targets.deep_view(),
            blacklist: self.blacklist.deep_view(),
            scrub_regex_patterns: self.scrub_regex_patterns.deep_view(),
            delete_processed_files: self.delete_processed_files,
            filter_chr_attr_sequences: self.filter_chr_attr_sequences,
        }
    }
}

/// The global settings of an agent that was told nothing.
pub open spec fn default_global() -> GlobalView {
    GlobalView {
        endpoint: "https://api.rollbar.com/api/1/item/"@,
        timeout_secs: 3,
        log_level: Level::Info,
        statefile: "/var/cache/rollbar-agent.state"@,
        sleep_time: 10,
        ext_whitelist: seq!["log"@, "rollbar"@],
        ext_blacklist: Seq::empty(),
        targets: Seq::empty(),
        blacklist: Seq::empty(),
        scrub_regex_patterns: Seq::empty(),
        delete_processed_files: false,
        filter_chr_attr_sequences: false,
    }
}

impl Default for GlobalConfiguration {
    fn default() -> (global: GlobalConfiguration)
        ensures
            global.deep_view() == default_global(),
    {
        let mut ext_whitelist: Vec<String> = Vec::new();
        ext_whitelist.push("log".to_owned());
        ext_whitelist.push("rollbar".to_owned());
        let global = GlobalConfiguration {
            endpoint: "https://api.rollbar.com/api/1/item/".to_owned(),
            timeout_secs: 3,
            log_level: Level::Info,
            statefile: "/var/cache/rollbar-agent.state".to_owned(),
            sleep_time: 10,
            ext_whitelist,
            ext_blacklist: Vec::new(),
            targets: Vec::new(),
            blacklist: Vec::new(),
            scrub_regex_patterns: Vec::new(),
            delete_processed_files: false,
            filter_chr_attr_sequences: false,
        };
        assert(global.ext_whitelist.deep_view() =~= seq!["log"@, "rollbar"@]);
        assert(global.scrub_regex_patterns.deep_view() =~= Seq::<Seq<char>>::empty());
        global
    }
}

/// How the lines of an application's logs are taken apart.
#[derive(Debug)]
pub struct LogFormat {
    pub default: Option<String>,
    pub patterns: Option<Vec<Vec<String>>>,
}

/// A log format with its texts as sequences of characters.
pub struct LogFormatView {
    pub default: Option<Seq<char>>,
    pub patterns: Option<Seq<Seq<Seq<char>>>>,
}

impl DeepView for LogFormat {
    type V = LogFormatView;

    open spec fn deep_view(&self) -> LogFormatView {
        LogFormatView { default: self.default.deep_view(), patterns: self.patterns.deep_view() }
    }
}

impl Default for LogFormat {
    fn default() -> (format: LogFormat)
        ensures
            format.deep_view() == (LogFormatView { default: None, patterns: None }),
    {
        LogFormat { default: None, patterns: None }
    }
}

impl LogFormatView {
    /// Whether anything was said about the format.
    pub open spec fn has_data(self) -> bool {
        self.default is Some || self.patterns is Some
    }

    /// The format if anything was said about it, and nothing otherwise.
    pub open spec fn wrap_if_data(self) -> Option<LogFormatView> {
        if self.has_data() {
            Some(self)
        } else {
            None
        }
    }
}

impl LogFormat {
    /// Whether anything was said about the format.
    pub fn has_data(&self) -> (data: bool)
        ensures
            data == self.deep_view().has_data(),
    {
        self.default.is_some() || self.patterns.is_some()
    }

    /// The format if anything was said about it, and nothing otherwise.
    pub fn wrap_if_data(self) -> (wrapped: Option<Self>)
        ensures
            wrapped.deep_view() == self.deep_view().wrap_if_data(),
    {
        if self.has_data() {
            Some(self)
        } else {
            None
        }
    }
}

/// A named way of formatting log lines.
#[derive(Debug)]
pub struct Format {
    pub name: String,
    pub ty: String,
    pub format: String,
    pub datefmt: Option<String>,
}

/// A format with its texts as sequences of characters.
pub struct FormatView {
    pub name: Seq<char>,
    pub ty: Seq<char>,
    pub format: Seq<char>,
    pub datefmt: Option<Seq<char>>,
}

impl DeepView for Format {
    type V = FormatView;

    open spec fn deep_view(&self) -> FormatView {
        FormatView {
            name: self.name@,
            ty: self.ty@,
            format: self.format@,
            datefmt: self.datefmt.deep_view(),
        }
    }
}

/// The format of the given name about which nothing else is known.
pub open spec fn new_format(name: Seq<char>) -> FormatView {
    FormatView { name, ty: Seq::empty(), format: Seq::empty(), datefmt: None }
}

impl Format {
    /// The format of the given name about which nothing else is known.
    pub fn new(name: &str) -> (format: Self)
        ensures
            format.deep_view() == new_format(name@),
    {
        Format { name: name.to_owned(), ty: String::new(), format: String::new(), datefmt: None }
    }
}

/// One application whose logs the agent watches. What it leaves unsaid
/// the global settings decide.
#[derive(Debug)]
pub struct App {
    pub name: String,
    pub timeout_secs: Option<u64>,
    pub endpoint: Option<String>,
    pub ext_whitelist: Option<Vec<String>>,
    pub ext_blacklist: Option<Vec<String>>,
    pub targets: Option<Vec<String>>,
    pub blacklist: Option<Vec<String>>,
    pub scrub_regex_patterns: Option<Vec<String>>,
    pub delete_processed_files: Option<bool>,
    pub filter_chr_attr_sequences: Option<bool>,
    pub min_log_level: Option<Level>,
    pub params: Option<Table<String>>,
    pub log_format: Option<LogFormat>,
}

/// An application with its texts as sequences of characters.
pub struct AppView {
    pub name: Seq<char>,
    pub timeout_secs: Option<u64>,
    pub endpoint: Option<Seq<char>>,
    pub ext_whitelist: Option<Seq<Seq<char>>>,
    pub ext_blacklist: Option<Seq<Seq<char>>>,
    pub targets: Option<Seq<Seq<char>>>,
    pub blacklist: Option<Seq<Seq<char>>>,
    pub scrub_regex_patterns: Option<Seq<Seq<char>>>,
    pub delete_processed_files: Option<bool>,
    pub filter_chr_attr_sequences: Option<bool>,
    pub min_log_level: Option<Level>,
    pub params: Option<Seq<(Seq<char>, Seq<char>)>>,
    pub log_format: Option<LogFormatView>,
}

impl DeepView for App {
    type V = AppView;

    open spec fn deep_view(&self) -> AppView {
        AppView {
            name: self.name@,
            timeout_secs: self.timeout_secs,
            endpoint: self.endpoint.deep_view(),
            ext_whitelist: self.ext_whitelist.deep_view(),
            ext_blacklist: self.ext_blacklist.deep_view(),
            targets: self.targets.deep_view(),
            blacklist: self.blacklist.deep_view(),
            scrub_regex_patterns: self.scrub_regex_patterns.deep_view(),
            delete_processed_files: self.delete_processed_files,
            filter_chr_attr_sequences: self.filter_chr_attr_sequences,
            min_log_level: self.min_log_level,
            params: self.params.deep_view(),
            log_format: self.log_format.deep_view(),
        }
    }
}

/// The application of the given name that says nothing of its own.
pub open spec fn new_app(name: Seq<char>) -> AppView {
    AppView {
        name,
        timeout_secs: None,
        endpoint: None,
        ext_whitelist: None,
        ext_blacklist: None,
        targets: None,
        blacklist: None,
        scrub_regex_patterns: None,
        delete_processed_files: None,
        filter_chr_attr_sequences: None,
        min_log_level: None,
        params: None,
        log_format: None,
    }
}

/// What is wrong with an application, if anything: it must name at least
/// one target, and its parameters must hold an access token. Missing
/// targets are reported first.
pub open spec fn app_verdict(app: AppView) -> Option<ErrorView> {
    if !(app.targets matches Some(targets) && targets.len() > 0) {
        Some(ErrorView::MissingTargets(app.name))
    } else if !(app.params matches Some(params) && has_key(params, "access_token"@)) {
        Some(ErrorView::MissingAccessToken(app.name))
    } else {
        None
    }
}

impl App {
    /// The tables inside the application hold no name twice.
    pub open spec fn wf(&self) -> bool {
        self.params matches Some(params) ==> params.wf()
    }

    /// The application of the given name that says nothing of its own.
    pub fn new(name: &str) -> (app: Self)
        ensures
            app.wf(),
            app.deep_view() == new_app(name@),
    {
        App {
            name: name.to_owned(),
            timeout_secs: None,
            endpoint: None,
            ext_whitelist: None,
            ext_blacklist: None,
            targets: None,
            blacklist: None,
            scrub_regex_patterns: None,
            delete_processed_files: None,
            filter_chr_attr_sequences: None,
            min_log_level: None,
            params: None,
            log_format: None,
        }
    }

    /// Checks that the application names at least one target and holds an
    /// access token among its parameters.
    pub fn validate(&self) -> (verdict: Result<(), ErrorKind>)
        ensures
            verdict is Ok <==> app_verdict(self.deep_view()) is None,
            verdict matches Err(error) ==> app_verdict(self.deep_view()) == Some(error@),
    {
        let has_targets = match &self.targets {
            Some(targets) => targets.len() > 0,
            None => false,
        };
        if !has_targets {
            return Err(ErrorKind::MissingTargets(self.name.clone()));
        }
        let has_token = match &self.params {
            Some(params) => params.contains_key("access_token"),
            None => false,
        };
        if !has_token {
            return Err(ErrorKind::MissingAccessToken(self.name.clone()));
        }
        Ok(())
    }
}

} // verus!
