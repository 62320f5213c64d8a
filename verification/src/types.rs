//! Values that reports carry.

use crate::text::same_text;
use vstd::prelude::*;
use vstd::std_specs::convert::FromSpecImpl;

verus! {

/// Severity of a report, lowest first.
#[derive(Clone, Copy, Debug, PartialEq, Eq, PartialOrd, Ord, Hash, Structural)]
pub enum Level {
    Debug,
    Info,
    Warning,
    Error,
    Critical,
}

/// The level that a name stands for. The full names and the short forms of
/// `critical` and `warning` are known in lower and in upper case; every
/// other text means `Error`.
pub open spec fn level_named(name: Seq<char>) -> Level {
    if name == "critical"@ || name == "crit"@ || name == "criti"@ || name == "CRITICAL"@ || name
        == "CRIT"@ || name == "CRITI"@ {
        Level::Critical
    } else if name == "warning"@ || name == "warn"@ || name == "warni"@ || name == "WARNING"@
        || name == "WARN"@ || name == "WARNI"@ {
        Level::Warning
    } else if name == "info"@ || name == "INFO"@ {
        Level::Info
    } else if name == "debug"@ || name == "DEBUG"@ {
        Level::Debug
    } else {
        Level::Error
    }
}

/// The lower-case name of a level.
pub open spec fn level_name(level: Level) -> Seq<char> {
    match level {
        Level::Critical => "critical"@,
        Level::Error => "error"@,
        Level::Warning => "warning"@,
        Level::Info => "info"@,
        Level::Debug => "debug"@,
    }
}

impl Level {
    /// The number of this level in Python's logging scale.
    pub open spec fn spec_python_level(self) -> u64 {
        match self {
            Level::Debug => 10,
            Level::Info => 20,
            Level::Warning => 30,
            Level::Error => 40,
            Level::Critical => 50,
        }
    }

    /// The number of this level in Python's logging scale.
    pub fn python_level(self) -> (number: u64)
        ensures
            number == self.spec_python_level(),
    {
        match self {
            Level::Debug => 10,
            Level::Info => 20,
            Level::Warning => 30,
            Level::Error => 40,
            Level::Critical => 50,
        }
    }

    /// The lower-case name of this level.
    pub fn to_string(&self) -> (name: String)
        ensures
            name@ == level_name(*self),
    {
        match *self {
            Level::Critical => "critical".to_owned(),
            Level::Error => "error".to_owned(),
            Level::Warning => "warning".to_owned(),
            Level::Info => "info".to_owned(),
            Level::Debug => "debug".to_owned(),
        }
    }
}

impl<'a> From<&'a str> for Level {
    fn from(s: &'a str) -> (level: Level) {
        if same_text(s, "critical") || same_text(s, "crit") || same_text(s, "criti") || same_text(
            s,
            "CRITICAL",
        ) || same_text(s, "CRIT") || same_text(s, "CRITI") {
            Level::Critical
        } else if same_text(s, "warning") || same_text(s, "warn") || same_text(s, "warni")
            || same_text(s, "WARNING") || same_text(s, "WARN") || same_text(s, "WARNI") {
            Level::Warning
        } else if same_text(s, "info") || same_text(s, "INFO") {
            Level::Info
        } else if same_text(s, "debug") || same_text(s, "DEBUG") {
            Level::Debug
        } else {
            Level::Error
        }
    }
}

impl<'a> FromSpecImpl<&'a str> for Level {
    open spec fn obeys_from_spec() -> bool {
        true
    }

    open spec fn from_spec(s: &'a str) -> Level {
        level_named(s@)
    }
}

impl Default for Level {
    fn default() -> (level: Level)
        ensures
            level == Level::Error,
    {
        Level::Error
    }
}

/// What was thrown: its class and what it said.
#[derive(Debug)]
pub struct Exception {
    /// Name of the exception's class.
    pub class: String,
    pub message: Option<String>,
    pub description: Option<String>,
}

/// The class that an exception is given before anything is known of it: the
/// name of the thread it was met on, or `unnamed` if the thread has none.
pub open spec fn class_for_thread(thread: Option<&str>) -> Seq<char> {
    match thread {
        Some(name) => name@,
        None => "unnamed"@,
    }
}

impl Exception {
    /// Nothing is known of the exception but the thread it was met on.
    pub open spec fn is_fresh(&self, thread: Option<&str>) -> bool {
        &&& self.class@ == class_for_thread(thread)
        &&& self.message is None
        &&& self.description is None
    }

    /// An exception met on the thread of the given name, about which
    /// nothing else is known yet.
    pub fn for_thread(thread: Option<&str>) -> (exception: Exception)
        ensures
            exception.is_fresh(thread),
    {
        let class = match thread {
            Some(name) => name.to_owned(),
            None => "unnamed".to_owned(),
        };
        Exception { class, message: None, description: None }
    }
}

impl Exception {
    /// A builder that starts from an exception met on the given thread.
    pub fn builder(thread: Option<&str>) -> (builder: ExceptionBuilder)
        ensures
            builder.node().class@ == class_for_thread(thread),
            builder.node().message is None,
            builder.node().description is None,
    {
        ExceptionBuilder::new(thread)
    }
}

/// Sets the fields of an `Exception` one by one.
pub struct ExceptionBuilder {
    node: Exception,
}

impl ExceptionBuilder {
    /// The value as built so far.
    pub closed spec fn node(&self) -> Exception {
        self.node
    }

    /// A builder that starts from an exception met on the given thread.
    pub fn new(thread: Option<&str>) -> (builder: Self)
        ensures
            builder.node().class@ == class_for_thread(thread),
            builder.node().message is None,
            builder.node().description is None,
    {
        ExceptionBuilder { node: Exception::for_thread(thread) }
    }

    /// Sets `class`.
    pub fn class(self, val: &str) -> (builder: Self)
        ensures
            builder.node().class@ == val@,
            builder.node().message == self.node().message,
            builder.node().description == self.node().description,
    {
        let mut builder = self;
        builder.node.class = val.to_owned();
        builder
    }

    /// Sets `message`.
    pub fn message(self, val: &str) -> (builder: Self)
        ensures
            builder.node().message matches Some(text) && text@ == val@,
            builder.node().class == self.node().class,
            builder.node().description == self.node().description,
    {
        let mut builder = self;
        builder.node.message = Some(val.to_owned());
        builder
    }

    /// Sets `description`.
    pub fn description(self, val: &str) -> (builder: Self)
        ensures
            builder.node().description matches Some(text) && text@ == val@,
            builder.node().class == self.node().class,
            builder.node().message == self.node().message,
    {
        let mut builder = self;
        builder.node.description = Some(val.to_owned());
        builder
    }

    /// The value as built.
    pub fn build(self) -> (node: Exception)
        ensures
            node == self.node(),
    {
        self.node
    }
}

/// A crash report as the platform wrote it.
#[derive(Debug)]
pub struct CrashReport {
    pub raw: String,
}

impl Default for CrashReport {
    /// Everything empty or absent.
    fn default() -> (report: CrashReport)
        ensures
            report.raw@ == Seq::<char>::empty(),
    {
        CrashReport { raw: String::new() }
    }
}

impl CrashReport {
    /// A builder that starts from the default value.
    pub fn builder() -> (builder: CrashReportBuilder)
        ensures
            builder.node().raw@ == Seq::<char>::empty(),
    {
        CrashReportBuilder::new()
    }
}

/// Sets the fields of a `CrashReport` one by one.
pub struct CrashReportBuilder {
    node: CrashReport,
}

impl CrashReportBuilder {
    /// The value as built so far.
    pub closed spec fn node(&self) -> CrashReport {
        self.node
    }

    /// A builder that starts from the default value.
    pub fn new() -> (builder: Self)
        ensures
            builder.node().raw@ == Seq::<char>::empty(),
    {
        CrashReportBuilder { node: CrashReport::default() }
    }

    /// Sets `raw`.
    pub fn raw(self, val: &str) -> (builder: Self)
        ensures
            builder.node().raw@ == val@,
    {
        let mut builder = self;
        builder.node.raw = val.to_owned();
        builder
    }

    /// The value as built.
    pub fn build(self) -> (node: CrashReport)
        ensures
            node == self.node(),
    {
        self.node
    }
}

/// The user that a report is about.
#[derive(Debug)]
pub struct Person {
    pub id: String,
    pub username: Option<String>,
    pub email: Option<String>,
}

impl Default for Person {
    /// Everything empty or absent.
    fn default() -> (person: Person)
        ensures
            person.id@ == Seq::<char>::empty(),
            person.username is None,
            person.email is None,
    {
        Person { id: String::new(), username: None, email: None }
    }
}

impl Person {
    /// A builder that starts from the default value.
    pub fn builder() -> (builder: PersonBuilder)
        ensures
            builder.node().id@ == Seq::<char>::empty(),
            builder.node().username is None,
            builder.node().email is None,
    {
        PersonBuilder::new()
    }
}

/// Sets the fields of a `Person` one by one.
pub struct PersonBuilder {
    node: Person,
}

impl PersonBuilder {
    /// The value as built so far.
    pub closed spec fn node(&self) -> Person {
        self.node
    }

    /// A builder that starts from the default value.
    pub fn new() -> (builder: Self)
        ensures
            builder.node().id@ == Seq::<char>::empty(),
            builder.node().username is None,
            builder.node().email is None,
    {
        PersonBuilder { node: Person::default() }
    }

    /// Sets `id`.
    pub fn id(self, val: &str) -> (builder: Self)
        ensures
            builder.node().id@ == val@,
            builder.node().username == self.node().username,
            builder.node().email == self.node().email,
    {
        let mut builder = self;
        builder.node.id = val.to_owned();
        builder
    }

    /// Sets `username`.
    pub fn username(self, val: &str) -> (builder: Self)
        ensures
            builder.node().username matches Some(text) && text@ == val@,
            builder.node().id == self.node().id,
            builder.node().email == self.node().email,
    {
        let mut builder = self;
        builder.node.username = Some(val.to_owned());
        builder
    }

    /// Sets `email`.
    pub fn email(self, val: &str) -> (builder: Self)
        ensures
            builder.node().email matches Some(text) && text@ == val@,
            builder.node().id == self.node().id,
            builder.node().username == self.node().username,
    {
        let mut builder = self;
        builder.node.email = Some(val.to_owned());
        builder
    }

    /// The value as built.
    pub fn build(self) -> (node: Person)
        ensures
            node == self.node(),
    {
        self.node
    }
}

/// The library that sends the reports.
#[derive(Debug)]
pub struct Notifier {
    pub name: Option<String>,
    pub version: Option<String>,
}

impl Default for Notifier {
    /// Everything empty or absent.
    fn default() -> (notifier: Notifier)
        ensures
            notifier.name is None,
            notifier.version is None,
    {
        Notifier { name: None, version: None }
    }
}

impl Notifier {
    /// A builder that starts from the default value.
    pub fn builder() -> (builder: NotifierBuilder)
        ensures
            builder.node().name is None,
            builder.node().version is None,
    {
        NotifierBuilder::new()
    }
}

/// Sets the fields of a `Notifier` one by one.
pub struct NotifierBuilder {
    node: Notifier,
}

impl NotifierBuilder {
    /// The value as built so far.
    pub closed spec fn node(&self) -> Notifier {
        self.node
    }

    /// A builder that starts from the default value.
    pub fn new() -> (builder: Self)
        ensures
            builder.node().name is None,
            builder.node().version is None,
    {
        NotifierBuilder { node: Notifier::default() }
    }

    /// Sets `name`.
    pub fn name(self, val: &str) -> (builder: Self)
        ensures
            builder.node().name matches Some(text) && text@ == val@,
            builder.node().version == self.node().version,
    {
        let mut builder = self;
        builder.node.name = Some(val.to_owned());
        builder
    }

    /// Sets `version`.
    pub fn version(self, val: &str) -> (builder: Self)
        ensures
            builder.node().version matches Some(text) && text@ == val@,
            builder.node().name == self.node().name,
    {
        let mut builder = self;
        builder.node.version = Some(val.to_owned());
        builder
    }

    /// The value as built.
    pub fn build(self) -> (node: Notifier)
        ensures
            node == self.node(),
    {
        self.node
    }
}

} // verus!
