//! The parts of a report and their builders. Every builder starts from
//! the part's default and sets one field at a time.

use crate::body::Body;
use crate::types::{Exception, Level, Notifier, Person};
use serde_json::Value;
use std::collections::HashMap;
use vstd::prelude::*;

verus! {

/// `serde_json::Value`, any JSON value. Reports carry such values along
/// untouched; nothing is known of their inside.
#[verifier::external_type_specification]
#[verifier::external_body]
pub struct ExValue(Value);

/// What a report says in words.
#[derive(Debug)]
pub struct Message {
    pub body: String,
    pub extra: HashMap<String, Value>,
}

impl Message {
    /// Every field is empty or absent.
    pub open spec fn is_default(&self) -> bool {
        &&& self.body@ == Seq::<char>::empty()
        &&& self.extra@ == Map::<String, Value>::empty()
    }

    /// A builder that starts from the default value.
    pub fn builder() -> (builder: MessageBuilder)
        ensures
            builder.node().is_default(),
    {
        MessageBuilder::new()
    }
}

impl Default for Message {
    fn default() -> (part: Message)
        ensures
            part.is_default(),
    {
        Message { body: String::new(), extra: HashMap::new() }
    }
}

/// Sets the fields of a `Message` one by one.
pub struct MessageBuilder {
    node: Message,
}

impl MessageBuilder {
    /// The value as built so far.
    pub closed spec fn node(&self) -> Message {
        self.node
    }

    /// A builder that starts from the default value.
    pub fn new() -> (builder: Self)
        ensures
            builder.node().is_default(),
    {
        MessageBuilder { node: Message::default() }
    }

    /// Sets `body`.
    pub fn body(self, val: &str) -> (builder: Self)
        ensures
            builder.node().body@ == val@,
            builder.node().extra == self.node().extra,
    {
        let mut builder = self;
        builder.node.body = val.to_owned();
        builder
    }

    /// Sets `extra`.
    pub fn extra(self, val: HashMap<String, Value>) -> (builder: Self)
        ensures
            builder.node().extra == val,
            builder.node().body == self.node().body,
    {
        let mut builder = self;
        builder.node.extra = val;
        builder
    }

    /// The value as built.
    pub fn build(self) -> (node: Message)
        ensures
            node == self.node(),
    {
        self.node
    }
}

/// One event that led up to a report.
#[derive(Debug)]
pub struct Telemetry {
    pub level: Level,
    pub telemetry_type: String,
    pub source: String,
    pub timestamp_ms: u64,
    pub body: HashMap<String, Value>,
}

impl Telemetry {
    /// Every field is empty or absent.
    pub open spec fn is_default(&self) -> bool {
        &&& self.level == Level::Error
        &&& self.telemetry_type@ == Seq::<char>::empty()
        &&& self.source@ == Seq::<char>::empty()
        &&& self.timestamp_ms == 0
        &&& self.body@ == Map::<String, Value>::empty()
    }

    /// A builder that starts from the default value.
    pub fn builder() -> (builder: TelemetryBuilder)
        ensures
            builder.node().is_default(),
    {
        TelemetryBuilder::new()
    }
}

impl Default for Telemetry {
    fn default() -> (part: Telemetry)
        ensures
            part.is_default(),
    {
        Telemetry { level: Level::Error, telemetry_type: String::new(), source: String::new(), timestamp_ms: 0, body: HashMap::new() }
    }
}

/// Sets the fields of a `Telemetry` one by one.
pub struct TelemetryBuilder {
    node: Telemetry,
}

impl TelemetryBuilder {
    /// The value as built so far.
    pub closed spec fn node(&self) -> Telemetry {
        self.node
    }

    /// A builder that starts from the default value.
    pub fn new() -> (builder: Self)
        ensures
            builder.node().is_default(),
    {
        TelemetryBuilder { node: Telemetry::default() }
    }

    /// Sets `level`.
    pub fn level(self, val: Level) -> (builder: Self)
        ensures
            builder.node().level == val,
            builder.node().telemetry_type == self.node().telemetry_type,
            builder.node().source == self.node().source,
            builder.node().timestamp_ms == self.node().timestamp_ms,
            builder.node().body == self.node().body,
    {
        let mut builder = self;
        builder.node.level = val;
        builder
    }

    /// Sets `telemetry_type`.
    pub fn telemetry_type(self, val: &str) -> (builder: Self)
        ensures
            builder.node().telemetry_type@ == val@,
            builder.node().level == self.node().level,
            builder.node().source == self.node().source,
            builder.node().timestamp_ms == self.node().timestamp_ms,
            builder.node().body == self.node().body,
    {
        let mut builder = self;
        builder.node.telemetry_type = val.to_owned();
        builder
    }

    /// Sets `source`.
    pub fn source(self, val: &str) -> (builder: Self)
        ensures
            builder.node().source@ == val@,
            builder.node().level == self.node().level,
            builder.node().telemetry_type == self.node().telemetry_type,
            builder.node().timestamp_ms == self.node().timestamp_ms,
            builder.node().body == self.node().body,
    {
        let mut builder = self;
        builder.node.source = val.to_owned();
        builder
    }

    /// Sets `timestamp_ms`.
    pub fn timestamp_ms(self, val: u64) -> (builder: Self)
        ensures
            builder.node().timestamp_ms == val,
            builder.node().level == self.node().level,
            builder.node().telemetry_type == self.node().telemetry_type,
            builder.node().source == self.node().source,
            builder.node().body == self.node().body,
    {
        let mut builder = self;
        builder.node.timestamp_ms = val;
        builder
    }

    /// Sets `body`.
    pub fn body(self, val: HashMap<String, Value>) -> (builder: Self)
        ensures
            builder.node().body == val,
            builder.node().level == self.node().level,
            builder.node().telemetry_type == self.node().telemetry_type,
            builder.node().source == self.node().source,
            builder.node().timestamp_ms == self.node().timestamp_ms,
    {
        let mut builder = self;
        builder.node.body = val;
        builder
    }

    /// The value as built.
    pub fn build(self) -> (node: Telemetry)
        ensures
            node == self.node(),
    {
        self.node
    }
}

/// One frame of a stack trace.
#[derive(Debug)]
pub struct Frame {
    pub filename: String,
    pub lineno: Option<i32>,
    pub colno: Option<i32>,
    pub method: Option<String>,
    pub function_code_line: Option<String>,
    pub class_name: Option<String>,
    pub context: Option<HashMap<String, Value>>,
    pub argspec: Option<Vec<String>>,
    pub varargspec: Option<String>,
    pub keywordspec: Option<String>,
    pub locals: Option<HashMap<String, Value>>,
}

impl Frame {
    /// Every field is empty or absent.
    pub open spec fn is_default(&self) -> bool {
        &&& self.filename@ == Seq::<char>::empty()
        &&& self.lineno is None
        &&& self.colno is None
        &&& self.method is None
        &&& self.function_code_line is None
        &&& self.class_name is None
        &&& self.context is None
        &&& self.argspec is None
        &&& self.varargspec is None
        &&& self.keywordspec is None
        &&& self.locals is None
    }

    /// A builder that starts from the default value.
    pub fn builder() -> (builder: FrameBuilder)
        ensures
            builder.node().is_default(),
    {
        FrameBuilder::new()
    }
}

impl Default for Frame {
    fn default() -> (part: Frame)
        ensures
            part.is_default(),
    {
        Frame { filename: String::new(), lineno: None, colno: None, method: None, function_code_line: None, class_name: None, context: None, argspec: None, varargspec: None, keywordspec: None, locals: None }
    }
}

/// Sets the fields of a `Frame` one by one.
pub struct FrameBuilder {
    node: Frame,
}

impl FrameBuilder {
    /// The value as built so far.
    pub closed spec fn node(&self) -> Frame {
        self.node
    }

    /// A builder that starts from the default value.
    pub fn new() -> (builder: Self)
        ensures
            builder.node().is_default(),
    {
        FrameBuilder { node: Frame::default() }
    }

    /// Sets `filename`.
    pub fn filename(self, val: &str) -> (builder: Self)
        ensures
            builder.node().filename@ == val@,
            builder.node().lineno == self.node().lineno,
            builder.node().colno == self.node().colno,
            builder.node().method == self.node().method,
            builder.node().function_code_line == self.node().function_code_line,
            builder.node().class_name == self.node().class_name,
            builder.node().context == self.node().context,
            builder.node().argspec == self.node().argspec,
            builder.node().varargspec == self.node().varargspec,
            builder.node().keywordspec == self.node().keywordspec,
            builder.node().locals == self.node().locals,
    {
        let mut builder = self;
        builder.node.filename = val.to_owned();
        builder
    }

    /// Sets `lineno`.
    pub fn lineno(self, val: i32) -> (builder: Self)
        ensures
            builder.node().lineno == Some(val),
            builder.node().filename == self.node().filename,
            builder.node().colno == self.node().colno,
            builder.node().method == self.node().method,
            builder.node().function_code_line == self.node().function_code_line,
            builder.node().class_name == self.node().class_name,
            builder.node().context == self.node().context,
            builder.node().argspec == self.node().argspec,
            builder.node().varargspec == self.node().varargspec,
            builder.node().keywordspec == self.node().keywordspec,
            builder.node().locals == self.node().locals,
    {
        let mut builder = self;
        builder.node.lineno = Some(val);
        builder
    }

    /// Sets `colno`.
    pub fn colno(self, val: i32) -> (builder: Self)
        ensures
            builder.node().colno == Some(val),
            builder.node().filename == self.node().filename,
            builder.node().lineno == self.node().lineno,
            builder.node().method == self.node().method,
            builder.node().function_code_line == self.node().function_code_line,
            builder.node().class_name == self.node().class_name,
            builder.node().context == self.node().context,
            builder.node().argspec == self.node().argspec,
            builder.node().varargspec == self.node().varargspec,
            builder.node().keywordspec == self.node().keywordspec,
            builder.node().locals == self.node().locals,
    {
        let mut builder = self;
        builder.node.colno = Some(val);
        builder
    }

    /// Sets `method`.
    pub fn method(self, val: &str) -> (builder: Self)
        ensures
            builder.node().method matches Some(text) && text@ == val@,
            builder.node().filename == self.node().filename,
            builder.node().lineno == self.node().lineno,
            builder.node().colno == self.node().colno,
            builder.node().function_code_line == self.node().function_code_line,
            builder.node().class_name == self.node().class_name,
            builder.node().context == self.node().context,
            builder.node().argspec == self.node().argspec,
            builder.node().varargspec == self.node().varargspec,
            builder.node().keywordspec == self.node().keywordspec,
            builder.node().locals == self.node().locals,
    {
        let mut builder = self;
        builder.node.method = Some(val.to_owned());
        builder
    }

    /// Sets `function_code_line`.
    pub fn function_code_line(self, val: &str) -> (builder: Self)
        ensures
            builder.node().function_code_line matches Some(text) && text@ == val@,
            builder.node().filename == self.node().filename,
            builder.node().lineno == self.node().lineno,
            builder.node().colno == self.node().colno,
            builder.node().method == self.node().method,
            builder.node().class_name == self.node().class_name,
            builder.node().context == self.node().context,
            builder.node().argspec == self.node().argspec,
            builder.node().varargspec == self.node().varargspec,
            builder.node().keywordspec == self.node().keywordspec,
            builder.node().locals == self.node().locals,
    {
        let mut builder = self;
        builder.node.function_code_line = Some(val.to_owned());
        builder
    }

    /// Sets `class_name`.
    pub fn class_name(self, val: &str) -> (builder: Self)
        ensures
            builder.node().class_name matches Some(text) && text@ == val@,
            builder.node().filename == self.node().filename,
            builder.node().lineno == self.node().lineno,
            builder.node().colno == self.node().colno,
            builder.node().method == self.node().method,
            builder.node().function_code_line == self.node().function_code_line,
            builder.node().context == self.node().context,
            builder.node().argspec == self.node().argspec,
            builder.node().varargspec == self.node().varargspec,
            builder.node().keywordspec == self.node().keywordspec,
            builder.node().locals == self.node().locals,
    {
        let mut builder = self;
        builder.node.class_name = Some(val.to_owned());
        builder
    }

    /// Sets `context`.
    pub fn context(self, val: HashMap<String, Value>) -> (builder: Self)
        ensures
            builder.node().context == Some(val),
            builder.node().filename == self.node().filename,
            builder.node().lineno == self.node().lineno,
            builder.node().colno == self.node().colno,
            builder.node().method == self.node().method,
            builder.node().function_code_line == self.node().function_code_line,
            builder.node().class_name == self.node().class_name,
            builder.node().argspec == self.node().argspec,
            builder.node().varargspec == self.node().varargspec,
            builder.node().keywordspec == self.node().keywordspec,
            builder.node().locals == self.node().locals,
    {
        let mut builder = self;
        builder.node.context = Some(val);
        builder
    }

    /// Sets `argspec`.
    pub fn argspec(self, val: Vec<String>) -> (builder: Self)
        ensures
            builder.node().argspec == Some(val),
            builder.node().filename == self.node().filename,
            builder.node().lineno == self.node().lineno,
            builder.node().colno == self.node().colno,
            builder.node().method == self.node().method,
            builder.node().function_code_line == self.node().function_code_line,
            builder.node().class_name == self.node().class_name,
            builder.node().context == self.node().context,
            builder.node().varargspec == self.node().varargspec,
            builder.node().keywordspec == self.node().keywordspec,
            builder.node().locals == self.node().locals,
    {
        let mut builder = self;
        builder.node.argspec = Some(val);
        builder
    }

    /// Sets `varargspec`.
    pub fn varargspec(self, val: &str) -> (builder: Self)
        ensures
            builder.node().varargspec matches Some(text) && text@ == val@,
            builder.node().filename == self.node().filename,
            builder.node().lineno == self.node().lineno,
            builder.node().colno == self.node().colno,
            builder.node().method == self.node().method,
            builder.node().function_code_line == self.node().function_code_line,
            builder.node().class_name == self.node().class_name,
            builder.node().context == self.node().context,
            builder.node().argspec == self.node().argspec,
            builder.node().keywordspec == self.node().keywordspec,
            builder.node().locals == self.node().locals,
    {
        let mut builder = self;
        builder.node.varargspec = Some(val.to_owned());
        builder
    }

    /// Sets `keywordspec`.
    pub fn keywordspec(self, val: &str) -> (builder: Self)
        ensures
            builder.node().keywordspec matches Some(text) && text@ == val@,
            builder.node().filename == self.node().filename,
            builder.node().lineno == self.node().lineno,
            builder.node().colno == self.node().colno,
            builder.node().method == self.node().method,
            builder.node().function_code_line == self.node().function_code_line,
            builder.node().class_name == self.node().class_name,
            builder.node().context == self.node().context,
            builder.node().argspec == self.node().argspec,
            builder.node().varargspec == self.node().varargspec,
            builder.node().locals == self.node().locals,
    {
        let mut builder = self;
        builder.node.keywordspec = Some(val.to_owned());
        builder
    }

    /// Sets `locals`.
    pub fn locals(self, val: HashMap<String, Value>) -> (builder: Self)
        ensures
            builder.node().locals == Some(val),
            builder.node().filename == self.node().filename,
            builder.node().lineno == self.node().lineno,
            builder.node().colno == self.node().colno,
            builder.node().method == self.node().method,
            builder.node().function_code_line == self.node().function_code_line,
            builder.node().class_name == self.node().class_name,
            builder.node().context == self.node().context,
            builder.node().argspec == self.node().argspec,
            builder.node().varargspec == self.node().varargspec,
            builder.node().keywordspec == self.node().keywordspec,
    {
        let mut builder = self;
        builder.node.locals = Some(val);
        builder
    }

    /// The value as built.
    pub fn build(self) -> (node: Frame)
        ensures
            node == self.node(),
    {
        self.node
    }
}

/// A stack trace with the exception it belongs to.
#[derive(Debug)]
pub struct Trace {
    pub frames: Vec<Frame>,
    pub exception: Exception,
}

impl Trace {
    /// Nothing is known of the trace but the thread it was taken on.
    pub open spec fn is_fresh(&self, thread: Option<&str>) -> bool {
        &&& self.frames@.len() == 0
        &&& self.exception.is_fresh(thread)
    }

    /// The trace about which nothing is known but the thread it was
    /// taken on.
    pub fn for_thread(thread: Option<&str>) -> (part: Trace)
        ensures
            part.is_fresh(thread),
    {
        Trace { frames: Vec::new(), exception: Exception::for_thread(thread) }
    }

    /// A builder that starts from the trace of the given thread.
    pub fn builder(thread: Option<&str>) -> (builder: TraceBuilder)
        ensures
            builder.node().is_fresh(thread),
    {
        TraceBuilder::new(thread)
    }
}

/// Sets the fields of a `Trace` one by one.
pub struct TraceBuilder {
    node: Trace,
}

impl TraceBuilder {
    /// The value as built so far.
    pub closed spec fn node(&self) -> Trace {
        self.node
    }

    /// A builder that starts from the trace of the given thread.
    pub fn new(thread: Option<&str>) -> (builder: Self)
        ensures
            builder.node().is_fresh(thread),
    {
        TraceBuilder { node: Trace::for_thread(thread) }
    }

    /// Sets `frames`.
    pub fn frames(self, val: Vec<Frame>) -> (builder: Self)
        ensures
            builder.node().frames == val,
            builder.node().exception == self.node().exception,
    {
        let mut builder = self;
        builder.node.frames = val;
        builder
    }

    /// Sets `exception`.
    pub fn exception(self, val: Exception) -> (builder: Self)
        ensures
            builder.node().exception == val,
            builder.node().frames == self.node().frames,
    {
        let mut builder = self;
        builder.node.exception = val;
        builder
    }

    /// The value as built.
    pub fn build(self) -> (node: Trace)
        ensures
            node == self.node(),
    {
        self.node
    }
}

/// The web request during which a report arose.
#[derive(Debug)]
pub struct Request {
    pub url: Option<String>,
    pub method: Option<String>,
    pub headers: Option<HashMap<String, Value>>,
    pub params: Option<HashMap<String, Value>>,
    pub get: Option<HashMap<String, Value>>,
    pub query_string: Option<String>,
    pub post: Option<HashMap<String, Value>>,
    pub body: Option<String>,
    pub user_ip: Option<String>,
    pub extra: HashMap<String, Value>,
}

impl Request {
    /// Every field is empty or absent.
    pub open spec fn is_default(&self) -> bool {
        &&& self.url is None
        &&& self.method is None
        &&& self.headers is None
        &&& self.params is None
        &&& self.get is None
        &&& self.query_string is None
        &&& self.post is None
        &&& self.body is None
        &&& self.user_ip is None
        &&& self.extra@ == Map::<String, Value>::empty()
    }

    /// A builder that starts from the default value.
    pub fn builder() -> (builder: RequestBuilder)
        ensures
            builder.node().is_default(),
    {
        RequestBuilder::new()
    }
}

impl Default for Request {
    fn default() -> (part: Request)
        ensures
            part.is_default(),
    {
        Request { url: None, method: None, headers: None, params: None, get: None, query_string: None, post: None, body: None, user_ip: None, extra: HashMap::new() }
    }
}

/// Sets the fields of a `Request` one by one.
pub struct RequestBuilder {
    node: Request,
}

impl RequestBuilder {
    /// The value as built so far.
    pub closed spec fn node(&self) -> Request {
        self.node
    }

    /// A builder that starts from the default value.
    pub fn new() -> (builder: Self)
        ensures
            builder.node().is_default(),
    {
        RequestBuilder { node: Request::default() }
    }

    /// Sets `url`.
    pub fn url(self, val: &str) -> (builder: Self)
        ensures
            builder.node().url matches Some(text) && text@ == val@,
            builder.node().method == self.node().method,
            builder.node().headers == self.node().headers,
            builder.node().params == self.node().params,
            builder.node().get == self.node().get,
            builder.node().query_string == self.node().query_string,
            builder.node().post == self.node().post,
            builder.node().body == self.node().body,
            builder.node().user_ip == self.node().user_ip,
            builder.node().extra == self.node().extra,
    {
        let mut builder = self;
        builder.node.url = Some(val.to_owned());
        builder
    }

    /// Sets `method`.
    pub fn method(self, val: &str) -> (builder: Self)
        ensures
            builder.node().method matches Some(text) && text@ == val@,
            builder.node().url == self.node().url,
            builder.node().headers == self.node().headers,
            builder.node().params == self.node().params,
            builder.node().get == self.node().get,
            builder.node().query_string == self.node().query_string,
            builder.node().post == self.node().post,
            builder.node().body == self.node().body,
            builder.node().user_ip == self.node().user_ip,
            builder.node().extra == self.node().extra,
    {
        let mut builder = self;
        builder.node.method = Some(val.to_owned());
        builder
    }

    /// Sets `headers`.
    pub fn headers(self, val: HashMap<String, Value>) -> (builder: Self)
        ensures
            builder.node().headers == Some(val),
            builder.node().url == self.node().url,
            builder.node().method == self.node().method,
            builder.node().params == self.node().params,
            builder.node().get == self.node().get,
            builder.node().query_string == self.node().query_string,
            builder.node().post == self.node().post,
            builder.node().body == self.node().body,
            builder.node().user_ip == self.node().user_ip,
            builder.node().extra == self.node().extra,
    {
        let mut builder = self;
        builder.node.headers = Some(val);
        builder
    }

    /// Sets `params`.
    pub fn params(self, val: HashMap<String, Value>) -> (builder: Self)
        ensures
            builder.node().params == Some(val),
            builder.node().url == self.node().url,
            builder.node().method == self.node().method,
            builder.node().headers == self.node().headers,
            builder.node().get == self.node().get,
            builder.node().query_string == self.node().query_string,
            builder.node().post == self.node().post,
            builder.node().body == self.node().body,
            builder.node().user_ip == self.node().user_ip,
            builder.node().extra == self.node().extra,
    {
        let mut builder = self;
        builder.node.params = Some(val);
        builder
    }

    /// Sets `get`.
    pub fn get(self, val: HashMap<String, Value>) -> (builder: Self)
        ensures
            builder.node().get == Some(val),
            builder.node().url == self.node().url,
            builder.node().method == self.node().method,
            builder.node().headers == self.node().headers,
            builder.node().params == self.node().params,
            builder.node().query_string == self.node().query_string,
            builder.node().post == self.node().post,
            builder.node().body == self.node().body,
            builder.node().user_ip == self.node().user_ip,
            builder.node().extra == self.node().extra,
    {
        let mut builder = self;
        builder.node.get = Some(val);
        builder
    }

    /// Sets `query_string`.
    pub fn query_string(self, val: &str) -> (builder: Self)
        ensures
            builder.node().query_string matches Some(text) && text@ == val@,
            builder.node().url == self.node().url,
            builder.node().method == self.node().method,
            builder.node().headers == self.node().headers,
            builder.node().params == self.node().params,
            builder.node().get == self.node().get,
            builder.node().post == self.node().post,
            builder.node().body == self.node().body,
            builder.node().user_ip == self.node().user_ip,
            builder.node().extra == self.node().extra,
    {
        let mut builder = self;
        builder.node.query_string = Some(val.to_owned());
        builder
    }

    /// Sets `post`.
    pub fn post(self, val: HashMap<String, Value>) -> (builder: Self)
        ensures
            builder.node().post == Some(val),
            builder.node().url == self.node().url,
            builder.node().method == self.node().method,
            builder.node().headers == self.node().headers,
            builder.node().params == self.node().params,
            builder.node().get == self.node().get,
            builder.node().query_string == self.node().query_string,
            builder.node().body == self.node().body,
            builder.node().user_ip == self.node().user_ip,
            builder.node().extra == self.node().extra,
    {
        let mut builder = self;
        builder.node.post = Some(val);
        builder
    }

    /// Sets `body`.
    pub fn body(self, val: &str) -> (builder: Self)
        ensures
            builder.node().body matches Some(text) && text@ == val@,
            builder.node().url == self.node().url,
            builder.node().method == self.node().method,
            builder.node().headers == self.node().headers,
            builder.node().params == self.node().params,
            builder.node().get == self.node().get,
            builder.node().query_string == self.node().query_string,
            builder.node().post == self.node().post,
            builder.node().user_ip == self.node().user_ip,
            builder.node().extra == self.node().extra,
    {
        let mut builder = self;
        builder.node.body = Some(val.to_owned());
        builder
    }

    /// Sets `user_ip`.
    pub fn user_ip(self, val: &str) -> (builder: Self)
        ensures
            builder.node().user_ip matches Some(text) && text@ == val@,
            builder.node().url == self.node().url,
            builder.node().method == self.node().method,
            builder.node().headers == self.node().headers,
            builder.node().params == self.node().params,
            builder.node().get == self.node().get,
            builder.node().query_string == self.node().query_string,
            builder.node().post == self.node().post,
            builder.node().body == self.node().body,
            builder.node().extra == self.node().extra,
    {
        let mut builder = self;
        builder.node.user_ip = Some(val.to_owned());
        builder
    }

    /// Sets `extra`.
    pub fn extra(self, val: HashMap<String, Value>) -> (builder: Self)
        ensures
            builder.node().extra == val,
            builder.node().url == self.node().url,
            builder.node().method == self.node().method,
            builder.node().headers == self.node().headers,
            builder.node().params == self.node().params,
            builder.node().get == self.node().get,
            builder.node().query_string == self.node().query_string,
            builder.node().post == self.node().post,
            builder.node().body == self.node().body,
            builder.node().user_ip == self.node().user_ip,
    {
        let mut builder = self;
        builder.node.extra = val;
        builder
    }

    /// The value as built.
    pub fn build(self) -> (node: Request)
        ensures
            node == self.node(),
    {
        self.node
    }
}

/// The machine a report comes from.
#[derive(Debug)]
pub struct Server {
    pub cpu: Option<String>,
    pub host: Option<String>,
    pub root: Option<String>,
    pub branch: Option<String>,
    pub code_version: Option<String>,
    pub extra: HashMap<String, Value>,
}

impl Server {
    /// Every field is empty or absent.
    pub open spec fn is_default(&self) -> bool {
        &&& self.cpu is None
        &&& self.host is None
        &&& self.root is None
        &&& self.branch is None
        &&& self.code_version is None
        &&& self.extra@ == Map::<String, Value>::empty()
    }

    /// A builder that starts from the default value.
    pub fn builder() -> (builder: ServerBuilder)
        ensures
            builder.node().is_default(),
    {
        ServerBuilder::new()
    }
}

impl Default for Server {
    fn default() -> (part: Server)
        ensures
            part.is_default(),
    {
        Server { cpu: None, host: None, root: None, branch: None, code_version: None, extra: HashMap::new() }
    }
}

/// Sets the fields of a `Server` one by one.
pub struct ServerBuilder {
    node: Server,
}

impl ServerBuilder {
    /// The value as built so far.
    pub closed spec fn node(&self) -> Server {
        self.node
    }

    /// A builder that starts from the default value.
    pub fn new() -> (builder: Self)
        ensures
            builder.node().is_default(),
    {
        ServerBuilder { node: Server::default() }
    }

    /// Sets `cpu`.
    pub fn cpu(self, val: &str) -> (builder: Self)
        ensures
            builder.node().cpu matches Some(text) && text@ == val@,
            builder.node().host == self.node().host,
            builder.node().root == self.node().root,
            builder.node().branch == self.node().branch,
            builder.node().code_version == self.node().code_version,
            builder.node().extra == self.node().extra,
    {
        let mut builder = self;
        builder.node.cpu = Some(val.to_owned());
        builder
    }

    /// Sets `host`.
    pub fn host(self, val: &str) -> (builder: Self)
        ensures
            builder.node().host matches Some(text) && text@ == val@,
            builder.node().cpu == self.node().cpu,
            builder.node().root == self.node().root,
            builder.node().branch == self.node().branch,
            builder.node().code_version == self.node().code_version,
            builder.node().extra == self.node().extra,
    {
        let mut builder = self;
        builder.node.host = Some(val.to_owned());
        builder
    }

    /// Sets `root`.
    pub fn root(self, val: &str) -> (builder: Self)
        ensures
            builder.node().root matches Some(text) && text@ == val@,
            builder.node().cpu == self.node().cpu,
            builder.node().host == self.node().host,
            builder.node().branch == self.node().branch,
            builder.node().code_version == self.node().code_version,
            builder.node().extra == self.node().extra,
    {
        let mut builder = self;
        builder.node.root = Some(val.to_owned());
        builder
    }

    /// Sets `branch`.
    pub fn branch(self, val: &str) -> (builder: Self)
        ensures
            builder.node().branch matches Some(text) && text@ == val@,
            builder.node().cpu == self.node().cpu,
            builder.node().host == self.node().host,
            builder.node().root == self.node().root,
            builder.node().code_version == self.node().code_version,
            builder.node().extra == self.node().extra,
    {
        let mut builder = self;
        builder.node.branch = Some(val.to_owned());
        builder
    }

    /// Sets `code_version`.
    pub fn code_version(self, val: &str) -> (builder: Self)
        ensures
            builder.node().code_version matches Some(text) && text@ == val@,
            builder.node().cpu == self.node().cpu,
            builder.node().host == self.node().host,
            builder.node().root == self.node().root,
            builder.node().branch == self.node().branch,
            builder.node().extra == self.node().extra,
    {
        let mut builder = self;
        builder.node.code_version = Some(val.to_owned());
        builder
    }

    /// Sets `extra`.
    pub fn extra(self, val: HashMap<String, Value>) -> (builder: Self)
        ensures
            builder.node().extra == val,
            builder.node().cpu == self.node().cpu,
            builder.node().host == self.node().host,
            builder.node().root == self.node().root,
            builder.node().branch == self.node().branch,
            builder.node().code_version == self.node().code_version,
    {
        let mut builder = self;
        builder.node.extra = val;
        builder
    }

    /// The value as built.
    pub fn build(self) -> (node: Server)
        ensures
            node == self.node(),
    {
        self.node
    }
}

/// What is known of the browser a report comes from.
#[derive(Debug)]
pub struct Javascript {
    pub browser: Option<String>,
    pub code_version: Option<String>,
    pub source_map_enabled: Option<bool>,
    pub guess_uncaught_frames: Option<bool>,
    pub extra: HashMap<String, Value>,
}

impl Javascript {
    /// Every field is empty or absent.
    pub open spec fn is_default(&self) -> bool {
        &&& self.browser is None
        &&& self.code_version is None
        &&& self.source_map_enabled is None
        &&& self.guess_uncaught_frames is None
        &&& self.extra@ == Map::<String, Value>::empty()
    }

    /// A builder that starts from the default value.
    pub fn builder() -> (builder: JavascriptBuilder)
        ensures
            builder.node().is_default(),
    {
        JavascriptBuilder::new()
    }
}

impl Default for Javascript {
    fn default() -> (part: Javascript)
        ensures
            part.is_default(),
    {
        Javascript { browser: None, code_version: None, source_map_enabled: None, guess_uncaught_frames: None, extra: HashMap::new() }
    }
}

/// Sets the fields of a `Javascript` one by one.
pub struct JavascriptBuilder {
    node: Javascript,
}

impl JavascriptBuilder {
    /// The value as built so far.
    pub closed spec fn node(&self) -> Javascript {
        self.node
    }

    /// A builder that starts from the default value.
    pub fn new() -> (builder: Self)
        ensures
            builder.node().is_default(),
    {
        JavascriptBuilder { node: Javascript::default() }
    }

    /// Sets `browser`.
    pub fn browser(self, val: &str) -> (builder: Self)
        ensures
            builder.node().browser matches Some(text) && text@ == val@,
            builder.node().code_version == self.node().code_version,
            builder.node().source_map_enabled == self.node().source_map_enabled,
            builder.node().guess_uncaught_frames == self.node().guess_uncaught_frames,
            builder.node().extra == self.node().extra,
    {
        let mut builder = self;
        builder.node.browser = Some(val.to_owned());
        builder
    }

    /// Sets `code_version`.
    pub fn code_version(self, val: &str) -> (builder: Self)
        ensures
            builder.node().code_version matches Some(text) && text@ == val@,
            builder.node().browser == self.node().browser,
            builder.node().source_map_enabled == self.node().source_map_enabled,
            builder.node().guess_uncaught_frames == self.node().guess_uncaught_frames,
            builder.node().extra == self.node().extra,
    {
        let mut builder = self;
        builder.node.code_version = Some(val.to_owned());
        builder
    }

    /// Sets `source_map_enabled`.
    pub fn source_map_enabled(self, val: bool) -> (builder: Self)
        ensures
            builder.node().source_map_enabled == Some(val),
            builder.node().browser == self.node().browser,
            builder.node().code_version == self.node().code_version,
            builder.node().guess_uncaught_frames == self.node().guess_uncaught_frames,
            builder.node().extra == self.node().extra,
    {
        let mut builder = self;
        builder.node.source_map_enabled = Some(val);
        builder
    }

    /// Sets `guess_uncaught_frames`.
    pub fn guess_uncaught_frames(self, val: bool) -> (builder: Self)
        ensures
            builder.node().guess_uncaught_frames == Some(val),
            builder.node().browser == self.node().browser,
            builder.node().code_version == self.node().code_version,
            builder.node().source_map_enabled == self.node().source_map_enabled,
            builder.node().extra == self.node().extra,
    {
        let mut builder = self;
        builder.node.guess_uncaught_frames = Some(val);
        builder
    }

    /// Sets `extra`.
    pub fn extra(self, val: HashMap<String, Value>) -> (builder: Self)
        ensures
            builder.node().extra == val,
            builder.node().browser == self.node().browser,
            builder.node().code_version == self.node().code_version,
            builder.node().source_map_enabled == self.node().source_map_enabled,
            builder.node().guess_uncaught_frames == self.node().guess_uncaught_frames,
    {
        let mut builder = self;
        builder.node.extra = val;
        builder
    }

    /// The value as built.
    pub fn build(self) -> (node: Javascript)
        ensures
            node == self.node(),
    {
        self.node
    }
}

/// The client a report comes from.
#[derive(Debug)]
pub struct Client {
    pub cpu: Option<String>,
    pub javascript: Option<Javascript>,
    pub extra: HashMap<String, Value>,
}

impl Client {
    /// Every field is empty or absent.
    pub open spec fn is_default(&self) -> bool {
        &&& self.cpu is None
        &&& self.javascript is None
        &&& self.extra@ == Map::<String, Value>::empty()
    }

    /// A builder that starts from the default value.
    pub fn builder() -> (builder: ClientBuilder)
        ensures
            builder.node().is_default(),
    {
        ClientBuilder::new()
    }
}

impl Default for Client {
    fn default() -> (part: Client)
        ensures
            part.is_default(),
    {
        Client { cpu: None, javascript: None, extra: HashMap::new() }
    }
}

/// Sets the fields of a `Client` one by one.
pub struct ClientBuilder {
    node: Client,
}

impl ClientBuilder {
    /// The value as built so far.
    pub closed spec fn node(&self) -> Client {
        self.node
    }

    /// A builder that starts from the default value.
    pub fn new() -> (builder: Self)
        ensures
            builder.node().is_default(),
    {
        ClientBuilder { node: Client::default() }
    }

    /// Sets `cpu`.
    pub fn cpu(self, val: &str) -> (builder: Self)
        ensures
            builder.node().cpu matches Some(text) && text@ == val@,
            builder.node().javascript == self.node().javascript,
            builder.node().extra == self.node().extra,
    {
        let mut builder = self;
        builder.node.cpu = Some(val.to_owned());
        builder
    }

    /// Sets `javascript`.
    pub fn javascript(self, val: Javascript) -> (builder: Self)
        ensures
            builder.node().javascript == Some(val),
            builder.node().cpu == self.node().cpu,
            builder.node().extra == self.node().extra,
    {
        let mut builder = self;
        builder.node.javascript = Some(val);
        builder
    }

    /// Sets `extra`.
    pub fn extra(self, val: HashMap<String, Value>) -> (builder: Self)
        ensures
            builder.node().extra == val,
            builder.node().cpu == self.node().cpu,
            builder.node().javascript == self.node().javascript,
    {
        let mut builder = self;
        builder.node.extra = val;
        builder
    }

    /// The value as built.
    pub fn build(self) -> (node: Client)
        ensures
            node == self.node(),
    {
        self.node
    }
}

/// Everything a report says.
#[derive(Debug)]
pub struct Data {
    pub body: Body,
    pub environment: Option<String>,
    pub level: Option<Level>,
    pub timestamp: Option<u64>,
    pub code_version: Option<String>,
    pub platform: Option<String>,
    pub language: Option<String>,
    pub framework: Option<String>,
    pub context: Option<String>,
    pub client: Option<Client>,
    pub request: Option<Request>,
    pub server: Option<Server>,
    pub custom: Option<HashMap<String, Value>>,
    pub person: Option<Person>,
    pub fingerprint: Option<String>,
    pub title: Option<String>,
    pub uuid: Option<String>,
    pub notifier: Option<Notifier>,
}

impl Data {
    /// Every field is empty or absent.
    pub open spec fn is_default(&self) -> bool {
        &&& self.body is Unset
        &&& self.environment is None
        &&& self.level is None
        &&& self.timestamp is None
        &&& self.code_version is None
        &&& self.platform is None
        &&& self.language is None
        &&& self.framework is None
        &&& self.context is None
        &&& self.client is None
        &&& self.request is None
        &&& self.server is None
        &&& self.custom is None
        &&& self.person is None
        &&& self.fingerprint is None
        &&& self.title is None
        &&& self.uuid is None
        &&& self.notifier is None
    }

    /// A builder that starts from the default value.
    pub fn builder() -> (builder: DataBuilder)
        ensures
            builder.node().is_default(),
    {
        DataBuilder::new()
    }
}

impl Default for Data {
    fn default() -> (part: Data)
        ensures
            part.is_default(),
    {
        Data { body: Body::Unset, environment: None, level: None, timestamp: None, code_version: None, platform: None, language: None, framework: None, context: None, client: None, request: None, server: None, custom: None, person: None, fingerprint: None, title: None, uuid: None, notifier: None }
    }
}

/// Sets the fields of a `Data` one by one.
pub struct DataBuilder {
    node: Data,
}

impl DataBuilder {
    /// The value as built so far.
    pub closed spec fn node(&self) -> Data {
        self.node
    }

    /// A builder that starts from the default value.
    pub fn new() -> (builder: Self)
        ensures
            builder.node().is_default(),
    {
        DataBuilder { node: Data::default() }
    }

    /// Sets `body`.
    pub fn body(self, val: Body) -> (builder: Self)
        ensures
            builder.node().body == val,
            builder.node().environment == self.node().environment,
            builder.node().level == self.node().level,
            builder.node().timestamp == self.node().timestamp,
            builder.node().code_version == self.node().code_version,
            builder.node().platform == self.node().platform,
            builder.node().language == self.node().language,
            builder.node().framework == self.node().framework,
            builder.node().context == self.node().context,
            builder.node().client == self.node().client,
            builder.node().request == self.node().request,
            builder.node().server == self.node().server,
            builder.node().custom == self.node().custom,
            builder.node().person == self.node().person,
            builder.node().fingerprint == self.node().fingerprint,
            builder.node().title == self.node().title,
            builder.node().uuid == self.node().uuid,
            builder.node().notifier == self.node().notifier,
    {
        let mut builder = self;
        builder.node.body = val;
        builder
    }

    /// Sets `environment`.
    pub fn environment(self, val: &str) -> (builder: Self)
        ensures
            builder.node().environment matches Some(text) && text@ == val@,
            builder.node().body == self.node().body,
            builder.node().level == self.node().level,
            builder.node().timestamp == self.node().timestamp,
            builder.node().code_version == self.node().code_version,
            builder.node().platform == self.node().platform,
            builder.node().language == self.node().language,
            builder.node().framework == self.node().framework,
            builder.node().context == self.node().context,
            builder.node().client == self.node().client,
            builder.node().request == self.node().request,
            builder.node().server == self.node().server,
            builder.node().custom == self.node().custom,
            builder.node().person == self.node().person,
            builder.node().fingerprint == self.node().fingerprint,
            builder.node().title == self.node().title,
            builder.node().uuid == self.node().uuid,
            builder.node().notifier == self.node().notifier,
    {
        let mut builder = self;
        builder.node.environment = Some(val.to_owned());
        builder
    }

    /// Sets `level`.
    pub fn level(self, val: Level) -> (builder: Self)
        ensures
            builder.node().level == Some(val),
            builder.node().body == self.node().body,
            builder.node().environment == self.node().environment,
            builder.node().timestamp == self.node().timestamp,
            builder.node().code_version == self.node().code_version,
            builder.node().platform == self.node().platform,
            builder.node().language == self.node().language,
            builder.node().framework == self.node().framework,
            builder.node().context == self.node().context,
            builder.node().client == self.node().client,
            builder.node().request == self.node().request,
            builder.node().server == self.node().server,
            builder.node().custom == self.node().custom,
            builder.node().person == self.node().person,
            builder.node().fingerprint == self.node().fingerprint,
            builder.node().title == self.node().title,
            builder.node().uuid == self.node().uuid,
            builder.node().notifier == self.node().notifier,
    {
        let mut builder = self;
        builder.node.level = Some(val);
        builder
    }

    /// Sets `timestamp`.
    pub fn timestamp(self, val: u64) -> (builder: Self)
        ensures
            builder.node().timestamp == Some(val),
            builder.node().body == self.node().body,
            builder.node().environment == self.node().environment,
            builder.node().level == self.node().level,
            builder.node().code_version == self.node().code_version,
            builder.node().platform == self.node().platform,
            builder.node().language == self.node().language,
            builder.node().framework == self.node().framework,
            builder.node().context == self.node().context,
            builder.node().client == self.node().client,
            builder.node().request == self.node().request,
            builder.node().server == self.node().server,
            builder.node().custom == self.node().custom,
            builder.node().person == self.node().person,
            builder.node().fingerprint == self.node().fingerprint,
            builder.node().title == self.node().title,
            builder.node().uuid == self.node().uuid,
            builder.node().notifier == self.node().notifier,
    {
        let mut builder = self;
        builder.node.timestamp = Some(val);
        builder
    }

    /// Sets `code_version`.
    pub fn code_version(self, val: &str) -> (builder: Self)
        ensures
            builder.node().code_version matches Some(text) && text@ == val@,
            builder.node().body == self.node().body,
            builder.node().environment == self.node().environment,
            builder.node().level == self.node().level,
            builder.node().timestamp == self.node().timestamp,
            builder.node().platform == self.node().platform,
            builder.node().language == self.node().language,
            builder.node().framework == self.node().framework,
            builder.node().context == self.node().context,
            builder.node().client == self.node().client,
            builder.node().request == self.node().request,
            builder.node().server == self.node().server,
            builder.node().custom == self.node().custom,
            builder.node().person == self.node().person,
            builder.node().fingerprint == self.node().fingerprint,
            builder.node().title == self.node().title,
            builder.node().uuid == self.node().uuid,
            builder.node().notifier == self.node().notifier,
    {
        let mut builder = self;
        builder.node.code_version = Some(val.to_owned());
        builder
    }

    /// Sets `platform`.
    pub fn platform(self, val: &str) -> (builder: Self)
        ensures
            builder.node().platform matches Some(text) && text@ == val@,
            builder.node().body == self.node().body,
            builder.node().environment == self.node().environment,
            builder.node().level == self.node().level,
            builder.node().timestamp == self.node().timestamp,
            builder.node().code_version == self.node().code_version,
            builder.node().language == self.node().language,
            builder.node().framework == self.node().framework,
            builder.node().context == self.node().context,
            builder.node().client == self.node().client,
            builder.node().request == self.node().request,
            builder.node().server == self.node().server,
            builder.node().custom == self.node().custom,
            builder.node().person == self.node().person,
            builder.node().fingerprint == self.node().fingerprint,
            builder.node().title == self.node().title,
            builder.node().uuid == self.node().uuid,
            builder.node().notifier == self.node().notifier,
    {
        let mut builder = self;
        builder.node.platform = Some(val.to_owned());
        builder
    }

    /// Sets `language`.
    pub fn language(self, val: &str) -> (builder: Self)
        ensures
            builder.node().language matches Some(text) && text@ == val@,
            builder.node().body == self.node().body,
            builder.node().environment == self.node().environment,
            builder.node().level == self.node().level,
            builder.node().timestamp == self.node().timestamp,
            builder.node().code_version == self.node().code_version,
            builder.node().platform == self.node().platform,
            builder.node().framework == self.node().framework,
            builder.node().context == self.node().context,
            builder.node().client == self.node().client,
            builder.node().request == self.node().request,
            builder.node().server == self.node().server,
            builder.node().custom == self.node().custom,
            builder.node().person == self.node().person,
            builder.node().fingerprint == self.node().fingerprint,
            builder.node().title == self.node().title,
            builder.node().uuid == self.node().uuid,
            builder.node().notifier == self.node().notifier,
    {
        let mut builder = self;
        builder.node.language = Some(val.to_owned());
        builder
    }

    /// Sets `framework`.
    pub fn framework(self, val: &str) -> (builder: Self)
        ensures
            builder.node().framework matches Some(text) && text@ == val@,
            builder.node().body == self.node().body,
            builder.node().environment == self.node().environment,
            builder.node().level == self.node().level,
            builder.node().timestamp == self.node().timestamp,
            builder.node().code_version == self.node().code_version,
            builder.node().platform == self.node().platform,
            builder.node().language == self.node().language,
            builder.node().context == self.node().context,
            builder.node().client == self.node().client,
            builder.node().request == self.node().request,
            builder.node().server == self.node().server,
            builder.node().custom == self.node().custom,
            builder.node().person == self.node().person,
            builder.node().fingerprint == self.node().fingerprint,
            builder.node().title == self.node().title,
            builder.node().uuid == self.node().uuid,
            builder.node().notifier == self.node().notifier,
    {
        let mut builder = self;
        builder.node.framework = Some(val.to_owned());
        builder
    }

    /// Sets `context`.
    pub fn context(self, val: &str) -> (builder: Self)
        ensures
            builder.node().context matches Some(text) && text@ == val@,
            builder.node().body == self.node().body,
            builder.node().environment == self.node().environment,
            builder.node().level == self.node().level,
            builder.node().timestamp == self.node().timestamp,
            builder.node().code_version == self.node().code_version,
            builder.node().platform == self.node().platform,
            builder.node().language == self.node().language,
            builder.node().framework == self.node().framework,
            builder.node().client == self.node().client,
            builder.node().request == self.node().request,
            builder.node().server == self.node().server,
            builder.node().custom == self.node().custom,
            builder.node().person == self.node().person,
            builder.node().fingerprint == self.node().fingerprint,
            builder.node().title == self.node().title,
            builder.node().uuid == self.node().uuid,
            builder.node().notifier == self.node().notifier,
    {
        let mut builder = self;
        builder.node.context = Some(val.to_owned());
        builder
    }

    /// Sets `client`.
    pub fn client(self, val: Client) -> (builder: Self)
        ensures
            builder.node().client == Some(val),
            builder.node().body == self.node().body,
            builder.node().environment == self.node().environment,
            builder.node().level == self.node().level,
            builder.node().timestamp == self.node().timestamp,
            builder.node().code_version == self.node().code_version,
            builder.node().platform == self.node().platform,
            builder.node().language == self.node().language,
            builder.node().framework == self.node().framework,
            builder.node().context == self.node().context,
            builder.node().request == self.node().request,
            builder.node().server == self.node().server,
            builder.node().custom == self.node().custom,
            builder.node().person == self.node().person,
            builder.node().fingerprint == self.node().fingerprint,
            builder.node().title == self.node().title,
            builder.node().uuid == self.node().uuid,
            builder.node().notifier == self.node().notifier,
    {
        let mut builder = self;
        builder.node.client = Some(val);
        builder
    }

    /// Sets `request`.
    pub fn request(self, val: Request) -> (builder: Self)
        ensures
            builder.node().request == Some(val),
            builder.node().body == self.node().body,
            builder.node().environment == self.node().environment,
            builder.node().level == self.node().level,
            builder.node().timestamp == self.node().timestamp,
            builder.node().code_version == self.node().code_version,
            builder.node().platform == self.node().platform,
            builder.node().language == self.node().language,
            builder.node().framework == self.node().framework,
            builder.node().context == self.node().context,
            builder.node().client == self.node().client,
            builder.node().server == self.node().server,
            builder.node().custom == self.node().custom,
            builder.node().person == self.node().person,
            builder.node().fingerprint == self.node().fingerprint,
            builder.node().title == self.node().title,
            builder.node().uuid == self.node().uuid,
            builder.node().notifier == self.node().notifier,
    {
        let mut builder = self;
        builder.node.request = Some(val);
        builder
    }

    /// Sets `server`.
    pub fn server(self, val: Server) -> (builder: Self)
        ensures
            builder.node().server == Some(val),
            builder.node().body == self.node().body,
            builder.node().environment == self.node().environment,
            builder.node().level == self.node().level,
            builder.node().timestamp == self.node().timestamp,
            builder.node().code_version == self.node().code_version,
            builder.node().platform == self.node().platform,
            builder.node().language == self.node().language,
            builder.node().framework == self.node().framework,
            builder.node().context == self.node().context,
            builder.node().client == self.node().client,
            builder.node().request == self.node().request,
            builder.node().custom == self.node().custom,
            builder.node().person == self.node().person,
            builder.node().fingerprint == self.node().fingerprint,
            builder.node().title == self.node().title,
            builder.node().uuid == self.node().uuid,
            builder.node().notifier == self.node().notifier,
    {
        let mut builder = self;
        builder.node.server = Some(val);
        builder
    }

    /// Sets `custom`.
    pub fn custom(self, val: HashMap<String, Value>) -> (builder: Self)
        ensures
            builder.node().custom == Some(val),
            builder.node().body == self.node().body,
            builder.node().environment == self.node().environment,
            builder.node().level == self.node().level,
            builder.node().timestamp == self.node().timestamp,
            builder.node().code_version == self.node().code_version,
            builder.node().platform == self.node().platform,
            builder.node().language == self.node().language,
            builder.node().framework == self.node().framework,
            builder.node().context == self.node().context,
            builder.node().client == self.node().client,
            builder.node().request == self.node().request,
            builder.node().server == self.node().server,
            builder.node().person == self.node().person,
            builder.node().fingerprint == self.node().fingerprint,
            builder.node().title == self.node().title,
            builder.node().uuid == self.node().uuid,
            builder.node().notifier == self.node().notifier,
    {
        let mut builder = self;
        builder.node.custom = Some(val);
        builder
    }

    /// Sets `person`.
    pub fn person(self, val: Person) -> (builder: Self)
        ensures
            builder.node().person == Some(val),
            builder.node().body == self.node().body,
            builder.node().environment == self.node().environment,
            builder.node().level == self.node().level,
            builder.node().timestamp == self.node().timestamp,
            builder.node().code_version == self.node().code_version,
            builder.node().platform == self.node().platform,
            builder.node().language == self.node().language,
            builder.node().framework == self.node().framework,
            builder.node().context == self.node().context,
            builder.node().client == self.node().client,
            builder.node().request == self.node().request,
            builder.node().server == self.node().server,
            builder.node().custom == self.node().custom,
            builder.node().fingerprint == self.node().fingerprint,
            builder.node().title == self.node().title,
            builder.node().uuid == self.node().uuid,
            builder.node().notifier == self.node().notifier,
    {
        let mut builder = self;
        builder.node.person = Some(val);
        builder
    }

    /// Sets `fingerprint`.
    pub fn fingerprint(self, val: &str) -> (builder: Self)
        ensures
            builder.node().fingerprint matches Some(text) && text@ == val@,
            builder.node().body == self.node().body,
            builder.node().environment == self.node().environment,
            builder.node().level == self.node().level,
            builder.node().timestamp == self.node().timestamp,
            builder.node().code_version == self.node().code_version,
            builder.node().platform == self.node().platform,
            builder.node().language == self.node().language,
            builder.node().framework == self.node().framework,
            builder.node().context == self.node().context,
            builder.node().client == self.node().client,
            builder.node().request == self.node().request,
            builder.node().server == self.node().server,
            builder.node().custom == self.node().custom,
            builder.node().person == self.node().person,
            builder.node().title == self.node().title,
            builder.node().uuid == self.node().uuid,
            builder.node().notifier == self.node().notifier,
    {
        let mut builder = self;
        builder.node.fingerprint = Some(val.to_owned());
        builder
    }

    /// Sets `title`.
    pub fn title(self, val: &str) -> (builder: Self)
        ensures
            builder.node().title matches Some(text) && text@ == val@,
            builder.node().body == self.node().body,
            builder.node().environment == self.node().environment,
            builder.node().level == self.node().level,
            builder.node().timestamp == self.node().timestamp,
            builder.node().code_version == self.node().code_version,
            builder.node().platform == self.node().platform,
            builder.node().language == self.node().language,
            builder.node().framework == self.node().framework,
            builder.node().context == self.node().context,
            builder.node().client == self.node().client,
            builder.node().request == self.node().request,
            builder.node().server == self.node().server,
            builder.node().custom == self.node().custom,
            builder.node().person == self.node().person,
            builder.node().fingerprint == self.node().fingerprint,
            builder.node().uuid == self.node().uuid,
            builder.node().notifier == self.node().notifier,
    {
        let mut builder = self;
        builder.node.title = Some(val.to_owned());
        builder
    }

    /// Sets `uuid`.
    pub fn uuid(self, val: &str) -> (builder: Self)
        ensures
            builder.node().uuid matches Some(text) && text@ == val@,
            builder.node().body == self.node().body,
            builder.node().environment == self.node().environment,
            builder.node().level == self.node().level,
            builder.node().timestamp == self.node().timestamp,
            builder.node().code_version == self.node().code_version,
            builder.node().platform == self.node().platform,
            builder.node().language == self.node().language,
            builder.node().framework == self.node().framework,
            builder.node().context == self.node().context,
            builder.node().client == self.node().client,
            builder.node().request == self.node().request,
            builder.node().server == self.node().server,
            builder.node().custom == self.node().custom,
            builder.node().person == self.node().person,
            builder.node().fingerprint == self.node().fingerprint,
            builder.node().title == self.node().title,
            builder.node().notifier == self.node().notifier,
    {
        let mut builder = self;
        builder.node.uuid = Some(val.to_owned());
        builder
    }

    /// Sets `notifier`.
    pub fn notifier(self, val: Notifier) -> (builder: Self)
        ensures
            builder.node().notifier == Some(val),
            builder.node().body == self.node().body,
            builder.node().environment == self.node().environment,
            builder.node().level == self.node().level,
            builder.node().timestamp == self.node().timestamp,
            builder.node().code_version == self.node().code_version,
            builder.node().platform == self.node().platform,
            builder.node().language == self.node().language,
            builder.node().framework == self.node().framework,
            builder.node().context == self.node().context,
            builder.node().client == self.node().client,
            builder.node().request == self.node().request,
            builder.node().server == self.node().server,
            builder.node().custom == self.node().custom,
            builder.node().person == self.node().person,
            builder.node().fingerprint == self.node().fingerprint,
            builder.node().title == self.node().title,
            builder.node().uuid == self.node().uuid,
    {
        let mut builder = self;
        builder.node.notifier = Some(val);
        builder
    }

    /// The value as built.
    pub fn build(self) -> (node: Data)
        ensures
            node == self.node(),
    {
        self.node
    }
}

/// A report with the credential it is sent under.
#[derive(Debug)]
pub struct Item {
    pub access_token: String,
    pub data: Data,
}

impl Item {
    /// Every field is empty or absent.
    pub open spec fn is_default(&self) -> bool {
        &&& self.access_token@ == Seq::<char>::empty()
        &&& self.data.is_default()
    }

    /// A builder that starts from the default value.
    pub fn builder() -> (builder: ItemBuilder)
        ensures
            builder.node().is_default(),
    {
        ItemBuilder::new()
    }
}

impl Default for Item {
    fn default() -> (part: Item)
        ensures
            part.is_default(),
    {
        Item { access_token: String::new(), data: Data::default() }
    }
}

/// Sets the fields of an `Item` one by one.
pub struct ItemBuilder {
    node: Item,
}

impl ItemBuilder {
    /// The value as built so far.
    pub closed spec fn node(&self) -> Item {
        self.node
    }

    /// A builder that starts from the default value.
    pub fn new() -> (builder: Self)
        ensures
            builder.node().is_default(),
    {
        ItemBuilder { node: Item::default() }
    }

    /// Sets `access_token`.
    pub fn access_token(self, val: &str) -> (builder: Self)
        ensures
            builder.node().access_token@ == val@,
            builder.node().data == self.node().data,
    {
        let mut builder = self;
        builder.node.access_token = val.to_owned();
        builder
    }

    /// Sets `data`.
    pub fn data(self, val: Data) -> (builder: Self)
        ensures
            builder.node().data == val,
            builder.node().access_token == self.node().access_token,
    {
        let mut builder = self;
        builder.node.data = val;
        builder
    }

    /// The value as built.
    pub fn build(self) -> (node: Item)
        ensures
            node == self.node(),
    {
        self.node
    }
}

} // verus!
