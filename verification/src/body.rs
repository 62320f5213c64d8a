//! The body of a report, which takes one of four forms, and the builders
//! that lead to each.

use crate::payload::{Message, Telemetry, Trace};
use crate::types::CrashReport;
use vstd::prelude::*;

verus! {

/// The body of a report.
#[derive(Debug)]
pub enum Body {
    /// No body was given yet.
    Unset,
    TraceBody { telemetry: Option<Vec<Telemetry>>, trace: Trace },
    MessageBody { telemetry: Option<Vec<Telemetry>>, message: Message },
    TraceChainBody { telemetry: Option<Vec<Telemetry>>, trace_chain: Vec<Trace> },
    CrashReportBody { telemetry: Option<Vec<Telemetry>>, crash_report: CrashReport },
}

impl Default for Body {
    fn default() -> (body: Body)
        ensures
            body is Unset,
    {
        Body::Unset
    }
}

/// The telemetry after one more event: it joins the events there are, or
/// is the first.
pub open spec fn telemetry_pushed(telemetry: Option<Vec<Telemetry>>, item: Telemetry) -> Seq<
    Telemetry,
> {
    match telemetry {
        Some(events) => events@.push(item),
        None => seq![item],
    }
}

fn push_event(telemetry: Option<Vec<Telemetry>>, item: Telemetry) -> (pushed: Option<
    Vec<Telemetry>,
>)
    ensures
        pushed matches Some(events) && events@ == telemetry_pushed(telemetry, item),
{
    let mut events = match telemetry {
        Some(events) => events,
        None => Vec::new(),
    };
    events.push(item);
    Some(events)
}

impl Body {
    /// A builder that knows of no telemetry and of no form yet.
    pub fn builder() -> (builder: BodyBuilder)
        ensures
            builder.spec_telemetry() is None,
    {
        BodyBuilder::new()
    }
}

/// Gathers telemetry until the form of the body is chosen.
pub struct BodyBuilder {
    telemetry: Option<Vec<Telemetry>>,
}

impl Default for BodyBuilder {
    fn default() -> (builder: BodyBuilder)
        ensures
            builder.spec_telemetry() is None,
    {
        BodyBuilder { telemetry: None }
    }
}

impl BodyBuilder {
    /// The telemetry gathered so far.
    pub closed spec fn spec_telemetry(&self) -> Option<Vec<Telemetry>> {
        self.telemetry
    }

    /// A builder that knows of no telemetry.
    pub fn new() -> (builder: Self)
        ensures
            builder.spec_telemetry() is None,
    {
        BodyBuilder { telemetry: None }
    }

    /// Takes these events for the telemetry, in place of any gathered.
    pub fn telemetry(self, val: Vec<Telemetry>) -> (builder: Self)
        ensures
            builder.spec_telemetry() == Some(val),
    {
        BodyBuilder { telemetry: Some(val) }
    }

    /// Adds one event to the telemetry.
    pub fn push_telemetry(self, item: Telemetry) -> (builder: Self)
        ensures
            builder.spec_telemetry() matches Some(events) && events@ == telemetry_pushed(
                self.spec_telemetry(),
                item,
            ),
    {
        BodyBuilder { telemetry: push_event(self.telemetry, item) }
    }

    /// Chooses the form of a message.
    pub fn message(self, message: Message) -> (builder: MessageBodyBuilder)
        ensures
            builder.spec_telemetry() == self.spec_telemetry(),
            builder.node() == message,
    {
        MessageBodyBuilder::new(self.telemetry, message)
    }

    /// Chooses the form of a single trace.
    pub fn trace(self, trace: Trace) -> (builder: TraceBodyBuilder)
        ensures
            builder.spec_telemetry() == self.spec_telemetry(),
            builder.node() == trace,
    {
        TraceBodyBuilder::new(self.telemetry, trace)
    }

    /// Chooses the form of a chain of traces and gives the chain.
    pub fn trace_chain(self, trace_chain: Vec<Trace>) -> (builder: TraceChainBodyBuilder)
        ensures
            builder.spec_telemetry() == self.spec_telemetry(),
            builder.chain() == trace_chain@,
    {
        TraceChainBodyBuilder::new(self.telemetry, trace_chain)
    }

    /// Chooses the form of a chain of traces and gives its first trace.
    pub fn push_trace(self, trace: Trace) -> (builder: TraceChainBodyBuilder)
        ensures
            builder.spec_telemetry() == self.spec_telemetry(),
            builder.chain() == seq![trace],
    {
        let mut chain: Vec<Trace> = Vec::new();
        chain.push(trace);
        TraceChainBodyBuilder::new(self.telemetry, chain)
    }
}

/// Builds a body of a single trace.
pub struct TraceBodyBuilder {
    telemetry: Option<Vec<Telemetry>>,
    node: Trace,
}

impl TraceBodyBuilder {
    /// The telemetry gathered so far.
    pub closed spec fn spec_telemetry(&self) -> Option<Vec<Telemetry>> {
        self.telemetry
    }

    /// The trace as it stands.
    pub closed spec fn node(&self) -> Trace {
        self.node
    }

    /// A builder with this telemetry and this trace.
    pub fn new(telemetry: Option<Vec<Telemetry>>, node: Trace) -> (builder: Self)
        ensures
            builder.spec_telemetry() == telemetry,
            builder.node() == node,
    {
        TraceBodyBuilder { telemetry, node }
    }

    /// Takes these events for the telemetry, in place of any gathered.
    pub fn telemetry(self, val: Vec<Telemetry>) -> (builder: Self)
        ensures
            builder.spec_telemetry() == Some(val),
            builder.node() == self.node(),
    {
        TraceBodyBuilder { telemetry: Some(val), node: self.node }
    }

    /// Adds one event to the telemetry.
    pub fn push_telemetry(self, item: Telemetry) -> (builder: Self)
        ensures
            builder.spec_telemetry() matches Some(events) && events@ == telemetry_pushed(
                self.spec_telemetry(),
                item,
            ),
            builder.node() == self.node(),
    {
        TraceBodyBuilder { telemetry: push_event(self.telemetry, item), node: self.node }
    }

    /// Takes this trace in place of the one there is.
    pub fn trace(self, node: Trace) -> (builder: Self)
        ensures
            builder.spec_telemetry() == self.spec_telemetry(),
            builder.node() == node,
    {
        TraceBodyBuilder { telemetry: self.telemetry, node }
    }

    /// The body as built.
    pub fn build(self) -> (body: Body)
        ensures
            body == (Body::TraceBody { telemetry: self.spec_telemetry(), trace: self.node() }),
    {
        Body::TraceBody { telemetry: self.telemetry, trace: self.node }
    }
}

/// Builds a body of a message.
pub struct MessageBodyBuilder {
    telemetry: Option<Vec<Telemetry>>,
    node: Message,
}

impl MessageBodyBuilder {
    /// The telemetry gathered so far.
    pub closed spec fn spec_telemetry(&self) -> Option<Vec<Telemetry>> {
        self.telemetry
    }

    /// The message as it stands.
    pub closed spec fn node(&self) -> Message {
        self.node
    }

    /// A builder with this telemetry and this message.
    pub fn new(telemetry: Option<Vec<Telemetry>>, node: Message) -> (builder: Self)
        ensures
            builder.spec_telemetry() == telemetry,
            builder.node() == node,
    {
        MessageBodyBuilder { telemetry, node }
    }

    /// Takes these events for the telemetry, in place of any gathered.
    pub fn telemetry(self, val: Vec<Telemetry>) -> (builder: Self)
        ensures
            builder.spec_telemetry() == Some(val),
            builder.node() == self.node(),
    {
        MessageBodyBuilder { telemetry: Some(val), node: self.node }
    }

    /// Adds one event to the telemetry.
    pub fn push_telemetry(self, item: Telemetry) -> (builder: Self)
        ensures
            builder.spec_telemetry() matches Some(events) && events@ == telemetry_pushed(
                self.spec_telemetry(),
                item,
            ),
            builder.node() == self.node(),
    {
        MessageBodyBuilder { telemetry: push_event(self.telemetry, item), node: self.node }
    }

    /// Takes this message in place of the one there is.
    pub fn message(self, node: Message) -> (builder: Self)
        ensures
            builder.spec_telemetry() == self.spec_telemetry(),
            builder.node() == node,
    {
        MessageBodyBuilder { telemetry: self.telemetry, node }
    }

    /// The body as built.
    pub fn build(self) -> (body: Body)
        ensures
            body == (Body::MessageBody { telemetry: self.spec_telemetry(), message: self.node() }),
    {
        Body::MessageBody { telemetry: self.telemetry, message: self.node }
    }
}

/// Builds a body of a crash report.
pub struct CrashReportBodyBuilder {
    telemetry: Option<Vec<Telemetry>>,
    node: CrashReport,
}

impl CrashReportBodyBuilder {
    /// The telemetry gathered so far.
    pub closed spec fn spec_telemetry(&self) -> Option<Vec<Telemetry>> {
        self.telemetry
    }

    /// The crash report as it stands.
    pub closed spec fn node(&self) -> CrashReport {
        self.node
    }

    /// A builder with this telemetry and this crash report.
    pub fn new(telemetry: Option<Vec<Telemetry>>, node: CrashReport) -> (builder: Self)
        ensures
            builder.spec_telemetry() == telemetry,
            builder.node() == node,
    {
        CrashReportBodyBuilder { telemetry, node }
    }

    /// Takes these events for the telemetry, in place of any gathered.
    pub fn telemetry(self, val: Vec<Telemetry>) -> (builder: Self)
        ensures
            builder.spec_telemetry() == Some(val),
            builder.node() == self.node(),
    {
        CrashReportBodyBuilder { telemetry: Some(val), node: self.node }
    }

    /// Adds one event to the telemetry.
    pub fn push_telemetry(self, item: Telemetry) -> (builder: Self)
        ensures
            builder.spec_telemetry() matches Some(events) && events@ == telemetry_pushed(
                self.spec_telemetry(),
                item,
            ),
            builder.node() == self.node(),
    {
        CrashReportBodyBuilder { telemetry: push_event(self.telemetry, item), node: self.node }
    }

    /// Takes this crash report in place of the one there is.
    pub fn crash_report(self, node: CrashReport) -> (builder: Self)
        ensures
            builder.spec_telemetry() == self.spec_telemetry(),
            builder.node() == node,
    {
        CrashReportBodyBuilder { telemetry: self.telemetry, node }
    }

    /// The body as built.
    pub fn build(self) -> (body: Body)
        ensures
            body == (Body::CrashReportBody {
                telemetry: self.spec_telemetry(),
                crash_report: self.node(),
            }),
    {
        Body::CrashReportBody { telemetry: self.telemetry, crash_report: self.node }
    }
}

/// Builds a body of a chain of traces.
pub struct TraceChainBodyBuilder {
    telemetry: Option<Vec<Telemetry>>,
    trace_chain: Vec<Trace>,
}

impl TraceChainBodyBuilder {
    /// The telemetry gathered so far.
    pub closed spec fn spec_telemetry(&self) -> Option<Vec<Telemetry>> {
        self.telemetry
    }

    /// The chain of traces as it stands.
    pub closed spec fn chain(&self) -> Seq<Trace> {
        self.trace_chain@
    }

    /// A builder with this telemetry and this chain.
    pub fn new(telemetry: Option<Vec<Telemetry>>, trace_chain: Vec<Trace>) -> (builder: Self)
        ensures
            builder.spec_telemetry() == telemetry,
            builder.chain() == trace_chain@,
    {
        TraceChainBodyBuilder { telemetry, trace_chain }
    }

    /// Takes these events for the telemetry, in place of any gathered.
    pub fn telemetry(self, val: Vec<Telemetry>) -> (builder: Self)
        ensures
            builder.spec_telemetry() == Some(val),
            builder.chain() == self.chain(),
    {
        TraceChainBodyBuilder { telemetry: Some(val), trace_chain: self.trace_chain }
    }

    /// Adds one event to the telemetry.
    pub fn push_telemetry(self, item: Telemetry) -> (builder: Self)
        ensures
            builder.spec_telemetry() matches Some(events) && events@ == telemetry_pushed(
                self.spec_telemetry(),
                item,
            ),
            builder.chain() == self.chain(),
    {
        TraceChainBodyBuilder {
            telemetry: push_event(self.telemetry, item),
            trace_chain: self.trace_chain,
        }
    }

    /// Takes this chain in place of the one there is.
    pub fn trace_chain(self, trace_chain: Vec<Trace>) -> (builder: Self)
        ensures
            builder.spec_telemetry() == self.spec_telemetry(),
            builder.chain() == trace_chain@,
    {
        TraceChainBodyBuilder { telemetry: self.telemetry, trace_chain }
    }

    /// Adds one trace to the end of the chain.
    pub fn push_trace(self, trace: Trace) -> (builder: Self)
        ensures
            builder.spec_telemetry() == self.spec_telemetry(),
            builder.chain() == self.chain().push(trace),
    {
        let mut chain = self.trace_chain;
        chain.push(trace);
        TraceChainBodyBuilder { telemetry: self.telemetry, trace_chain: chain }
    }

    /// The body as built.
    pub fn build(self) -> (body: Body)
        ensures
            body matches Body::TraceChainBody { telemetry, trace_chain } && telemetry
                == self.spec_telemetry() && trace_chain@ == self.chain(),
    {
        Body::TraceChainBody { telemetry: self.telemetry, trace_chain: self.trace_chain }
    }
}

} // verus!
