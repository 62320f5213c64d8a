//! Reports about exceptions thrown in a Java virtual machine, made from
//! what the machine tells about the exception and its stack.

use crate::body::Body;
use crate::exceptions::{is_ignored, ClassFilter};
use crate::payload::{Data, DataBuilder, Frame, Trace};
use crate::types::{Exception, Level};
use vstd::prelude::*;

verus! {

/// One element of a Java stack trace as the machine hands it out. A text
/// that the machine could not deliver is absent.
#[derive(Debug)]
pub struct StackElement {
    pub class_name: Option<String>,
    pub file_name: Option<String>,
    pub line_number: i32,
    pub method_name: Option<String>,
}

/// The text that the machine delivered, or the stand-in for one it could
/// not deliver.
pub open spec fn text_or(text: Option<String>, stand_in: Seq<char>) -> Seq<char> {
    match text {
        Some(text) => text@,
        None => stand_in,
    }
}

fn or_stand_in(text: Option<String>, stand_in: &str) -> (out: String)
    ensures
        out@ == text_or(text, stand_in@),
{
    match text {
        Some(text) => text,
        None => stand_in.to_owned(),
    }
}

/// What is known of an exception: its class and its message, each with a
/// stand-in where the machine could not deliver it.
pub fn get_exception_info(class: Option<String>, message: Option<String>) -> (exception: Exception)
    ensures
        exception.class@ == text_or(class, "BAD CLASSNAME"@),
        exception.message matches Some(text) && text@ == text_or(message, "BAD MESSAGE"@),
        exception.description is None,
{
    let class = or_stand_in(class, "BAD CLASSNAME");
    let message = or_stand_in(message, "BAD MESSAGE");
    Exception::builder(None).class(class.as_str()).message(message.as_str()).build()
}

/// Whether `frame` says what `element` says, with stand-ins for the
/// texts that are absent, and nothing else.
pub open spec fn frame_of(frame: Frame, element: StackElement) -> bool {
    &&& frame.filename@ == text_or(element.file_name, "BAD FILENAME"@)
    &&& frame.lineno == Some(element.line_number)
    &&& frame.method matches Some(text) && text@ == text_or(element.method_name, "BAD METHOD"@)
    &&& frame.class_name matches Some(text) && text@ == text_or(
        element.class_name,
        "BAD CLASSNAME"@,
    )
    &&& frame.colno is None
    &&& frame.function_code_line is None
    &&& frame.context is None
    &&& frame.argspec is None
    &&& frame.varargspec is None
    &&& frame.keywordspec is None
    &&& frame.locals is None
}

/// The frame that reports one element of a stack trace.
pub fn stack_frame(element: StackElement) -> (frame: Frame)
    ensures
        frame_of(frame, element),
{
    let filename = or_stand_in(element.file_name, "BAD FILENAME");
    let method = or_stand_in(element.method_name, "BAD METHOD");
    let class_name = or_stand_in(element.class_name, "BAD CLASSNAME");
    Frame::builder().filename(filename.as_str()).lineno(element.line_number).method(
        method.as_str(),
    ).class_name(class_name.as_str()).build()
}

/// The frames that report a stack trace, one for each element and in the
/// machine's order.
pub fn get_stack_trace(elements: Vec<StackElement>) -> (frames: Vec<Frame>)
    ensures
        frames@.len() == elements@.len(),
        forall|i: int| 0 <= i < frames@.len() ==> frame_of(#[trigger] frames@[i], elements@[i]),
{
    let mut rest = elements;
    let mut reversed: Vec<Frame> = Vec::new();
    while rest.len() > 0
        invariant
            rest@.len() + reversed@.len() == elements@.len(),
            rest@ == elements@.take(rest@.len() as int),
            forall|i: int|
                0 <= i < reversed@.len() ==> frame_of(
                    #[trigger] reversed@[i],
                    elements@[elements@.len() - 1 - i],
                ),
        decreases rest.len(),
    {
        let element = rest.pop().unwrap();
        reversed.push(stack_frame(element));
    }
    let frames = reverse(reversed);
    frames
}

/// The same values in the opposite order.
pub fn reverse<T>(values: Vec<T>) -> (reversed: Vec<T>)
    ensures
        reversed@ == values@.reverse(),
{
    let mut rest = values;
    let mut reversed: Vec<T> = Vec::new();
    while rest.len() > 0
        invariant
            rest@.len() + reversed@.len() == values@.len(),
            rest@ == values@.take(rest@.len() as int),
            forall|i: int|
                0 <= i < reversed@.len() ==> #[trigger] reversed@[i] == values@[values@.len() - 1
                    - i],
        decreases rest.len(),
    {
        let value = rest.pop().unwrap();
        reversed.push(value);
    }
    reversed
}

/// What is reported of an exception that was thrown: nothing if its class
/// is one of those passed over; otherwise an error in the language `java`
/// whose body is the trace of the exception, with the frames in the
/// opposite of the machine's order. The caller completes and sends it.
pub fn callback(filter: &ClassFilter, exception: Exception, frames: Vec<Frame>) -> (report: Option<
    DataBuilder,
>)
    requires
        filter.wf(),
    ensures
        report is None <==> is_ignored(exception.class@),
        report matches Some(builder) ==> {
            &&& builder.node().body matches Body::TraceBody { telemetry, trace }
            &&& telemetry is None
            &&& trace.frames@ == frames@.reverse()
            &&& trace.exception == exception
            &&& builder.node().language matches Some(text) && text@ == "java"@
            &&& builder.node().level == Some(Level::Error)
            &&& builder.node().environment is None
            &&& builder.node().timestamp is None
            &&& builder.node().code_version is None
            &&& builder.node().platform is None
            &&& builder.node().framework is None
            &&& builder.node().context is None
            &&& builder.node().client is None
            &&& builder.node().request is None
            &&& builder.node().server is None
            &&& builder.node().custom is None
            &&& builder.node().person is None
            &&& builder.node().fingerprint is None
            &&& builder.node().title is None
            &&& builder.node().uuid is None
            &&& builder.node().notifier is None
        },
{
    if filter.should_ignore(exception.class.as_str()) {
        return None;
    }
    let trace = Trace::builder(None).frames(reverse(frames)).exception(exception).build();
    let body = Body::builder().trace(trace).build();
    Some(Data::builder().body(body).language("java").level(Level::Error))
}

} // verus!
