use rollbar_rust::body::{Body, BodyBuilder, CrashReportBodyBuilder, TraceChainBodyBuilder};
use rollbar_rust::configuration::Configuration;
use rollbar_rust::payload::{
    Client, Data, Frame, Item, Javascript, Message, Request, Server, Telemetry, Trace,
};
use rollbar_rust::report::{finish_data, item_for, notifier, Uuid, NOTIFIER_NAME, VERSION};
use rollbar_rust::types::{CrashReport, Exception, Level, Person};
use serde_json::Value;
use std::collections::HashMap;

#[test]
fn test_item_builder() {
    let message = Message::builder().body("Hello, World!").build();
    let body = Body::builder().message(message).build();
    let mut data = Data::default();
    data.body = body;
    let item = Item::builder().access_token("abc123").data(data).build();

    match item.data.body {
        Body::MessageBody { message, .. } => {
            assert_eq!(message.body, "Hello, World!");
        }
        _ => assert!(false),
    }
}

#[test]
fn test_trace_chain_builder() {
    let frame1 = Frame::builder().lineno(99).build();
    let frame2 = Frame::builder().lineno(2).build();
    let mut trace1 = Trace::for_thread(None);
    trace1.frames.push(frame1);
    let mut trace2 = Trace::for_thread(None);
    trace2.frames.push(frame2);
    let trace_chain = Body::builder()
        .push_trace(trace1)
        .push_trace(trace2)
        .build();

    match trace_chain {
        Body::TraceChainBody { trace_chain, .. } => {
            assert_eq!(trace_chain[0].frames[0].lineno, Some(99));
            assert_eq!(trace_chain[1].frames[0].lineno, Some(2));
        }
        _ => assert!(false),
    }
}

#[test]
fn test_frame_builder() {
    let frame = Frame::builder()
        .filename("core/src/types.rs")
        .lineno(42)
        .method("hello")
        .function_code_line("hello(99)")
        .build();

    assert_eq!(frame.lineno.unwrap(), 42);
    assert_eq!(frame.method.unwrap(), "hello");
    assert_eq!(frame.colno, None);
    assert_eq!(frame.filename, "core/src/types.rs");
}

#[test]
fn test_message_builder() {
    let message = Message::builder()
        .body(&format!("Whoa there {}", 42))
        .build();

    assert_eq!(message.body, "Whoa there 42");
}

#[test]
fn test_javascript_builder() {
    let mut extra = HashMap::new();
    extra.insert("stuff".into(), Value::Bool(true));
    let javascript = Javascript::builder()
        .extra(extra)
        .guess_uncaught_frames(true)
        .build();

    assert_eq!(javascript.extra.get("stuff"), Some(&Value::Bool(true)));
    assert!(javascript.guess_uncaught_frames.unwrap());
    assert_eq!(javascript.source_map_enabled, None);
}

#[test]
fn defaults_are_empty() {
    let data = Data::default();
    assert!(matches!(data.body, Body::Unset));
    assert!(data.environment.is_none() && data.level.is_none() && data.timestamp.is_none());
    assert!(data.client.is_none() && data.request.is_none() && data.server.is_none());
    assert!(data.custom.is_none() && data.person.is_none() && data.notifier.is_none());
    assert!(data.uuid.is_none() && data.title.is_none() && data.fingerprint.is_none());
    let item = Item::default();
    assert_eq!(item.access_token, "");
    assert!(matches!(item.data.body, Body::Unset));
    let telemetry = Telemetry::default();
    assert_eq!(telemetry.level, Level::Error);
    assert_eq!(telemetry.timestamp_ms, 0);
    assert!(telemetry.body.is_empty());
    assert_eq!(telemetry.telemetry_type, "");
    let frame = Frame::default();
    assert_eq!(frame.filename, "");
    assert!(frame.locals.is_none() && frame.argspec.is_none());
    assert!(matches!(Body::default(), Body::Unset));
    assert!(Request::default().extra.is_empty());
    assert!(Server::default().host.is_none());
    assert!(Client::default().javascript.is_none());
}

#[test]
fn trace_starts_from_the_thread_name() {
    let trace = Trace::for_thread(Some("main"));
    assert!(trace.frames.is_empty());
    assert_eq!(trace.exception.class, "main");
    let built = Trace::builder(None)
        .frames(vec![Frame::builder().filename("a.rs").build()])
        .exception(Exception::builder(None).class("E").build())
        .build();
    assert_eq!(built.frames.len(), 1);
    assert_eq!(built.exception.class, "E");
    assert_eq!(Trace::builder(None).build().exception.class, "unnamed");
}

#[test]
fn setters_leave_other_fields_alone() {
    let server = Server::builder().cpu("x86_64").host("localhost").build();
    assert_eq!(server.cpu.as_deref(), Some("x86_64"));
    assert_eq!(server.host.as_deref(), Some("localhost"));
    assert_eq!(server.root, None);
    let data = Data::builder()
        .environment("testing")
        .level(Level::Error)
        .timestamp(12)
        .language("rust")
        .server(server)
        .person(Person::builder().id("42").username("bob").build())
        .environment("production")
        .build();
    assert_eq!(data.environment.as_deref(), Some("production"));
    assert_eq!(data.level, Some(Level::Error));
    assert_eq!(data.timestamp, Some(12));
    assert_eq!(data.language.as_deref(), Some("rust"));
    assert_eq!(data.server.unwrap().host.as_deref(), Some("localhost"));
    assert_eq!(data.person.unwrap().id, "42");
    assert_eq!(data.platform, None);
    let client = Client::builder()
        .javascript(Javascript::builder().browser("b").source_map_enabled(false).build())
        .build();
    assert_eq!(client.javascript.unwrap().source_map_enabled, Some(false));
    let request = Request::builder().url("u").user_ip("1.2.3.4").query_string("q=1").build();
    assert_eq!(request.url.as_deref(), Some("u"));
    assert_eq!(request.user_ip.as_deref(), Some("1.2.3.4"));
    assert_eq!(request.method, None);
    let frame = Frame::builder().argspec(vec!["a".to_owned()]).colno(3).class_name("C").build();
    assert_eq!(frame.argspec, Some(vec!["a".to_owned()]));
    assert_eq!(frame.colno, Some(3));
    assert_eq!(frame.class_name.as_deref(), Some("C"));
}

fn event(source: &str) -> Telemetry {
    Telemetry::builder().source(source).level(Level::Info).telemetry_type("log").timestamp_ms(5).build()
}

#[test]
fn telemetry_is_pushed_in_order() {
    let body = BodyBuilder::new()
        .push_telemetry(event("a"))
        .push_telemetry(event("b"))
        .message(Message::builder().body("m").build())
        .push_telemetry(event("c"))
        .build();
    match body {
        Body::MessageBody { telemetry, message } => {
            let sources: Vec<String> = telemetry.unwrap().into_iter().map(|t| t.source).collect();
            assert_eq!(sources, vec!["a", "b", "c"]);
            assert_eq!(message.body, "m");
        }
        _ => panic!("expected a message body"),
    }
}

#[test]
fn telemetry_given_whole_replaces_what_was_pushed() {
    let body = Body::builder()
        .push_telemetry(event("a"))
        .telemetry(vec![event("x")])
        .trace(Trace::for_thread(None))
        .build();
    match body {
        Body::TraceBody { telemetry, trace } => {
            let telemetry = telemetry.unwrap();
            assert_eq!(telemetry.len(), 1);
            assert_eq!(telemetry[0].source, "x");
            assert_eq!(telemetry[0].timestamp_ms, 5);
            assert_eq!(trace.exception.class, "unnamed");
        }
        _ => panic!("expected a trace body"),
    }
    match Body::builder().trace(Trace::for_thread(None)).build() {
        Body::TraceBody { telemetry, .. } => assert!(telemetry.is_none()),
        _ => panic!("expected a trace body"),
    }
}

#[test]
fn trace_chain_can_be_given_whole_or_grown() {
    let chain = vec![Trace::for_thread(Some("one")), Trace::for_thread(Some("two"))];
    let body = Body::builder()
        .trace_chain(chain)
        .push_trace(Trace::for_thread(Some("three")))
        .build();
    match body {
        Body::TraceChainBody { trace_chain, telemetry } => {
            let classes: Vec<&str> = trace_chain.iter().map(|t| t.exception.class.as_str()).collect();
            assert_eq!(classes, vec!["one", "two", "three"]);
            assert!(telemetry.is_none());
        }
        _ => panic!("expected a chain"),
    }
    let replaced = TraceChainBodyBuilder::new(None, vec![Trace::for_thread(None)])
        .trace_chain(vec![])
        .push_telemetry(event("t"))
        .build();
    match replaced {
        Body::TraceChainBody { trace_chain, telemetry } => {
            assert!(trace_chain.is_empty());
            assert_eq!(telemetry.unwrap().len(), 1);
        }
        _ => panic!("expected a chain"),
    }
}

#[test]
fn crash_report_body() {
    let body = CrashReportBodyBuilder::new(None, CrashReport::default())
        .crash_report(CrashReport::builder().raw("dump").build())
        .build();
    match body {
        Body::CrashReportBody { crash_report, telemetry } => {
            assert_eq!(crash_report.raw, "dump");
            assert!(telemetry.is_none());
        }
        _ => panic!("expected a crash report"),
    }
}

#[test]
fn nil_identifier_is_all_zeros() {
    assert_eq!(Uuid::default().to_string(), "00000000-0000-0000-0000-000000000000");
}

#[test]
fn random_identifier_has_the_random_form() {
    let first = Uuid::new();
    let text = first.to_string();
    assert_eq!(text.len(), 36);
    let chars: Vec<char> = text.chars().collect();
    for (i, c) in chars.iter().enumerate() {
        if i == 8 || i == 13 || i == 18 || i == 23 {
            assert_eq!(*c, '-');
        } else {
            assert!(c.is_ascii_digit() || ('a'..='f').contains(c), "{}", text);
        }
    }
    assert_eq!(chars[14], '4');
    assert!(matches!(chars[19], '8' | '9' | 'a' | 'b'));
    assert_eq!(first.to_string(), text);
    assert_ne!(Uuid::new(), first);
}

#[test]
fn data_is_finished_with_notifier_platform_and_identifier() {
    let id = Uuid::new();
    let builder = Data::builder().language("java").level(Level::Error).environment("prod");
    let data = finish_data(builder, "linux", id);
    let sender = data.notifier.unwrap();
    assert_eq!(sender.name.as_deref(), Some("rollbar-rust"));
    assert_eq!(sender.version.as_deref(), Some(VERSION));
    assert_eq!(NOTIFIER_NAME, "rollbar-rust");
    assert_eq!(data.platform.as_deref(), Some("linux"));
    assert_eq!(data.uuid, Some(id.to_string()));
    assert_eq!(data.language.as_deref(), Some("java"));
    assert_eq!(data.level, Some(Level::Error));
    assert_eq!(data.environment.as_deref(), Some("prod"));
    assert!(data.server.is_none());
    assert_eq!(notifier().name.as_deref(), Some("rollbar-rust"));
}

#[test]
fn item_needs_a_configured_token() {
    let mut conf = Configuration::default();
    assert!(item_for(&conf, Data::default()).is_none());
    conf.access_token = Some("tok".to_owned());
    let data = Data::builder().title("t").build();
    let item = item_for(&conf, data).unwrap();
    assert_eq!(item.access_token, "tok");
    assert_eq!(item.data.title.as_deref(), Some("t"));
}
