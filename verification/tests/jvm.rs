use rollbar_rust::body::Body;
use rollbar_rust::configuration::{initial_configuration, Configuration};
use rollbar_rust::exceptions::ClassFilter;
use rollbar_rust::jvm::{callback, get_exception_info, get_stack_trace, reverse, stack_frame, StackElement};
use rollbar_rust::payload::Frame;
use rollbar_rust::report::log_item;
use rollbar_rust::types::Level;
use serde_json::Value;
use std::collections::HashMap;

fn element(class: &str, file: &str, line: i32, method: &str) -> StackElement {
    StackElement {
        class_name: Some(class.to_owned()),
        file_name: Some(file.to_owned()),
        line_number: line,
        method_name: Some(method.to_owned()),
    }
}

#[test]
fn exception_info_uses_stand_ins() {
    let full = get_exception_info(Some("java.lang.Error".to_owned()), Some("boom".to_owned()));
    assert_eq!(full.class, "java.lang.Error");
    assert_eq!(full.message.as_deref(), Some("boom"));
    assert_eq!(full.description, None);
    let bare = get_exception_info(None, None);
    assert_eq!(bare.class, "BAD CLASSNAME");
    assert_eq!(bare.message.as_deref(), Some("BAD MESSAGE"));
}

#[test]
fn stack_frame_reports_one_element() {
    let frame = stack_frame(element("com.example.Main", "Main.java", 17, "run"));
    assert_eq!(frame.filename, "Main.java");
    assert_eq!(frame.lineno, Some(17));
    assert_eq!(frame.method.as_deref(), Some("run"));
    assert_eq!(frame.class_name.as_deref(), Some("com.example.Main"));
    assert_eq!(frame.colno, None);
    assert!(frame.locals.is_none());
    let bad = stack_frame(StackElement {
        class_name: None,
        file_name: None,
        line_number: -2,
        method_name: None,
    });
    assert_eq!(bad.filename, "BAD FILENAME");
    assert_eq!(bad.method.as_deref(), Some("BAD METHOD"));
    assert_eq!(bad.class_name.as_deref(), Some("BAD CLASSNAME"));
    assert_eq!(bad.lineno, Some(-2));
}

#[test]
fn stack_trace_keeps_the_order_of_its_elements() {
    let frames = get_stack_trace(vec![
        element("A", "A.java", 1, "a"),
        element("B", "B.java", 2, "b"),
        element("C", "C.java", 3, "c"),
    ]);
    let lines: Vec<Option<i32>> = frames.iter().map(|f| f.lineno).collect();
    assert_eq!(lines, vec![Some(1), Some(2), Some(3)]);
    assert_eq!(frames[2].filename, "C.java");
    assert!(get_stack_trace(vec![]).is_empty());
}

#[test]
fn reverse_turns_the_order_round() {
    assert_eq!(reverse(vec![1, 2, 3]), vec![3, 2, 1]);
    assert_eq!(reverse(Vec::<u8>::new()), Vec::<u8>::new());
    assert_eq!(reverse(vec!["x"]), vec!["x"]);
}

#[test]
fn thrown_exception_is_reported_with_reversed_frames() {
    let filter = ClassFilter::new();
    let exception = get_exception_info(Some("com.example.Oops".to_owned()), Some("m".to_owned()));
    let frames: Vec<Frame> = get_stack_trace(vec![
        element("A", "A.java", 1, "a"),
        element("B", "B.java", 2, "b"),
    ]);
    let data = callback(&filter, exception, frames).unwrap().build();
    assert_eq!(data.language.as_deref(), Some("java"));
    assert_eq!(data.level, Some(Level::Error));
    assert!(data.uuid.is_none() && data.notifier.is_none() && data.platform.is_none());
    match data.body {
        Body::TraceBody { telemetry, trace } => {
            assert!(telemetry.is_none());
            assert_eq!(trace.exception.class, "com.example.Oops");
            let lines: Vec<Option<i32>> = trace.frames.iter().map(|f| f.lineno).collect();
            assert_eq!(lines, vec![Some(2), Some(1)]);
        }
        _ => panic!("expected a trace body"),
    }
}

#[test]
fn noisy_exception_is_not_reported() {
    let filter = ClassFilter::new();
    let exception = get_exception_info(Some("java.io.IOException".to_owned()), None);
    assert!(callback(&filter, exception, vec![]).is_none());
    let unknown = get_exception_info(None, None);
    assert!(callback(&filter, unknown, vec![]).is_some());
}

#[test]
fn log_item_carries_message_level_and_extra() {
    let mut conf = Configuration::default();
    let mut extra = HashMap::new();
    extra.insert("user".to_owned(), Value::from(7));
    assert!(log_item(&conf, Level::Info, "hello", extra.clone()).is_none());
    conf.access_token = Some("tok".to_owned());
    let item = log_item(&conf, Level::Warning, "hello", extra).unwrap();
    assert_eq!(item.access_token, "tok");
    assert_eq!(item.data.level, Some(Level::Warning));
    assert!(item.data.uuid.is_none());
    match item.data.body {
        Body::MessageBody { telemetry, message } => {
            assert!(telemetry.is_none());
            assert_eq!(message.body, "hello");
            assert_eq!(message.extra.get("user"), Some(&Value::from(7)));
            assert_eq!(message.extra.len(), 1);
        }
        _ => panic!("expected a message body"),
    }
}

#[test]
fn initial_configuration_prefers_the_file_then_the_token() {
    let mut from_file = Configuration::default();
    from_file.endpoint = "http://file/".to_owned();
    let chosen = initial_configuration(Some(from_file), Some("env".to_owned())).unwrap();
    assert_eq!(chosen.endpoint, "http://file/");
    assert_eq!(chosen.access_token, None);
    let chosen = initial_configuration(None, Some("env".to_owned())).unwrap();
    assert_eq!(chosen.endpoint, "https://api.rollbar.com/api/1/item/");
    assert_eq!(chosen.access_token.as_deref(), Some("env"));
    assert_eq!(chosen.timeout, 10);
    assert!(initial_configuration(None, None).is_none());
}
