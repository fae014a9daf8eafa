use tracing::callsite::{Callsite, Identifier};
use tracing::field::FieldSet;
use tracing::metadata::Kind;
use tracing::subscriber::Interest;
use tracing::{Metadata, Subscriber};
use tracing_browser_subscriber::console::Recorder;
use tracing_browser_subscriber::field::{Field, Value};
use tracing_browser_subscriber::level::Level;
use tracing_browser_subscriber::metadata::{Event, Span};
use tracing_browser_subscriber::typings::HostCall;
use tracing_browser_subscriber::{format_mark, format_origin, BrowserLayer};
use tracing_subscriber::registry::{ExtensionsMut, LookupSpan, Registry};

const LEVELS: [Level; 5] = [Level::Error, Level::Warn, Level::Info, Level::Debug, Level::Trace];

struct Site;

impl Callsite for Site {
    fn set_interest(&self, _interest: Interest) {}

    fn metadata(&self) -> &Metadata<'_> {
        unreachable!("the registry does not ask the call site")
    }
}

/// Opens a span in `registry`, as the framework does before it tells a layer.
fn open_span(registry: &Registry) -> tracing::span::Id {
    let site: &'static Site = Box::leak(Box::new(Site));
    let metadata: &'static Metadata<'static> = Box::leak(Box::new(Metadata::new(
        "work",
        "tests",
        tracing::Level::INFO,
        None,
        None,
        None,
        FieldSet::new(&[], Identifier(site)),
        Kind::SPAN,
    )));
    let none: [(&tracing::field::Field, Option<&dyn tracing::field::Value>); 0] = [];
    let values = metadata.fields().value_set(&none);
    registry.new_span(&tracing::span::Attributes::new_root(metadata, &values))
}

fn recorded(extensions: &mut ExtensionsMut<'_>) -> Option<String> {
    extensions.get_mut::<Recorder>().map(|recorder| recorder.render())
}

fn field(name: &str, value: Value) -> Field {
    Field { name: name.to_string(), value }
}

fn span(name: &str, module: Option<&str>) -> Span {
    Span { name: name.to_string(), module: module.map(|m| m.to_string()) }
}

fn event(level: Level, file: Option<&str>, line: Option<u32>, fields: Vec<Field>) -> Event {
    Event { level, file: file.map(|f| f.to_string()), line, fields }
}

fn hello_event(level: Level) -> Event {
    event(
        level,
        Some("a.rs"),
        Some(10),
        vec![
            field("message", Value::Str("hello".to_string())),
            field("user", Value::Unsigned(42)),
        ],
    )
}

fn console(level: Level, line: &str) -> HostCall {
    match level {
        Level::Error => HostCall::Error(line.to_string()),
        Level::Warn => HostCall::Warn(line.to_string()),
        Level::Info => HostCall::Info(line.to_string()),
        Level::Debug => HostCall::Debug(line.to_string()),
        Level::Trace => HostCall::Trace(line.to_string()),
    }
}

#[test]
fn info_event_at_info_threshold_is_one_console_info() {
    let layer = BrowserLayer::new().with_max_level(Level::Info);
    let call = layer.dispatch_event(&hello_event(Level::Info));
    assert_eq!(call, Some(HostCall::Info("INFO a.rs:10 \"hello\"\nuser=42 \n".to_string())));
}

#[test]
fn debug_event_at_info_threshold_calls_nothing() {
    let layer = BrowserLayer::new().with_max_level(Level::Info);
    assert!(!layer.enabled(&Level::Debug));
    assert_eq!(layer.dispatch_event(&hello_event(Level::Debug)), None);
}

#[test]
fn enter_then_exit_marks_then_measures() {
    let layer = BrowserLayer::new();
    let registry = Registry::default();
    let found = registry.span(&open_span(&registry)).unwrap();
    let mut extensions = found.extensions_mut();
    let work = span("work", Some("app::jobs"));
    layer.on_new_span(&Vec::new(), Some(&mut extensions));
    assert_eq!(layer.on_enter(0x2a, Some(&work)), Some(HostCall::Mark("[work]2a".to_string())));
    assert_eq!(
        layer.on_exit(0x2a, Some(&work), Some(&mut extensions)),
        Some(HostCall::Measure("[work] app::jobs ".to_string(), "[work]2a".to_string()))
    );
}

#[test]
fn nested_spans_measure_from_their_own_marks() {
    let layer = BrowserLayer::new();
    let registry = Registry::default();
    let outer = registry.span(&open_span(&registry)).unwrap();
    let inner = registry.span(&open_span(&registry)).unwrap();
    let a = span("A", None);
    let b = span("B", None);
    layer.on_new_span(&Vec::new(), Some(&mut outer.extensions_mut()));
    layer.on_new_span(&Vec::new(), Some(&mut inner.extensions_mut()));
    let calls = vec![
        layer.on_enter(1, Some(&a)),
        layer.on_enter(2, Some(&b)),
        layer.on_exit(2, Some(&b), Some(&mut inner.extensions_mut())),
        layer.on_exit(1, Some(&a), Some(&mut outer.extensions_mut())),
    ];
    assert_eq!(
        calls,
        vec![
            Some(HostCall::Mark("[A]1".to_string())),
            Some(HostCall::Mark("[B]2".to_string())),
            Some(HostCall::Measure("[B] ... ".to_string(), "[B]2".to_string())),
            Some(HostCall::Measure("[A] ... ".to_string(), "[A]1".to_string())),
        ]
    );
}

#[test]
fn values_recorded_later_reach_the_measure() {
    let layer = BrowserLayer::new();
    let registry = Registry::default();
    let found = registry.span(&open_span(&registry)).unwrap();
    let work = span("work", Some("m"));
    layer.on_new_span(&vec![field("a", Value::Signed(1))], Some(&mut found.extensions_mut()));
    layer.on_record(&vec![field("b", Value::Signed(2))], Some(&mut found.extensions_mut()));
    let call = layer.on_exit(7, Some(&work), Some(&mut found.extensions_mut()));
    match call {
        Some(HostCall::Measure(label, start)) => {
            assert!(label.contains("a=1"));
            assert!(label.contains("b=2"));
            assert_eq!(label, "[work] m a=1 \nb=2 \n");
            assert_eq!(start, "[work]7");
        }
        other => panic!("no measure: {:?}", other),
    }
}

#[test]
fn new_span_attaches_a_recorder_with_its_attributes() {
    let layer = BrowserLayer::new();
    let registry = Registry::default();
    let found = registry.span(&open_span(&registry)).unwrap();
    let mut extensions = found.extensions_mut();
    assert_eq!(recorded(&mut extensions), None);
    let attrs = vec![field("a", Value::Unsigned(1)), field("message", Value::Str("go".to_string()))];
    layer.on_new_span(&attrs, Some(&mut extensions));
    assert_eq!(recorded(&mut extensions), Some("\"go\"\na=1 \n".to_string()));
}

#[test]
fn new_span_without_attributes_attaches_an_empty_recorder() {
    let layer = BrowserLayer::new();
    let registry = Registry::default();
    let found = registry.span(&open_span(&registry)).unwrap();
    let mut extensions = found.extensions_mut();
    layer.on_new_span(&Vec::new(), Some(&mut extensions));
    assert_eq!(recorded(&mut extensions), Some(String::new()));
}

#[test]
fn attached_recorder_is_never_replaced() {
    let layer = BrowserLayer::new();
    let registry = Registry::default();
    let found = registry.span(&open_span(&registry)).unwrap();
    let mut extensions = found.extensions_mut();
    layer.on_new_span(&vec![field("a", Value::Unsigned(1))], Some(&mut extensions));
    layer.on_new_span(&vec![field("b", Value::Unsigned(2))], Some(&mut extensions));
    assert_eq!(recorded(&mut extensions), Some("a=1 \n".to_string()));
}

#[test]
fn record_adds_to_the_attached_recorder() {
    let layer = BrowserLayer::new();
    let registry = Registry::default();
    let found = registry.span(&open_span(&registry)).unwrap();
    let mut extensions = found.extensions_mut();
    layer.on_new_span(&vec![field("a", Value::Unsigned(1))], Some(&mut extensions));
    layer.on_record(&vec![field("message", Value::Bool(true))], Some(&mut extensions));
    layer.on_record(&vec![field("b", Value::Unsigned(2))], Some(&mut extensions));
    layer.on_record(&Vec::new(), Some(&mut extensions));
    assert_eq!(recorded(&mut extensions), Some("true\na=1 \nb=2 \n".to_string()));
}

#[test]
fn record_without_recorder_attaches_none() {
    let layer = BrowserLayer::new();
    let registry = Registry::default();
    let found = registry.span(&open_span(&registry)).unwrap();
    let mut extensions = found.extensions_mut();
    layer.on_record(&vec![field("b", Value::Unsigned(2))], Some(&mut extensions));
    assert_eq!(recorded(&mut extensions), None);
}

#[test]
fn hooks_on_a_span_that_is_gone_do_nothing() {
    let layer = BrowserLayer::new();
    layer.on_new_span(&vec![field("a", Value::Unsigned(1))], None);
    layer.on_record(&vec![field("b", Value::Unsigned(2))], None);
    assert_eq!(layer.on_exit(1, None, None), None);
}

#[test]
fn exit_leaves_the_recorder_as_it_is() {
    let layer = BrowserLayer::new();
    let registry = Registry::default();
    let found = registry.span(&open_span(&registry)).unwrap();
    let mut extensions = found.extensions_mut();
    let work = span("work", None);
    layer.on_new_span(&vec![field("a", Value::Unsigned(1))], Some(&mut extensions));
    let first = layer.on_exit(1, Some(&work), Some(&mut extensions));
    let second = layer.on_exit(1, Some(&work), Some(&mut extensions));
    assert_eq!(first, Some(HostCall::Measure("[work] ... a=1 \n".to_string(), "[work]1".to_string())));
    assert_eq!(first, second);
    assert_eq!(recorded(&mut extensions), Some("a=1 \n".to_string()));
}

#[test]
fn defaults_are_info_and_timings() {
    for layer in [BrowserLayer::new(), BrowserLayer::default()] {
        assert!(layer.enabled(&Level::Error));
        assert!(layer.enabled(&Level::Warn));
        assert!(layer.enabled(&Level::Info));
        assert!(!layer.enabled(&Level::Debug));
        assert!(!layer.enabled(&Level::Trace));
        assert!(layer.on_enter(1, None).is_some());
    }
}

#[test]
fn global_default_lets_debug_through() {
    let layer = BrowserLayer::global_default();
    assert!(layer.enabled(&Level::Debug));
    assert!(!layer.enabled(&Level::Trace));
    assert!(layer.on_enter(1, None).is_some());
}

#[test]
fn builders_change_one_knob_each() {
    let layer = BrowserLayer::new().with_record_timings(false).with_max_level(Level::Trace);
    assert!(layer.enabled(&Level::Trace));
    assert_eq!(layer.on_enter(1, None), None);
    let layer = BrowserLayer::new().with_max_level(Level::Error).with_record_timings(true);
    assert!(!layer.enabled(&Level::Warn));
    assert!(layer.on_enter(1, None).is_some());
}

#[test]
fn enabled_follows_the_order_of_levels() {
    for (i, max) in LEVELS.iter().enumerate() {
        let layer = BrowserLayer::new().with_max_level(*max);
        for (j, level) in LEVELS.iter().enumerate() {
            assert_eq!(layer.enabled(level), j <= i);
            assert_eq!(level.is_within(*max), j <= i);
        }
    }
}

#[test]
fn levels_have_ranks_and_names() {
    let ranks: Vec<u8> = LEVELS.iter().map(|l| l.rank()).collect();
    assert_eq!(ranks, vec![1, 2, 3, 4, 5]);
    let names: Vec<&str> = LEVELS.iter().map(|l| l.name()).collect();
    assert_eq!(names, vec!["ERROR", "WARN", "INFO", "DEBUG", "TRACE"]);
}

#[test]
fn gating_drops_or_delivers_exactly_one_call() {
    for max in LEVELS {
        let layer = BrowserLayer::new().with_max_level(max);
        for level in LEVELS {
            let call = layer.dispatch_event(&hello_event(level));
            if level.rank() <= max.rank() {
                let line = format!("{} a.rs:10 \"hello\"\nuser=42 \n", level.name());
                assert_eq!(call, Some(console(level, &line)));
            } else {
                assert_eq!(call, None);
            }
        }
    }
}

#[test]
fn every_level_goes_to_its_own_console_function() {
    let layer = BrowserLayer::new();
    let line = |level: Level| layer.write_for_level(&level, "o".to_string(), Recorder::new());
    assert_eq!(line(Level::Error), HostCall::Error("ERROR o ".to_string()));
    assert_eq!(line(Level::Warn), HostCall::Warn("WARN o ".to_string()));
    assert_eq!(line(Level::Info), HostCall::Info("INFO o ".to_string()));
    assert_eq!(line(Level::Debug), HostCall::Debug("DEBUG o ".to_string()));
    assert_eq!(line(Level::Trace), HostCall::Trace("TRACE o ".to_string()));
}

#[test]
fn on_event_does_not_gate() {
    let layer = BrowserLayer::new().with_max_level(Level::Error);
    assert_eq!(
        layer.on_event(&hello_event(Level::Trace)),
        HostCall::Trace("TRACE a.rs:10 \"hello\"\nuser=42 \n".to_string())
    );
}

#[test]
fn origin_needs_both_file_and_line() {
    assert_eq!(format_origin(Some("src/main.rs"), Some(0)), "src/main.rs:0");
    assert_eq!(format_origin(Some("a.rs"), Some(u32::MAX)), "a.rs:4294967295");
    assert_eq!(format_origin(Some("a.rs"), None), "");
    assert_eq!(format_origin(None, Some(3)), "");
    assert_eq!(format_origin(None, None), "");
}

#[test]
fn event_without_origin_keeps_both_spaces() {
    let layer = BrowserLayer::new();
    let bare = event(Level::Warn, None, Some(3), vec![field("n", Value::Signed(-5))]);
    assert_eq!(layer.on_event(&bare), HostCall::Warn("WARN  n=-5 \n".to_string()));
    let empty = event(Level::Error, Some("f"), None, Vec::new());
    assert_eq!(layer.on_event(&empty), HostCall::Error("ERROR  ".to_string()));
}

#[test]
fn mark_names() {
    assert_eq!(format_mark(Some("work"), 0x2a), "[work]2a");
    assert_eq!(format_mark(None, 0x2a), "2a");
    assert_eq!(format_mark(Some(""), 1), "[]1");
    assert_eq!(format_mark(None, 0xABCDEF), "abcdef");
    assert_eq!(format_mark(None, u64::MAX), "ffffffffffffffff");
    assert_eq!(format_mark(Some("a]b"), 16), "[a]b]10");
}

#[test]
fn entering_an_unknown_span_marks_the_bare_id() {
    let layer = BrowserLayer::new();
    assert_eq!(layer.on_enter(255, None), Some(HostCall::Mark("ff".to_string())));
}

#[test]
fn leaving_an_unknown_span_calls_nothing() {
    let layer = BrowserLayer::new();
    let registry = Registry::default();
    let found = registry.span(&open_span(&registry)).unwrap();
    let mut extensions = found.extensions_mut();
    layer.on_new_span(&Vec::new(), Some(&mut extensions));
    assert_eq!(layer.on_exit(255, None, None), None);
    assert_eq!(layer.on_exit(255, None, Some(&mut extensions)), None);
}

#[test]
fn measure_without_recorder_has_no_trailing_space() {
    let layer = BrowserLayer::new();
    let registry = Registry::default();
    let found = registry.span(&open_span(&registry)).unwrap();
    let mut extensions = found.extensions_mut();
    let work = span("work", Some("app"));
    assert_eq!(
        layer.on_exit(3, Some(&work), Some(&mut extensions)),
        Some(HostCall::Measure("[work] app".to_string(), "[work]3".to_string()))
    );
    assert_eq!(
        layer.on_exit(3, Some(&work), None),
        Some(HostCall::Measure("[work] app".to_string(), "[work]3".to_string()))
    );
    let bare = span("work", None);
    assert_eq!(
        layer.on_exit(3, Some(&bare), Some(&mut extensions)),
        Some(HostCall::Measure("[work] ...".to_string(), "[work]3".to_string()))
    );
}

#[test]
fn measure_starts_at_the_mark_of_the_same_span() {
    let layer = BrowserLayer::new();
    let registry = Registry::default();
    let with_recorder = registry.span(&open_span(&registry)).unwrap();
    let without = registry.span(&open_span(&registry)).unwrap();
    layer.on_new_span(
        &vec![field("k", Value::Bool(true))],
        Some(&mut with_recorder.extensions_mut()),
    );
    for id in [1u64, 0x2a, 0xffff, u64::MAX] {
        for name in ["", "work", "a b"] {
            let s = span(name, None);
            let mark = match layer.on_enter(id, Some(&s)) {
                Some(HostCall::Mark(mark)) => mark,
                other => panic!("no mark: {:?}", other),
            };
            for found in [&with_recorder, &without] {
                let call = layer.on_exit(id, Some(&s), Some(&mut found.extensions_mut()));
                match call {
                    Some(HostCall::Measure(_, start)) => assert_eq!(start, mark),
                    other => panic!("no measure: {:?}", other),
                }
            }
        }
    }
}

#[test]
fn without_timings_spans_call_nothing() {
    let layer = BrowserLayer::new().with_record_timings(false);
    let registry = Registry::default();
    let found = registry.span(&open_span(&registry)).unwrap();
    let mut extensions = found.extensions_mut();
    let work = span("work", Some("app"));
    layer.on_new_span(&vec![field("a", Value::Unsigned(1))], Some(&mut extensions));
    assert_eq!(layer.on_enter(1, Some(&work)), None);
    assert_eq!(layer.on_enter(1, None), None);
    assert_eq!(layer.on_exit(1, Some(&work), Some(&mut extensions)), None);
    assert_eq!(layer.on_exit(1, Some(&work), None), None);
    assert_eq!(layer.on_exit(1, None, None), None);
    assert_eq!(recorded(&mut extensions), Some("a=1 \n".to_string()));
}

#[test]
fn without_timings_events_still_reach_the_console() {
    let layer = BrowserLayer::new().with_record_timings(false);
    assert!(layer.dispatch_event(&hello_event(Level::Error)).is_some());
}

#[test]
fn spans_of_one_name_have_marks_of_their_own() {
    let mut seen = std::collections::HashSet::new();
    for id in (0u64..600).chain([u64::MAX, u64::MAX - 1, 1 << 32, 1 << 63]) {
        assert!(seen.insert(format_mark(Some("work"), id)));
    }
    let mut bare = std::collections::HashSet::new();
    for id in 0u64..600 {
        assert!(bare.insert(format_mark(None, id)));
    }
}

#[test]
fn events_never_reach_the_timing_api() {
    for timings in [true, false] {
        let layer = BrowserLayer::new().with_record_timings(timings).with_max_level(Level::Trace);
        for level in LEVELS {
            match layer.dispatch_event(&hello_event(level)) {
                Some(HostCall::Mark(_)) | Some(HostCall::Measure(_, _)) | None => {
                    panic!("an event must reach the console")
                }
                Some(_) => {}
            }
        }
    }
}
