use sentry::client::{Client, DrainStep, Dsn, init, ClientInitGuard, IntoClientConfig};
use sentry::frames::{classify_frames, is_sys_function, trim_stacktrace};
use sentry::options::{ClientOptions, USER_AGENT};
use sentry::prepare::{SDK_NAME, SDK_VERSION, prepare_event};
use sentry::protocol::{Breadcrumb, DebugImage, Event, Exception, FieldMap, Frame, InApp, Scope, Stacktrace, User, Value};

fn frame(function: Option<&str>, in_app: InApp) -> Frame {
    Frame { function: function.map(|s| s.to_string()), package: None, in_app }
}

fn crumb(msg: &str) -> Breadcrumb {
    Breadcrumb { category: None, message: Some(msg.to_string()) }
}

fn options() -> ClientOptions {
    ClientOptions::default()
}

fn get<'a, V>(m: &'a FieldMap<V>, k: &str) -> Option<&'a V> {
    m.entries.iter().find(|(key, _)| key == k).map(|(_, v)| v)
}

#[test]
fn merge_keeps_set_fields() {
    let mut event = Event::new();
    event.user = Some(User { id: Some("own".into()), username: None, email: None });
    event.transaction = Some("own_txn".into());
    event.fingerprint = vec!["custom".to_string()];
    event.tags.insert("k".into(), "event".into());
    event.breadcrumbs.push(crumb("first"));
    let mut scope = Scope::new();
    scope.user = Some(User { id: Some("scope".into()), username: None, email: None });
    scope.transaction = Some("scope_txn".into());
    scope.fingerprint = Some(vec!["scope_fp".to_string()]);
    scope.tags.insert("k".into(), "scope".into());
    scope.tags.insert("other".into(), "x".into());
    scope.breadcrumbs.push(crumb("second"));
    prepare_event(&mut event, Some(&scope), &options(), &vec![]);
    assert_eq!(event.user.unwrap().id.as_deref(), Some("own"));
    assert_eq!(event.transaction.as_deref(), Some("own_txn"));
    assert_eq!(event.fingerprint, vec!["custom".to_string()]);
    assert_eq!(get(&event.tags, "k").map(|s| s.as_str()), Some("event"));
    assert_eq!(get(&event.tags, "other").map(|s| s.as_str()), Some("x"));
    assert_eq!(event.tags.entries.len(), 2);
    let msgs: Vec<_> = event.breadcrumbs.iter().map(|b| b.message.clone().unwrap()).collect();
    assert_eq!(msgs, vec!["first".to_string(), "second".to_string()]);
}

#[test]
fn merge_fills_unset_fields() {
    let mut event = Event::new();
    let mut scope = Scope::new();
    scope.user = Some(User { id: Some("scope".into()), username: None, email: None });
    scope.transaction = Some("txn".into());
    scope.extra.insert("n".into(), Value::Int(3));
    scope.contexts.insert("os".into(), Value::Str("linux".into()));
    prepare_event(&mut event, Some(&scope), &options(), &vec![]);
    assert_eq!(event.user.unwrap().id.as_deref(), Some("scope"));
    assert_eq!(event.transaction.as_deref(), Some("txn"));
    assert!(matches!(get(&event.extra, "n"), Some(Value::Int(3))));
    assert!(matches!(get(&event.contexts, "os"), Some(Value::Str(s)) if s == "linux"));
}

#[test]
fn merge_empty_scope_changes_nothing() {
    let mut event = Event::new();
    event.tags.insert("a".into(), "1".into());
    event.breadcrumbs.push(crumb("only"));
    prepare_event(&mut event, Some(&Scope::new()), &options(), &vec![]);
    assert_eq!(event.tags.entries.len(), 1);
    assert_eq!(event.breadcrumbs.len(), 1);
    assert!(event.user.is_none());
    assert_eq!(event.fingerprint, vec!["{{ default }}".to_string()]);
}

#[test]
fn fingerprint_replaced_for_both_default_spellings() {
    for fp in ["{{ default }}", "{{default}}"] {
        let mut event = Event::new();
        event.fingerprint = vec![fp.to_string()];
        let mut scope = Scope::new();
        scope.fingerprint = Some(vec!["a".to_string(), "b".to_string()]);
        prepare_event(&mut event, Some(&scope), &options(), &vec![]);
        assert_eq!(event.fingerprint, vec!["a".to_string(), "b".to_string()]);
    }
}

#[test]
fn fingerprint_kept_when_not_exactly_default() {
    let mut event = Event::new();
    event.fingerprint = vec!["{{ default }}".to_string(), "extra".to_string()];
    let mut scope = Scope::new();
    scope.fingerprint = Some(vec!["a".to_string()]);
    prepare_event(&mut event, Some(&scope), &options(), &vec![]);
    assert_eq!(event.fingerprint.len(), 2);
}

#[test]
fn defaults_fill_only_unset_fields() {
    let mut opts = options();
    opts.release = Some("1.0".into());
    opts.environment = Some("production".into());
    opts.server_name = Some("host".into());
    let images = vec![DebugImage { code_file: "/bin/app".into() }];
    let mut event = Event::new();
    event.environment = Some("staging".into());
    prepare_event(&mut event, None, &opts, &images);
    assert_eq!(event.release.as_deref(), Some("1.0"));
    assert_eq!(event.environment.as_deref(), Some("staging"));
    assert_eq!(event.server_name.as_deref(), Some("host"));
    let sdk = event.sdk_info.unwrap();
    assert_eq!(sdk.name, SDK_NAME);
    assert_eq!(sdk.version, SDK_VERSION);
    assert_eq!(event.platform, "native");
    assert_eq!(event.debug_images.len(), 1);
    assert_eq!(event.debug_images[0].code_file, "/bin/app");
}

#[test]
fn platform_other_than_other_is_kept() {
    let mut event = Event::new();
    event.platform = "python".into();
    event.debug_images.push(DebugImage { code_file: "own".into() });
    prepare_event(&mut event, None, &options(), &vec![DebugImage { code_file: "x".into() }]);
    assert_eq!(event.platform, "python");
    assert_eq!(event.debug_images[0].code_file, "own");
}

#[test]
fn fallback_marks_all_unknown_frames_in_app() {
    let frames = vec![frame(Some("myapp::main"), InApp::Unknown), frame(Some("lib::run"), InApp::Unknown), frame(None, InApp::Unknown)];
    let out = classify_frames(&frames, &vec![], &vec![]);
    assert!(out.iter().all(|f| f.in_app == InApp::Yes));
    assert_eq!(out[0].package.as_deref(), Some("myapp"));
    assert_eq!(out[1].package.as_deref(), Some("lib"));
    assert_eq!(out[2].package, None);
}

#[test]
fn no_fallback_when_a_frame_is_in_app() {
    let frames = vec![frame(Some("myapp::main"), InApp::Yes), frame(Some("lib::run"), InApp::Unknown), frame(Some("std::rt::lang_start"), InApp::Unknown)];
    let out = classify_frames(&frames, &vec![], &vec![]);
    assert_eq!(out[0].in_app, InApp::Yes);
    assert_eq!(out[1].in_app, InApp::Unknown);
    assert_eq!(out[2].in_app, InApp::No);
}

#[test]
fn exclude_prefix_wins_over_include() {
    let frames = vec![frame(Some("tokio::spawn"), InApp::Unknown), frame(Some("other::f"), InApp::Unknown)];
    let out = classify_frames(&frames, &vec!["tokio::".to_string()], &vec!["tokio".to_string()]);
    assert_eq!(out[0].in_app, InApp::No);
    assert_eq!(out[1].in_app, InApp::Yes);
}

#[test]
fn include_prefix_marks_in_app() {
    let frames = vec![frame(Some("std::mine"), InApp::Unknown), frame(Some("lib::f"), InApp::Unknown)];
    let out = classify_frames(&frames, &vec!["std::mine".to_string()], &vec![]);
    assert_eq!(out[0].in_app, InApp::Yes);
    assert_eq!(out[1].in_app, InApp::Unknown);
}

#[test]
fn explicit_flag_and_package_are_kept() {
    let mut f = frame(Some("std::x"), InApp::Yes);
    f.package = Some("given".into());
    let out = classify_frames(&vec![f, frame(Some("a::b"), InApp::No)], &vec![], &vec!["std::".to_string()]);
    assert_eq!(out[0].in_app, InApp::Yes);
    assert_eq!(out[0].package.as_deref(), Some("given"));
    assert_eq!(out[1].in_app, InApp::No);
}

#[test]
fn sys_functions() {
    assert!(is_sys_function("std::panicking::begin_panic"));
    assert!(is_sys_function("__rust_maybe_catch_panic"));
    assert!(is_sys_function("___rust_try"));
    assert!(!is_sys_function("myapp::main"));
}

#[test]
fn trim_removes_trailing_border_frames() {
    let mut frames = vec![
        frame(Some("core::panicking::panic"), InApp::Unknown),
        frame(Some("myapp::main"), InApp::Unknown),
        frame(Some("my::border"), InApp::Unknown),
        frame(Some("std::panicking::begin_panic"), InApp::Unknown),
    ];
    trim_stacktrace(&mut frames, &vec!["my::border".to_string()]);
    assert_eq!(frames.len(), 2);
    assert_eq!(frames[1].function.as_deref(), Some("myapp::main"));
    let mut untouched = vec![frame(Some("a::b"), InApp::Unknown), frame(None, InApp::Unknown)];
    trim_stacktrace(&mut untouched, &vec![]);
    assert_eq!(untouched.len(), 2);
}

#[test]
fn exceptions_are_trimmed_only_when_asked() {
    let st = Stacktrace { frames: vec![frame(Some("myapp::main"), InApp::Unknown), frame(Some("core::panicking::panic"), InApp::Unknown)] };
    let exc = Exception { ty: "Panic".into(), value: None, stacktrace: Some(st) };
    let mut event = Event::new();
    event.exceptions.push(exc.clone());
    event.exceptions.push(Exception { ty: "Plain".into(), value: Some("v".into()), stacktrace: None });
    prepare_event(&mut event, None, &options(), &vec![]);
    let frames = &event.exceptions[0].stacktrace.as_ref().unwrap().frames;
    assert_eq!(frames.len(), 1);
    assert_eq!(frames[0].in_app, InApp::Yes);
    assert!(event.exceptions[1].stacktrace.is_none());
    let mut opts = options();
    opts.trim_backtraces = false;
    let mut event = Event::new();
    event.exceptions.push(exc);
    prepare_event(&mut event, None, &opts, &vec![]);
    assert_eq!(event.exceptions[0].stacktrace.as_ref().unwrap().frames.len(), 2);
}

#[test]
fn disabled_client_captures_nothing_and_is_drained() {
    let client = Client::disabled();
    assert!(!client.is_enabled());
    assert!(client.dsn().is_none());
    assert!(client.capture_event(Event::new(), None).is_none());
    assert_eq!(client.drain_events(5, 0, None), DrainStep::Done(true));
    assert_eq!(client.drain_events(5, 10, Some(1)), DrainStep::Done(true));
}

#[test]
fn enabled_client_prepares_and_drains() {
    let client = Client::with_dsn(Dsn::new("https://key@example.com/1".into()));
    assert!(client.is_enabled());
    let event = client.capture_event(Event::new(), None).unwrap();
    assert_eq!(event.platform, "native");
    assert_eq!(client.drain_events(0, 0, Some(1000)), DrainStep::Done(true));
    assert_eq!(client.drain_events(2, 10, Some(1000)), DrainStep::Wait);
    assert_eq!(client.drain_events(2, 1000, Some(1000)), DrainStep::Done(false));
    assert_eq!(client.drain_events(2, 5000, None), DrainStep::Wait);
}

#[test]
fn default_options() {
    let o = ClientOptions::default();
    assert_eq!(o.max_breadcrumbs, 100);
    assert!(o.trim_backtraces);
    assert_eq!(o.user_agent, USER_AGENT);
    assert!(o.release.is_none());
}

#[test]
fn config_forms() {
    assert!(Client::from_config(()).is_none());
    assert!(Client::from_config("").is_none());
    let c = Client::from_config("https://key@example.com/1").unwrap();
    assert_eq!(c.dsn().unwrap().url, "https://key@example.com/1");
    let mut o = ClientOptions::default();
    o.release = Some("r".into());
    let c = Client::from_config((String::from("https://k@h/2"), o)).unwrap();
    assert_eq!(c.options().release.as_deref(), Some("r"));
    assert!(Client::from_config(None::<Dsn>).is_none());
    assert_eq!(().into_client_config().0.map(|d| d.url), None);
}

#[test]
fn init_guard() {
    let g: ClientInitGuard = init("https://key@example.com/1");
    assert!(g.is_enabled());
    assert!(g.client().is_some());
    assert_eq!(g.release_drain_timeout_ms(), Some(2000));
    let a = g.client().unwrap();
    let b = g.client().unwrap();
    assert!(std::sync::Arc::ptr_eq(&a, &b));
    assert_eq!(a.dsn().unwrap().url, "https://key@example.com/1");
    let mut o = ClientOptions::default();
    o.release = Some("r1".into());
    let g2 = init(("https://k@h/3", o));
    assert_eq!(g2.client().unwrap().options().release.as_deref(), Some("r1"));
    let g = init(());
    assert!(!g.is_enabled());
    assert!(g.client().is_none());
    assert_eq!(g.release_drain_timeout_ms(), None);
}

#[test]
fn field_map_insert_replaces_in_place() {
    let mut m: FieldMap<String> = FieldMap::new();
    assert!(m.is_empty());
    m.insert("a".into(), "1".into());
    m.insert("b".into(), "2".into());
    m.insert("a".into(), "3".into());
    assert_eq!(m.entries, vec![("a".to_string(), "3".to_string()), ("b".to_string(), "2".to_string())]);
    assert!(m.contains_key(&"b".to_string()));
    assert!(!m.contains_key(&"c".to_string()));
}

#[test]
fn merge_missing_first_scope_entry_wins() {
    let mut m: FieldMap<String> = FieldMap::new();
    m.insert("x".into(), "own".into());
    let other = FieldMap { entries: vec![("y".to_string(), "1".to_string()), ("x".to_string(), "s".to_string()), ("y".to_string(), "2".to_string())] };
    m.merge_missing(&other);
    assert_eq!(m.entries, vec![("x".to_string(), "own".to_string()), ("y".to_string(), "1".to_string())]);
}
