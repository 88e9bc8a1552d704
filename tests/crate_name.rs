use sentry::crate_name::parse_crate_name;

#[test]
fn test_parse_crate_name() {
    assert_eq!(
        parse_crate_name("futures::task_impl::std::set"),
        Some("futures".into())
    );
}

#[test]
fn test_parse_crate_name_impl() {
    assert_eq!(
        parse_crate_name("_<futures..task_impl..Spawn<T>>::enter::_{{closure}}"),
        Some("futures".into())
    );
}

#[test]
fn test_parse_crate_name_unknown() {
    assert_eq!(
        parse_crate_name("_<F as alloc..boxed..FnBox<A>>::call_box"),
        None
    );
}

#[test]
fn crate_name_without_separator() {
    assert_eq!(parse_crate_name("main"), None);
    assert_eq!(parse_crate_name(""), None);
}

#[test]
fn crate_name_with_underscore_and_digits() {
    assert_eq!(parse_crate_name("my_crate2::run"), Some("my_crate2".to_string()));
}

#[test]
fn crate_name_needs_leading_identifier() {
    assert_eq!(parse_crate_name("::std::foo"), None);
    assert_eq!(parse_crate_name("<a as b>::c"), None);
}
