use pyo3_asyncio_macros::config::{resolve, AttrEntry, AttrValue, Configuration, FinalConfig, Literal};
use pyo3_asyncio_macros::diagnostic::{Anchor, Diagnostic};
use pyo3_asyncio_macros::flavor::RuntimeFlavor;
use pyo3_asyncio_macros::text::{parse_decimal, str_eq, CountError};

fn flavor(v: &str) -> AttrEntry {
    named("flavor", AttrValue::Lit(Literal::Text(v.to_string())))
}

fn workers(v: &str) -> AttrEntry {
    named("worker_threads", AttrValue::Lit(Literal::Int(v.to_string())))
}

fn named(name: &str, value: AttrValue) -> AttrEntry {
    AttrEntry::NameValue { name: Some(name.to_string()), value }
}

fn flag(name: &str) -> AttrEntry {
    AttrEntry::Flag { name: Some(name.to_string()) }
}

fn err(entries: Vec<AttrEntry>, is_test: bool, rt: bool) -> Diagnostic {
    match resolve(&entries, is_test, rt) {
        Ok(c) => panic!("expected an error, got {:?}", c),
        Err(d) => d,
    }
}

fn ok(entries: Vec<AttrEntry>, is_test: bool, rt: bool) -> FinalConfig {
    match resolve(&entries, is_test, rt) {
        Ok(c) => c,
        Err(d) => panic!("expected success, got {:?}", d),
    }
}

#[test]
fn empty_program_entry_is_threaded() {
    let c = ok(vec![], false, true);
    assert_eq!(c, FinalConfig { flavor: RuntimeFlavor::Threaded, worker_threads: None });
}

#[test]
fn current_thread_with_workers_is_anchored_at_workers() {
    for is_test in [false, true] {
        let d = err(vec![flavor("current_thread"), workers("4")], is_test, true);
        assert_eq!(d.anchor, Anchor::Entry(1));
        assert_eq!(
            d.message(),
            "The `worker_threads` option requires the `multi_thread` runtime flavor."
        );
    }
}

#[test]
fn explicit_multi_thread_without_capability() {
    let d = err(vec![flavor("multi_thread")], false, false);
    assert_eq!(d.anchor, Anchor::CallSite);
    assert_eq!(d.message(), "The runtime flavor `multi_thread` requires the `rt-multi-thread` feature.");
    let d = err(vec![flavor("multi_thread")], true, false);
    assert_eq!(d.message(), "The runtime flavor `multi_thread` requires the `rt-multi-thread` feature.");
}

#[test]
fn default_multi_thread_without_capability() {
    let d = err(vec![], false, false);
    assert_eq!(d.anchor, Anchor::CallSite);
    assert_eq!(
        d.message(),
        "The default runtime flavor is `multi_thread`, but the `rt-multi-thread` feature is disabled."
    );
}

#[test]
fn zero_workers_rejected() {
    for (is_test, rt) in [(false, true), (false, false), (true, true), (true, false)] {
        let d = err(vec![workers("0")], is_test, rt);
        assert_eq!(d.anchor, Anchor::Entry(0));
        assert_eq!(d.message(), "`worker_threads` may not be 0.");
        let d = err(vec![flavor("current_thread"), workers("0")], is_test, rt);
        assert_eq!(d.message(), "`worker_threads` may not be 0.");
    }
}

#[test]
fn flavor_twice_rejected_even_when_equal() {
    let d = err(vec![flavor("multi_thread"), flavor("multi_thread")], false, true);
    assert_eq!(d.anchor, Anchor::Entry(1));
    assert_eq!(d.message(), "`flavor` set multiple times.");
    let d = err(vec![flavor("current_thread"), workers("2"), flavor("bogus")], false, true);
    assert_eq!(d.anchor, Anchor::Entry(2));
    assert_eq!(d.message(), "`flavor` set multiple times.");
}

#[test]
fn workers_twice_rejected_even_when_equal() {
    let d = err(vec![workers("3"), workers("3")], false, true);
    assert_eq!(d.anchor, Anchor::Entry(1));
    assert_eq!(d.message(), "`worker_threads` set multiple times.");
    let d = err(vec![workers("3"), workers("0")], false, true);
    assert_eq!(d.message(), "`worker_threads` set multiple times.");
}

#[test]
fn current_thread_needs_no_capability() {
    for is_test in [false, true] {
        let c = ok(vec![flavor("current_thread")], is_test, false);
        assert_eq!(c, FinalConfig { flavor: RuntimeFlavor::CurrentThread, worker_threads: None });
    }
}

#[test]
fn default_flavor_follows_mode() {
    let c = ok(vec![], true, false);
    assert_eq!(c.flavor, RuntimeFlavor::CurrentThread);
    let c = ok(vec![], true, true);
    assert_eq!(c.flavor, RuntimeFlavor::CurrentThread);
    let c = ok(vec![workers("8")], false, true);
    assert_eq!(c, FinalConfig { flavor: RuntimeFlavor::Threaded, worker_threads: Some(8) });
    let d = err(vec![workers("8")], true, true);
    assert_eq!(d.message(), "The `worker_threads` option requires the `multi_thread` runtime flavor.");
}

#[test]
fn decision_table_rows() {
    let c = ok(vec![flavor("multi_thread"), workers("2")], true, true);
    assert_eq!(c, FinalConfig { flavor: RuntimeFlavor::Threaded, worker_threads: Some(2) });
    let c = ok(vec![workers("2"), flavor("multi_thread")], false, true);
    assert_eq!(c, FinalConfig { flavor: RuntimeFlavor::Threaded, worker_threads: Some(2) });
    let d = err(vec![workers("2"), flavor("multi_thread")], false, false);
    assert_eq!(d.anchor, Anchor::CallSite);
    let d = err(vec![workers("5"), flavor("current_thread")], false, true);
    assert_eq!(d.anchor, Anchor::Entry(0));
}

#[test]
fn legacy_flavor_values_get_corrective_messages() {
    let cases = [
        ("single_thread", "The single threaded runtime flavor is called `current_thread`."),
        ("basic_scheduler", "The `basic_scheduler` runtime flavor has been renamed to `current_thread`."),
        ("threaded_scheduler", "The `threaded_scheduler` runtime flavor has been renamed to `multi_thread`."),
    ];
    for (value, message) in cases {
        let d = err(vec![flavor(value)], false, true);
        assert_eq!(d.anchor, Anchor::Entry(0));
        assert_eq!(d.message(), message);
    }
}

#[test]
fn unknown_flavor_value_lists_the_flavors() {
    let d = err(vec![flavor("fast")], false, true);
    assert_eq!(
        d.message(),
        "No such runtime flavor `fast`. The runtime flavors are `current_thread` and `multi_thread`."
    );
}

#[test]
fn flavor_flags_ask_for_the_value_form() {
    for name in ["multi_thread", "threaded_scheduler", "Multi_Thread"] {
        let d = err(vec![flag(name)], false, true);
        assert_eq!(d.anchor, Anchor::Entry(0));
        assert_eq!(
            d.message(),
            "Set the runtime flavor with #[pyo3_async_runtimes::tokio::main(flavor = \"multi_thread\")]."
        );
    }
    for name in ["current_thread", "basic_scheduler", "single_threaded"] {
        let d = err(vec![flag(name)], true, true);
        assert_eq!(
            d.message(),
            "Set the runtime flavor with #[pyo3_async_runtimes::tokio::main(flavor = \"current_thread\")]."
        );
    }
}

#[test]
fn bare_keys_require_an_argument() {
    let d = err(vec![flag("flavor")], false, true);
    assert_eq!(d.message(), "The `flavor` attribute requires an argument.");
    let d = err(vec![flag("Worker_Threads")], false, true);
    assert_eq!(d.message(), "The `worker_threads` attribute requires an argument.");
}

#[test]
fn unknown_names_are_rejected() {
    let d = err(vec![flag("Turbo")], false, true);
    assert_eq!(d.message(), "Unknown attribute turbo is specified; expected one of: `flavor`, `worker_threads`");
    let d = err(vec![named("speed", AttrValue::Lit(Literal::Int("1".to_string())))], false, true);
    assert_eq!(d.anchor, Anchor::Entry(0));
    assert_eq!(d.message(), "Unknown attribute speed is specified; expected one of: `flavor`, `worker_threads`");
}

#[test]
fn core_threads_is_renamed() {
    let d = err(vec![named("core_threads", AttrValue::Lit(Literal::Int("2".to_string())))], false, true);
    assert_eq!(d.message(), "Attribute `core_threads` is renamed to `worker_threads`");
}

#[test]
fn other_shapes_are_rejected() {
    let d = err(vec![AttrEntry::Structured], false, true);
    assert_eq!(d.message(), "Unknown attribute inside the macro");
    let d = err(vec![AttrEntry::Flag { name: None }], false, true);
    assert_eq!(d.message(), "Must have specified ident");
    let d = err(vec![AttrEntry::NameValue { name: None, value: AttrValue::Expr }], false, true);
    assert_eq!(d.message(), "Must have specified ident");
    let d = err(vec![named("flavor", AttrValue::Expr)], false, true);
    assert_eq!(d.anchor, Anchor::EntryValue(0));
    assert_eq!(d.message(), "Expected a literal value");
}

#[test]
fn wrong_literal_kinds_are_rejected() {
    let d = err(vec![named("flavor", AttrValue::Lit(Literal::Int("1".to_string())))], false, true);
    assert_eq!(d.message(), "Failed to parse flavor as string.");
    let d = err(vec![named("worker_threads", AttrValue::Lit(Literal::Text("1".to_string())))], false, true);
    assert_eq!(d.message(), "Failed to parse worker_threads as integer.");
    let d = err(vec![named("worker_threads", AttrValue::Lit(Literal::Other))], false, true);
    assert_eq!(d.message(), "Failed to parse worker_threads as integer.");
}

#[test]
fn oversized_worker_count_is_rejected() {
    let d = err(vec![workers("99999999999999999999999")], false, true);
    assert_eq!(
        d.message(),
        "Failed to parse worker_threads as integer: number too large to fit in target type"
    );
}

#[test]
fn first_error_wins() {
    let d = err(vec![flag("bogus"), workers("0")], false, true);
    assert_eq!(d.anchor, Anchor::Entry(0));
    let d = err(vec![workers("0"), flag("bogus")], false, true);
    assert_eq!(d.message(), "`worker_threads` may not be 0.");
}

#[test]
fn names_match_case_insensitively() {
    let c = ok(vec![named("FLAVOR", AttrValue::Lit(Literal::Text("current_thread".to_string())))], false, false);
    assert_eq!(c.flavor, RuntimeFlavor::CurrentThread);
}

#[test]
fn flavor_names() {
    assert_eq!(RuntimeFlavor::from_str("current_thread"), Ok(RuntimeFlavor::CurrentThread));
    assert_eq!(RuntimeFlavor::from_str("multi_thread"), Ok(RuntimeFlavor::Threaded));
    assert!(RuntimeFlavor::from_str("Multi_Thread").is_err());
}

#[test]
fn draft_steps() {
    let mut c = Configuration::new(true, false);
    assert_eq!(c.default_flavor, RuntimeFlavor::CurrentThread);
    assert!(c.set_flavor(&Literal::Text("multi_thread".to_string()), 0).is_ok());
    assert_eq!(c.flavor, Some(RuntimeFlavor::Threaded));
    let d = c.set_flavor(&Literal::Text("multi_thread".to_string()), 1).unwrap_err();
    assert_eq!(d.message(), "`flavor` set multiple times.");
    assert_eq!(c.flavor, Some(RuntimeFlavor::Threaded));
    assert!(c.set_worker_threads(&Literal::Int("7".to_string()), 2).is_ok());
    assert_eq!(c.worker_threads, Some((7, 2)));
    assert!(c.build().is_err());
    c.rt_multi_thread_available = true;
    assert_eq!(c.build().unwrap(), FinalConfig { flavor: RuntimeFlavor::Threaded, worker_threads: Some(7) });
}

#[test]
fn decimal_parsing() {
    assert_eq!(parse_decimal("0"), Ok(0));
    assert_eq!(parse_decimal("1024"), Ok(1024));
    assert_eq!(parse_decimal(""), Err(CountError::Empty));
    assert_eq!(parse_decimal("1a"), Err(CountError::InvalidDigit));
    assert_eq!(parse_decimal(&usize::MAX.to_string()), Ok(usize::MAX));
    assert_eq!(parse_decimal("184467440737095516150"), Err(CountError::TooLarge));
    assert!(str_eq("abc", "abc"));
    assert!(!str_eq("abc", "abd"));
    assert!(!str_eq("abc", "ab"));
}
