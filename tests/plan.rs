use pyo3_asyncio_macros::config::{AttrEntry, AttrValue, FinalConfig, Literal};
use pyo3_asyncio_macros::diagnostic::Anchor;
use pyo3_asyncio_macros::flavor::RuntimeFlavor;
use pyo3_asyncio_macros::plan::{bootstrap_plan, expand_main, parse_knobs, BootstrapStep, Declaration};

use BootstrapStep::{
    DeclareInnerBody, EnableAll, InitInterpreter, NewCurrentThreadBuilder, NewMultiThreadBuilder,
    RegisterRuntime, RunBody, SetWorkerThreads, SpawnKeepAlive,
};

fn decl(is_async: bool, name: &str, param_count: usize) -> Declaration {
    Declaration { is_async, name: name.to_string(), param_count }
}

#[test]
fn threaded_plan() {
    let plan = bootstrap_plan(&FinalConfig { flavor: RuntimeFlavor::Threaded, worker_threads: None });
    assert_eq!(
        plan,
        vec![DeclareInnerBody, InitInterpreter, NewMultiThreadBuilder, EnableAll, RegisterRuntime, RunBody]
    );
}

#[test]
fn threaded_plan_with_workers() {
    let plan = bootstrap_plan(&FinalConfig { flavor: RuntimeFlavor::Threaded, worker_threads: Some(3) });
    assert_eq!(
        plan,
        vec![
            DeclareInnerBody,
            InitInterpreter,
            NewMultiThreadBuilder,
            SetWorkerThreads(3),
            EnableAll,
            RegisterRuntime,
            RunBody
        ]
    );
}

#[test]
fn current_thread_plan_keeps_runtime_alive() {
    let plan = bootstrap_plan(&FinalConfig { flavor: RuntimeFlavor::CurrentThread, worker_threads: None });
    assert_eq!(
        plan,
        vec![
            DeclareInnerBody,
            InitInterpreter,
            NewCurrentThreadBuilder,
            EnableAll,
            RegisterRuntime,
            SpawnKeepAlive,
            RunBody
        ]
    );
}

#[test]
fn missing_async_comes_first() {
    let bad = vec![AttrEntry::Structured, AttrEntry::Flag { name: Some("bogus".to_string()) }];
    let d = parse_knobs(&decl(false, "main", 0), &bad, false, true).unwrap_err();
    assert_eq!(d.anchor, Anchor::FnToken);
    assert_eq!(d.message(), "the async keyword is missing from the function declaration");
    let d = expand_main(&decl(false, "run", 2), &bad, true).unwrap_err();
    assert_eq!(d.anchor, Anchor::FnToken);
}

#[test]
fn main_takes_no_arguments() {
    let d = expand_main(&decl(true, "main", 1), &vec![], true).unwrap_err();
    assert_eq!(d.anchor, Anchor::FnName);
    assert_eq!(d.message(), "the main function cannot accept arguments");
    assert!(expand_main(&decl(true, "start", 1), &vec![], true).is_ok());
}

#[test]
fn expand_main_resolves_as_program_entry() {
    let plan = expand_main(&decl(true, "main", 0), &vec![], true).unwrap();
    assert_eq!(plan[2], NewMultiThreadBuilder);
    let entries = vec![AttrEntry::NameValue {
        name: Some("worker_threads".to_string()),
        value: AttrValue::Lit(Literal::Int("4".to_string())),
    }];
    let plan = parse_knobs(&decl(true, "main", 0), &entries, false, true).unwrap();
    assert_eq!(plan[3], SetWorkerThreads(4));
    let d = parse_knobs(&decl(true, "main", 0), &entries, true, true).unwrap_err();
    assert_eq!(d.anchor, Anchor::Entry(0));
}
