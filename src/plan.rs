//! The bootstrap plan: the ordered actions of the generated synchronous
//! wrapper, derived from a final configuration.

use vstd::prelude::*;
use crate::config::{resolve, resolve_spec, AttrEntry, FinalConfig};
use crate::diagnostic::{diag_view, Anchor, Diagnostic};
use crate::flavor::RuntimeFlavor;
use crate::text::str_eq;

verus! {

/// One action of the generated wrapper.
#[derive(Clone, Copy, Debug, PartialEq, Eq, Structural)]
pub enum BootstrapStep {
    /// Re-declare the annotated function's body as an inner asynchronous function.
    DeclareInnerBody,
    /// Initialize the interpreter runtime.
    InitInterpreter,
    /// Start a single-thread task-runtime builder.
    NewCurrentThreadBuilder,
    /// Start a multi-thread task-runtime builder.
    NewMultiThreadBuilder,
    /// Set the builder's worker thread count.
    SetWorkerThreads(usize),
    /// Enable all runtime features on the builder.
    EnableAll,
    /// Build the runtime and register it as the process-wide task runtime.
    RegisterRuntime,
    /// Keep the single-thread runtime driven from a detached background thread.
    SpawnKeepAlive,
    /// Run the inner body to completion inside the interpreter's context.
    RunBody,
}

/// What the plan generator needs to know of the entry point's declaration.
#[derive(Clone, Debug)]
pub struct Declaration {
    pub is_async: bool,
    pub name: String,
    pub param_count: usize,
}

pub open spec fn builder_spec(flavor: RuntimeFlavor) -> BootstrapStep {
    match flavor {
        RuntimeFlavor::CurrentThread => BootstrapStep::NewCurrentThreadBuilder,
        RuntimeFlavor::Threaded => BootstrapStep::NewMultiThreadBuilder,
    }
}

pub open spec fn builder_init_spec(worker_threads: Option<usize>) -> Seq<BootstrapStep> {
    match worker_threads {
        Some(n) => seq![BootstrapStep::SetWorkerThreads(n), BootstrapStep::EnableAll],
        None => seq![BootstrapStep::EnableAll],
    }
}

pub open spec fn keep_alive_spec(flavor: RuntimeFlavor) -> Seq<BootstrapStep> {
    match flavor {
        RuntimeFlavor::CurrentThread => seq![BootstrapStep::SpawnKeepAlive],
        RuntimeFlavor::Threaded => Seq::empty(),
    }
}

/// The whole plan for a configuration.
pub open spec fn plan_spec(config: FinalConfig) -> Seq<BootstrapStep> {
    seq![BootstrapStep::DeclareInnerBody, BootstrapStep::InitInterpreter, builder_spec(config.flavor)]
        + builder_init_spec(config.worker_threads) + seq![BootstrapStep::RegisterRuntime]
        + keep_alive_spec(config.flavor) + seq![BootstrapStep::RunBody]
}

pub open spec fn missing_async_message() -> Seq<char> {
    "the async keyword is missing from the function declaration"@
}

pub open spec fn main_arguments_message() -> Seq<char> {
    "the main function cannot accept arguments"@
}

/// Declaration check first, then resolution, then the plan.
pub open spec fn parse_knobs_spec(
    decl: Declaration,
    entries: Seq<AttrEntry>,
    is_test: bool,
    rt_multi_thread: bool,
) -> Result<Seq<BootstrapStep>, (Anchor, Seq<char>)> {
    if !decl.is_async {
        Err((Anchor::FnToken, missing_async_message()))
    } else {
        match resolve_spec(entries, is_test, rt_multi_thread) {
            Ok(c) => Ok(plan_spec(c)),
            Err(d) => Err(d),
        }
    }
}

/// The program entry point named `main` takes no parameters; the rest is as
/// for any entry point outside test mode.
pub open spec fn expand_main_spec(
    decl: Declaration,
    entries: Seq<AttrEntry>,
    rt_multi_thread: bool,
) -> Result<Seq<BootstrapStep>, (Anchor, Seq<char>)> {
    if decl.name@ == "main"@ && decl.param_count != 0 {
        Err((Anchor::FnName, main_arguments_message()))
    } else {
        parse_knobs_spec(decl, entries, false, rt_multi_thread)
    }
}

/// A plan seen through the view of its steps.
pub open spec fn plan_view(r: Result<Vec<BootstrapStep>, Diagnostic>) -> Result<
    Seq<BootstrapStep>,
    (Anchor, Seq<char>),
> {
    match r {
        Ok(v) => Ok(v@),
        Err(d) => Err(d@),
    }
}

/// The builder the flavor selects.
pub fn builder_step(flavor: RuntimeFlavor) -> (r: BootstrapStep)
    ensures
        r == builder_spec(flavor),
{
    match flavor {
        RuntimeFlavor::CurrentThread => BootstrapStep::NewCurrentThreadBuilder,
        RuntimeFlavor::Threaded => BootstrapStep::NewMultiThreadBuilder,
    }
}

/// Appends the builder configuration: the worker count where one is given,
/// then all features.
pub fn push_builder_init(plan: &mut Vec<BootstrapStep>, worker_threads: Option<usize>)
    ensures
        final(plan)@ == old(plan)@ + builder_init_spec(worker_threads),
{
    if let Some(n) = worker_threads {
        plan.push(BootstrapStep::SetWorkerThreads(n));
    }
    plan.push(BootstrapStep::EnableAll);
    assert(final(plan)@ =~= old(plan)@ + builder_init_spec(worker_threads));
}

/// Appends the keep-alive thread that a single-thread runtime needs.
pub fn push_keep_alive(plan: &mut Vec<BootstrapStep>, flavor: RuntimeFlavor)
    ensures
        final(plan)@ == old(plan)@ + keep_alive_spec(flavor),
{
    if flavor == RuntimeFlavor::CurrentThread {
        plan.push(BootstrapStep::SpawnKeepAlive);
    }
    assert(final(plan)@ =~= old(plan)@ + keep_alive_spec(flavor));
}

/// The bootstrap plan for a final configuration.
pub fn bootstrap_plan(config: &FinalConfig) -> (r: Vec<BootstrapStep>)
    ensures
        r@ == plan_spec(*config),
{
    let mut plan: Vec<BootstrapStep> = Vec::new();
    plan.push(BootstrapStep::DeclareInnerBody);
    plan.push(BootstrapStep::InitInterpreter);
    plan.push(builder_step(config.flavor));
    push_builder_init(&mut plan, config.worker_threads);
    plan.push(BootstrapStep::RegisterRuntime);
    push_keep_alive(&mut plan, config.flavor);
    plan.push(BootstrapStep::RunBody);
    assert(plan@ =~= plan_spec(*config));
    plan
}

/// Checks the declaration, resolves the attributes and lowers the result to
/// a plan. A non-asynchronous declaration is rejected before any attribute is
/// looked at.
pub fn parse_knobs(
    decl: &Declaration,
    entries: &Vec<AttrEntry>,
    is_test: bool,
    rt_multi_thread: bool,
) -> (r: Result<Vec<BootstrapStep>, Diagnostic>)
    ensures
        plan_view(r) == parse_knobs_spec(*decl, entries@, is_test, rt_multi_thread),
{
    if !decl.is_async {
        return Err(
            Diagnostic::new(
                Anchor::FnToken,
                String::from_str("the async keyword is missing from the function declaration"),
            ),
        );
    }
    match resolve(entries, is_test, rt_multi_thread) {
        Ok(config) => Ok(bootstrap_plan(&config)),
        Err(d) => Err(d),
    }
}

/// Expansion for a program entry point.
pub fn expand_main(decl: &Declaration, entries: &Vec<AttrEntry>, rt_multi_thread: bool) -> (r:
    Result<Vec<BootstrapStep>, Diagnostic>)
    ensures
        plan_view(r) == expand_main_spec(*decl, entries@, rt_multi_thread),
{
    if str_eq(decl.name.as_str(), "main") && decl.param_count != 0 {
        return Err(
            Diagnostic::new(
                Anchor::FnName,
                String::from_str("the main function cannot accept arguments"),
            ),
        );
    }
    parse_knobs(decl, entries, false, rt_multi_thread)
}

} // verus!
