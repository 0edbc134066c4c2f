//! Properties of resolution that hold for every attribute list.

use vstd::prelude::*;
use crate::config::{
    apply_spec, entry_key, initial_config, lemma_scan_error_persists, resolve_spec, scan_spec,
    AttrEntry, AttrValue, Configuration, FinalConfig, Literal, flavor_twice_message,
    worker_threads_twice_message, zero_workers_message, default_flavor_for,
    default_flavor_unavailable_message, flag_message, unknown_attribute_message,
    is_multi_thread_alias, is_current_thread_alias, use_multi_thread_form_message,
    use_current_thread_form_message,
};
use crate::diagnostic::Anchor;
use crate::flavor::{flavor_from_name, is_legacy_flavor_name, unknown_flavor_message, RuntimeFlavor};
use crate::plan::{
    expand_main_spec, missing_async_message, parse_knobs_spec, BootstrapStep, Declaration,
};
use crate::text::{decimal_value, CountError};

verus! {

/// A name/value entry with a literal value whose lower-cased name is `key`.
pub open spec fn is_literal_entry(e: AttrEntry, key: Seq<char>) -> bool {
    &&& e matches AttrEntry::NameValue { name: Some(_), value: AttrValue::Lit(_) }
    &&& entry_key(e) == key
}

/// `flavor = "<t>"` with `t` the given text.
pub open spec fn is_flavor_text_entry(e: AttrEntry, t: Seq<char>) -> bool {
    &&& e matches AttrEntry::NameValue { name: Some(_), value: AttrValue::Lit(Literal::Text(s)) }
        && s@ == t
    &&& entry_key(e) == "flavor"@
}

/// A scan that succeeded on `n` entries succeeded on every shorter prefix.
pub proof fn lemma_scan_ok_prefix(c0: Configuration, es: Seq<AttrEntry>, m: nat, n: nat)
    requires
        m <= n,
        scan_spec(c0, es, n) is Ok,
    ensures
        scan_spec(c0, es, m) is Ok,
{
    if scan_spec(c0, es, m) is Err {
        lemma_scan_error_persists(c0, es, m, n);
    }
}

/// Applying entries never changes the mode-derived fields, nor a field that
/// has already been set.
pub proof fn lemma_scan_keeps_set_fields(c0: Configuration, es: Seq<AttrEntry>, m: nat, n: nat)
    requires
        m <= n,
        scan_spec(c0, es, n) is Ok,
    ensures
        scan_spec(c0, es, m) is Ok,
        ({
            let cm = scan_spec(c0, es, m)->Ok_0;
            let cn = scan_spec(c0, es, n)->Ok_0;
            &&& cn.rt_multi_thread_available == cm.rt_multi_thread_available
            &&& cn.default_flavor == cm.default_flavor
            &&& cm.flavor is Some ==> cn.flavor == cm.flavor
            &&& cm.worker_threads is Some ==> cn.worker_threads == cm.worker_threads
        }),
    decreases n - m,
{
    lemma_scan_ok_prefix(c0, es, m, n);
    if m < n {
        lemma_scan_ok_prefix(c0, es, (n - 1) as nat, n);
        lemma_scan_keeps_set_fields(c0, es, m, (n - 1) as nat);
    }
}

/// Once an entry fails whatever the draft, resolution fails; if the entries
/// before it were accepted, its diagnostic is the one reported.
pub proof fn lemma_failing_entry(es: Seq<AttrEntry>, is_test: bool, rt_multi_thread: bool, k: nat)
    requires
        k < es.len(),
        scan_spec(initial_config(is_test, rt_multi_thread), es, k) is Ok ==> apply_spec(
            scan_spec(initial_config(is_test, rt_multi_thread), es, k)->Ok_0,
            k as usize,
            es[k as int],
            entry_key(es[k as int]),
        ) is Err,
    ensures
        resolve_spec(es, is_test, rt_multi_thread) is Err,
        scan_spec(initial_config(is_test, rt_multi_thread), es, k) is Ok ==> resolve_spec(
            es,
            is_test,
            rt_multi_thread,
        ) == Err::<FinalConfig, (Anchor, Seq<char>)>(
            apply_spec(
                scan_spec(initial_config(is_test, rt_multi_thread), es, k)->Ok_0,
                k as usize,
                es[k as int],
                entry_key(es[k as int]),
            )->Err_0,
        ),
{
    let c0 = initial_config(is_test, rt_multi_thread);
    if scan_spec(c0, es, k) is Err {
        lemma_scan_error_persists(c0, es, k, es.len());
    } else {
        assert(scan_spec(c0, es, k + 1) is Err);
        lemma_scan_error_persists(c0, es, k + 1, es.len());
    }
}

/// Setting `flavor` a second time fails at the second entry with the
/// "set multiple times" diagnostic, whatever the two values are.
pub proof fn lemma_flavor_set_twice(
    es: Seq<AttrEntry>,
    is_test: bool,
    rt_multi_thread: bool,
    j: nat,
    k: nat,
)
    requires
        j < k < es.len(),
        is_literal_entry(es[j as int], "flavor"@),
        is_literal_entry(es[k as int], "flavor"@),
        scan_spec(initial_config(is_test, rt_multi_thread), es, k) is Ok,
    ensures
        resolve_spec(es, is_test, rt_multi_thread) == Err::<FinalConfig, (Anchor, Seq<char>)>(
            (Anchor::Entry(k as usize), flavor_twice_message()),
        ),
{
    let c0 = initial_config(is_test, rt_multi_thread);
    lemma_scan_keeps_set_fields(c0, es, j + 1, k);
    lemma_scan_ok_prefix(c0, es, j, k);
    reveal_strlit("flavor");
    reveal_strlit("worker_threads");
    assert(scan_spec(c0, es, j + 1)->Ok_0.flavor is Some);
    lemma_failing_entry(es, is_test, rt_multi_thread, k);
}

/// Setting `worker_threads` a second time fails at the second entry with the
/// "set multiple times" diagnostic, whatever the two values are.
pub proof fn lemma_worker_threads_set_twice(
    es: Seq<AttrEntry>,
    is_test: bool,
    rt_multi_thread: bool,
    j: nat,
    k: nat,
)
    requires
        j < k < es.len(),
        is_literal_entry(es[j as int], "worker_threads"@),
        is_literal_entry(es[k as int], "worker_threads"@),
        scan_spec(initial_config(is_test, rt_multi_thread), es, k) is Ok,
    ensures
        resolve_spec(es, is_test, rt_multi_thread) == Err::<FinalConfig, (Anchor, Seq<char>)>(
            (Anchor::Entry(k as usize), worker_threads_twice_message()),
        ),
{
    let c0 = initial_config(is_test, rt_multi_thread);
    lemma_scan_keeps_set_fields(c0, es, j + 1, k);
    lemma_scan_ok_prefix(c0, es, j, k);
    assert(scan_spec(c0, es, j + 1)->Ok_0.worker_threads is Some);
    lemma_failing_entry(es, is_test, rt_multi_thread, k);
}

/// `worker_threads = 0` makes resolution fail whatever the flavor and the
/// capability; where it is the first worker count and the entries before it
/// were accepted, the diagnostic is "may not be 0" at that entry.
pub proof fn lemma_zero_workers_rejected(
    es: Seq<AttrEntry>,
    is_test: bool,
    rt_multi_thread: bool,
    k: nat,
)
    requires
        k < es.len(),
        es[k as int] matches AttrEntry::NameValue {
            name: Some(_),
            value: AttrValue::Lit(Literal::Int(d)),
        } && decimal_value(d@) == Ok::<nat, CountError>(0),
        entry_key(es[k as int]) == "worker_threads"@,
    ensures
        resolve_spec(es, is_test, rt_multi_thread) is Err,
        scan_spec(initial_config(is_test, rt_multi_thread), es, k) matches Ok(c) && c.worker_threads is None
            ==> resolve_spec(es, is_test, rt_multi_thread) == Err::<
            FinalConfig,
            (Anchor, Seq<char>),
        >((Anchor::Entry(k as usize), zero_workers_message())),
{
    lemma_failing_entry(es, is_test, rt_multi_thread, k);
}

/// An explicit `flavor = "multi_thread"` fails whenever the multi-thread
/// runtime is unavailable.
pub proof fn lemma_explicit_multi_thread_needs_capability(
    es: Seq<AttrEntry>,
    is_test: bool,
    k: nat,
)
    requires
        k < es.len(),
        is_flavor_text_entry(es[k as int], "multi_thread"@),
    ensures
        resolve_spec(es, is_test, false) is Err,
{
    let c0 = initial_config(is_test, false);
    reveal_strlit("flavor");
    reveal_strlit("worker_threads");
    reveal_strlit("current_thread");
    reveal_strlit("multi_thread");
    if scan_spec(c0, es, k) is Err {
        lemma_scan_error_persists(c0, es, k, es.len());
    } else if scan_spec(c0, es, k)->Ok_0.flavor is Some {
        lemma_failing_entry(es, is_test, false, k);
    } else if scan_spec(c0, es, es.len()) is Err {
    } else {
        lemma_scan_ok_prefix(c0, es, k + 1, es.len());
        assert("multi_thread"@[0] != "current_thread"@[0]);
        assert(flavor_from_name("multi_thread"@) == Ok::<RuntimeFlavor, Seq<char>>(
            RuntimeFlavor::Threaded,
        ));
        assert(scan_spec(c0, es, k + 1)->Ok_0.flavor == Some(RuntimeFlavor::Threaded));
        lemma_scan_keeps_set_fields(c0, es, k + 1, es.len());
        lemma_scan_keeps_set_fields(c0, es, 0, es.len());
    }
}

/// `flavor = "current_thread"` alone resolves whatever the mode and the
/// capability: the capability only gates the threaded flavor.
pub proof fn lemma_current_thread_needs_no_capability(
    es: Seq<AttrEntry>,
    is_test: bool,
    rt_multi_thread: bool,
)
    requires
        es.len() == 1,
        is_flavor_text_entry(es[0], "current_thread"@),
    ensures
        resolve_spec(es, is_test, rt_multi_thread) == Ok::<FinalConfig, (Anchor, Seq<char>)>(
            FinalConfig { flavor: RuntimeFlavor::CurrentThread, worker_threads: None },
        ),
{
    reveal_strlit("flavor");
    reveal_strlit("worker_threads");
    assert(scan_spec(initial_config(is_test, rt_multi_thread), es, 0) is Ok);
    assert(scan_spec(initial_config(is_test, rt_multi_thread), es, 1) is Ok);
}

/// No entry among the first `n` is named `flavor`.
pub open spec fn no_flavor_entry(es: Seq<AttrEntry>, n: nat) -> bool {
    forall|i: int| 0 <= i < n ==> entry_key(#[trigger] es[i]) != "flavor"@
}

proof fn lemma_flavor_stays_unset(es: Seq<AttrEntry>, is_test: bool, rt_multi_thread: bool, n: nat)
    requires
        n <= es.len(),
        no_flavor_entry(es, n),
        scan_spec(initial_config(is_test, rt_multi_thread), es, n) is Ok,
    ensures
        scan_spec(initial_config(is_test, rt_multi_thread), es, n)->Ok_0.flavor is None,
        scan_spec(initial_config(is_test, rt_multi_thread), es, n)->Ok_0.default_flavor == default_flavor_for(
            is_test,
        ),
        scan_spec(initial_config(is_test, rt_multi_thread), es, n)->Ok_0.rt_multi_thread_available
            == rt_multi_thread,
    decreases n,
{
    if n > 0 {
        lemma_scan_ok_prefix(initial_config(is_test, rt_multi_thread), es, (n - 1) as nat, n);
        assert(entry_key(es[n - 1]) != "flavor"@);
        lemma_flavor_stays_unset(es, is_test, rt_multi_thread, (n - 1) as nat);
    }
}

/// Without an explicit `flavor`, a successful resolution has the mode's
/// default flavor: single-thread for tests, threaded otherwise; and a program
/// entry point cannot resolve without the multi-thread runtime.
pub proof fn lemma_default_flavor(es: Seq<AttrEntry>, is_test: bool, rt_multi_thread: bool)
    requires
        no_flavor_entry(es, es.len()),
    ensures
        resolve_spec(es, is_test, rt_multi_thread) is Ok ==> resolve_spec(
            es,
            is_test,
            rt_multi_thread,
        )->Ok_0.flavor == default_flavor_for(is_test),
        !is_test && !rt_multi_thread ==> resolve_spec(es, is_test, rt_multi_thread) is Err,
{
    if scan_spec(initial_config(is_test, rt_multi_thread), es, es.len()) is Ok {
        lemma_flavor_stays_unset(es, is_test, rt_multi_thread, es.len());
    }
}

/// With no attributes at all, the mode alone decides.
pub proof fn lemma_no_attributes(is_test: bool, rt_multi_thread: bool)
    ensures
        resolve_spec(Seq::empty(), is_test, rt_multi_thread) == if is_test {
            Ok::<FinalConfig, (Anchor, Seq<char>)>(
                FinalConfig { flavor: RuntimeFlavor::CurrentThread, worker_threads: None },
            )
        } else if rt_multi_thread {
            Ok(FinalConfig { flavor: RuntimeFlavor::Threaded, worker_threads: None })
        } else {
            Err((Anchor::CallSite, default_flavor_unavailable_message()))
        },
{
}

/// A legacy flavor name as the value of `flavor` never resolves; where it is
/// the first `flavor` and the entries before it were accepted, the diagnostic
/// is the corrective one, never the generic unknown-flavor message.
pub proof fn lemma_legacy_flavor_value(
    es: Seq<AttrEntry>,
    is_test: bool,
    rt_multi_thread: bool,
    k: nat,
    t: Seq<char>,
)
    requires
        k < es.len(),
        is_flavor_text_entry(es[k as int], t),
        is_legacy_flavor_name(t),
    ensures
        resolve_spec(es, is_test, rt_multi_thread) is Err,
        flavor_from_name(t) is Err,
        flavor_from_name(t)->Err_0 != unknown_flavor_message(t),
        scan_spec(initial_config(is_test, rt_multi_thread), es, k) matches Ok(c) && c.flavor is None
            ==> resolve_spec(es, is_test, rt_multi_thread) == Err::<
            FinalConfig,
            (Anchor, Seq<char>),
        >((Anchor::Entry(k as usize), flavor_from_name(t)->Err_0)),
{
    reveal_strlit("flavor");
    reveal_strlit("worker_threads");
    reveal_strlit("current_thread");
    reveal_strlit("multi_thread");
    reveal_strlit("single_thread");
    reveal_strlit("basic_scheduler");
    reveal_strlit("threaded_scheduler");
    reveal_strlit("The single threaded runtime flavor is called `current_thread`.");
    reveal_strlit("The `basic_scheduler` runtime flavor has been renamed to `current_thread`.");
    reveal_strlit("The `threaded_scheduler` runtime flavor has been renamed to `multi_thread`.");
    reveal_strlit("No such runtime flavor `");
    assert(flavor_from_name(t)->Err_0[0] != unknown_flavor_message(t)[0]);
    lemma_failing_entry(es, is_test, rt_multi_thread, k);
}

/// A bare flavor name used as a flag never resolves; where the entries before
/// it were accepted, the diagnostic asks for the `flavor = "..."` form, never
/// the generic unknown-attribute message.
pub proof fn lemma_flavor_alias_flag(
    es: Seq<AttrEntry>,
    is_test: bool,
    rt_multi_thread: bool,
    k: nat,
)
    requires
        k < es.len(),
        es[k as int] matches AttrEntry::Flag { name: Some(_) },
        is_multi_thread_alias(entry_key(es[k as int])) || is_current_thread_alias(
            entry_key(es[k as int]),
        ),
    ensures
        resolve_spec(es, is_test, rt_multi_thread) is Err,
        flag_message(entry_key(es[k as int])) != unknown_attribute_message(entry_key(es[k as int])),
        scan_spec(initial_config(is_test, rt_multi_thread), es, k) is Ok ==> resolve_spec(
            es,
            is_test,
            rt_multi_thread,
        ) == Err::<FinalConfig, (Anchor, Seq<char>)>(
            (
                Anchor::Entry(k as usize),
                if is_multi_thread_alias(entry_key(es[k as int])) {
                    use_multi_thread_form_message()
                } else {
                    use_current_thread_form_message()
                },
            ),
        ),
{
    let key = entry_key(es[k as int]);
    reveal_strlit("Set the runtime flavor with #[pyo3_async_runtimes::tokio::main(flavor = \"multi_thread\")].");
    reveal_strlit("Set the runtime flavor with #[pyo3_async_runtimes::tokio::main(flavor = \"current_thread\")].");
    reveal_strlit("Unknown attribute ");
    assert(flag_message(key)[0] != unknown_attribute_message(key)[0]);
    lemma_failing_entry(es, is_test, rt_multi_thread, k);
}

/// A declaration that is not asynchronous is rejected before any attribute
/// is looked at, whatever the attributes are.
pub proof fn lemma_missing_async_first(
    decl: Declaration,
    es: Seq<AttrEntry>,
    is_test: bool,
    rt_multi_thread: bool,
)
    requires
        !decl.is_async,
    ensures
        parse_knobs_spec(decl, es, is_test, rt_multi_thread) == Err::<
            Seq<BootstrapStep>,
            (Anchor, Seq<char>),
        >((Anchor::FnToken, missing_async_message())),
        !(decl.name@ == "main"@ && decl.param_count != 0) ==> expand_main_spec(
            decl,
            es,
            rt_multi_thread,
        ) == Err::<Seq<BootstrapStep>, (Anchor, Seq<char>)>(
            (Anchor::FnToken, missing_async_message()),
        ),
{
}

/// An entry that is accepted on a fresh draft: a known flavor by name, or a
/// positive worker count.
pub open spec fn is_valid_entry(e: AttrEntry) -> bool {
    match e {
        AttrEntry::NameValue { name: Some(_), value: AttrValue::Lit(Literal::Text(t)) } => {
            entry_key(e) == "flavor"@ && flavor_from_name(t@) is Ok
        },
        AttrEntry::NameValue { name: Some(_), value: AttrValue::Lit(Literal::Int(d)) } => {
            entry_key(e) == "worker_threads"@ && (decimal_value(d@) matches Ok(v) && v > 0)
        },
        _ => false,
    }
}

/// No two entries share a lower-cased name.
pub open spec fn keys_distinct(es: Seq<AttrEntry>) -> bool {
    forall|i: int, j: int|
        0 <= i < j < es.len() ==> entry_key(#[trigger] es[i]) != entry_key(#[trigger] es[j])
}

/// The flavor a `flavor = "..."` entry names.
pub open spec fn entry_flavor(e: AttrEntry) -> Option<RuntimeFlavor> {
    match e {
        AttrEntry::NameValue { value: AttrValue::Lit(Literal::Text(t)), .. } => match flavor_from_name(
            t@,
        ) {
            Ok(f) => Some(f),
            Err(_) => None,
        },
        _ => None,
    }
}

/// The flavor named by the last `flavor` entry among the first `n`.
pub open spec fn explicit_flavor(es: Seq<AttrEntry>, n: nat) -> Option<RuntimeFlavor>
    decreases n,
{
    if n == 0 {
        None
    } else if entry_key(es[n - 1]) == "flavor"@ {
        entry_flavor(es[n - 1])
    } else {
        explicit_flavor(es, (n - 1) as nat)
    }
}

/// Some entry among the first `n` is named `worker_threads`.
pub open spec fn has_worker_entry(es: Seq<AttrEntry>, n: nat) -> bool {
    exists|i: int| 0 <= i < n && entry_key(#[trigger] es[i]) == "worker_threads"@
}

/// The decision table: which combinations of resolved flavor, presence of a
/// worker count and multi-thread capability succeed.
pub open spec fn table_allows(flavor: RuntimeFlavor, has_workers: bool, rt_multi_thread: bool) -> bool {
    match flavor {
        RuntimeFlavor::CurrentThread => !has_workers,
        RuntimeFlavor::Threaded => rt_multi_thread,
    }
}

proof fn lemma_no_explicit_flavor(es: Seq<AttrEntry>, n: nat)
    requires
        n <= es.len(),
        no_flavor_entry(es, n),
    ensures
        explicit_flavor(es, n) is None,
    decreases n,
{
    if n > 0 {
        assert(entry_key(es[n - 1]) != "flavor"@);
        lemma_no_explicit_flavor(es, (n - 1) as nat);
    }
}

proof fn lemma_valid_scan(es: Seq<AttrEntry>, is_test: bool, rt_multi_thread: bool, n: nat)
    requires
        n <= es.len(),
        forall|i: int| 0 <= i < es.len() ==> is_valid_entry(#[trigger] es[i]),
        keys_distinct(es),
    ensures
        scan_spec(initial_config(is_test, rt_multi_thread), es, n) is Ok,
        ({
            let c = scan_spec(initial_config(is_test, rt_multi_thread), es, n)->Ok_0;
            &&& c.flavor == explicit_flavor(es, n)
            &&& (c.worker_threads is Some) == has_worker_entry(es, n)
            &&& c.rt_multi_thread_available == rt_multi_thread
            &&& c.default_flavor == default_flavor_for(is_test)
        }),
    decreases n,
{
    reveal_strlit("flavor");
    reveal_strlit("worker_threads");
    if n > 0 {
        let m = (n - 1) as nat;
        lemma_valid_scan(es, is_test, rt_multi_thread, m);
        let e = es[m as int];
        assert(is_valid_entry(e));
        assert forall|i: int| 0 <= i < m implies entry_key(#[trigger] es[i]) != entry_key(e) by {
            assert(entry_key(es[i]) != entry_key(es[m as int]));
        }
        if entry_key(e) == "flavor"@ {
            lemma_no_explicit_flavor(es, m);
            if has_worker_entry(es, n) {
                let i = choose|i: int| 0 <= i < n && entry_key(#[trigger] es[i]) == "worker_threads"@;
                assert(i != m);
                assert(has_worker_entry(es, m));
            }
            if has_worker_entry(es, m) {
                let i = choose|i: int| 0 <= i < m && entry_key(#[trigger] es[i]) == "worker_threads"@;
                assert(has_worker_entry(es, n));
            }
        } else {
            assert(entry_key(e) == "worker_threads"@);
            assert(!has_worker_entry(es, m));
            assert(has_worker_entry(es, n));
        }
    }
}

/// For lists of accepted entries with at most one `flavor` and at most one
/// `worker_threads`, resolution succeeds exactly where the decision table
/// allows the resolved flavor, the presence of a worker count and the
/// capability.
pub proof fn lemma_valid_lists_follow_table(es: Seq<AttrEntry>, is_test: bool, rt_multi_thread: bool)
    requires
        forall|i: int| 0 <= i < es.len() ==> is_valid_entry(#[trigger] es[i]),
        keys_distinct(es),
    ensures
        (resolve_spec(es, is_test, rt_multi_thread) is Ok) == table_allows(
            match explicit_flavor(es, es.len()) {
                Some(f) => f,
                None => default_flavor_for(is_test),
            },
            has_worker_entry(es, es.len()),
            rt_multi_thread,
        ),
{
    lemma_valid_scan(es, is_test, rt_multi_thread, es.len());
}

} // verus!
