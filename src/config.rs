//! The configuration resolver: attribute entries are applied one by one to a
//! draft configuration, which the build step turns into a final one.

use vstd::prelude::*;
use crate::diagnostic::{diag_view, Anchor, Diagnostic};
use crate::flavor::{flavor_from_name, RuntimeFlavor};
use crate::text::{concat3, decimal_value, lower_of, lowercase, parse_decimal, str_eq, CountError};

verus! {

/// A literal written as an attribute value.
#[derive(Clone, Debug)]
pub enum Literal {
    /// A string literal, by its contents, or a verbatim token, by its text.
    Text(String),
    /// An integer literal, by its value written in base 10.
    Int(String),
    /// Any other kind of literal.
    Other,
}

/// The right-hand side of a name/value entry.
#[derive(Clone, Debug)]
pub enum AttrValue {
    Lit(Literal),
    /// An expression that is not a literal.
    Expr,
}

/// One entry of the attribute list. A name is `None` where the entry's path
/// is not a single identifier.
#[derive(Clone, Debug)]
pub enum AttrEntry {
    /// `name = value`
    NameValue { name: Option<String>, value: AttrValue },
    /// A bare `name`.
    Flag { name: Option<String> },
    /// Any other shape, such as `name(...)`.
    Structured,
}

/// A validated configuration.
#[derive(Clone, Copy, Debug, PartialEq, Eq, Structural)]
pub struct FinalConfig {
    pub flavor: RuntimeFlavor,
    pub worker_threads: Option<usize>,
}

/// The draft configuration filled while the entries are scanned. A set
/// `worker_threads` keeps the position of the entry that set it.
#[derive(Clone, Copy, Debug)]
pub struct Configuration {
    pub rt_multi_thread_available: bool,
    pub default_flavor: RuntimeFlavor,
    pub flavor: Option<RuntimeFlavor>,
    pub worker_threads: Option<(usize, usize)>,
}

pub open spec fn default_flavor_for(is_test: bool) -> RuntimeFlavor {
    if is_test {
        RuntimeFlavor::CurrentThread
    } else {
        RuntimeFlavor::Threaded
    }
}

pub open spec fn initial_config(is_test: bool, rt_multi_thread: bool) -> Configuration {
    Configuration {
        rt_multi_thread_available: rt_multi_thread,
        default_flavor: default_flavor_for(is_test),
        flavor: None,
        worker_threads: None,
    }
}

pub open spec fn count_error_message(e: CountError) -> Seq<char> {
    match e {
        CountError::Empty => "cannot parse integer from empty string"@,
        CountError::InvalidDigit => "invalid digit found in string"@,
        CountError::TooLarge => "number too large to fit in target type"@,
    }
}

pub open spec fn not_a_string_message(field: Seq<char>) -> Seq<char> {
    "Failed to parse "@ + field + " as string."@
}

pub open spec fn not_an_integer_message(field: Seq<char>) -> Seq<char> {
    "Failed to parse "@ + field + " as integer."@
}

pub open spec fn bad_integer_message(field: Seq<char>, e: CountError) -> Seq<char> {
    "Failed to parse "@ + field + " as integer: "@ + count_error_message(e)
}

pub open spec fn flavor_twice_message() -> Seq<char> {
    "`flavor` set multiple times."@
}

pub open spec fn worker_threads_twice_message() -> Seq<char> {
    "`worker_threads` set multiple times."@
}

pub open spec fn zero_workers_message() -> Seq<char> {
    "`worker_threads` may not be 0."@
}

pub open spec fn workers_need_multi_thread_message() -> Seq<char> {
    "The `worker_threads` option requires the `multi_thread` runtime flavor."@
}

pub open spec fn default_flavor_unavailable_message() -> Seq<char> {
    "The default runtime flavor is `multi_thread`, but the `rt-multi-thread` feature is disabled."@
}

pub open spec fn explicit_flavor_unavailable_message() -> Seq<char> {
    "The runtime flavor `multi_thread` requires the `rt-multi-thread` feature."@
}

pub open spec fn no_ident_message() -> Seq<char> {
    "Must have specified ident"@
}

pub open spec fn not_literal_message() -> Seq<char> {
    "Expected a literal value"@
}

pub open spec fn core_threads_message() -> Seq<char> {
    "Attribute `core_threads` is renamed to `worker_threads`"@
}

pub open spec fn unknown_attribute_message(key: Seq<char>) -> Seq<char> {
    "Unknown attribute "@ + key + " is specified; expected one of: `flavor`, `worker_threads`"@
}

pub open spec fn structured_message() -> Seq<char> {
    "Unknown attribute inside the macro"@
}

pub open spec fn use_multi_thread_form_message() -> Seq<char> {
    "Set the runtime flavor with #[pyo3_async_runtimes::tokio::main(flavor = \"multi_thread\")]."@
}

pub open spec fn use_current_thread_form_message() -> Seq<char> {
    "Set the runtime flavor with #[pyo3_async_runtimes::tokio::main(flavor = \"current_thread\")]."@
}

pub open spec fn requires_argument_message(key: Seq<char>) -> Seq<char> {
    "The `"@ + key + "` attribute requires an argument."@
}

/// Bare names that stand for a flavor, and ask for the `flavor = "..."` form.
pub open spec fn is_multi_thread_alias(key: Seq<char>) -> bool {
    key == "threaded_scheduler"@ || key == "multi_thread"@
}

pub open spec fn is_current_thread_alias(key: Seq<char>) -> bool {
    key == "basic_scheduler"@ || key == "current_thread"@ || key == "single_threaded"@
}

/// The message for a bare entry whose lower-cased name is `key`.
pub open spec fn flag_message(key: Seq<char>) -> Seq<char> {
    if is_multi_thread_alias(key) {
        use_multi_thread_form_message()
    } else if is_current_thread_alias(key) {
        use_current_thread_form_message()
    } else if key == "flavor"@ || key == "worker_threads"@ {
        requires_argument_message(key)
    } else {
        unknown_attribute_message(key)
    }
}

pub open spec fn parse_string_spec(lit: Literal, index: usize, field: Seq<char>) -> Result<
    Seq<char>,
    (Anchor, Seq<char>),
> {
    match lit {
        Literal::Text(s) => Ok(s@),
        _ => Err((Anchor::Entry(index), not_a_string_message(field))),
    }
}

pub open spec fn parse_int_spec(lit: Literal, index: usize, field: Seq<char>) -> Result<
    usize,
    (Anchor, Seq<char>),
> {
    match lit {
        Literal::Int(d) => match decimal_value(d@) {
            Ok(v) => Ok(v as usize),
            Err(e) => Err((Anchor::Entry(index), bad_integer_message(field, e))),
        },
        _ => Err((Anchor::Entry(index), not_an_integer_message(field))),
    }
}

pub open spec fn set_flavor_spec(c: Configuration, lit: Literal, index: usize) -> Result<
    Configuration,
    (Anchor, Seq<char>),
> {
    if c.flavor is Some {
        Err((Anchor::Entry(index), flavor_twice_message()))
    } else {
        match parse_string_spec(lit, index, "flavor"@) {
            Err(d) => Err(d),
            Ok(s) => match flavor_from_name(s) {
                Ok(f) => Ok(Configuration { flavor: Some(f), ..c }),
                Err(m) => Err((Anchor::Entry(index), m)),
            },
        }
    }
}

pub open spec fn set_worker_threads_spec(c: Configuration, lit: Literal, index: usize) -> Result<
    Configuration,
    (Anchor, Seq<char>),
> {
    if c.worker_threads is Some {
        Err((Anchor::Entry(index), worker_threads_twice_message()))
    } else {
        match parse_int_spec(lit, index, "worker_threads"@) {
            Err(d) => Err(d),
            Ok(n) => if n == 0 {
                Err((Anchor::Entry(index), zero_workers_message()))
            } else {
                Ok(Configuration { worker_threads: Some((n, index)), ..c })
            },
        }
    }
}

/// The flavor the build step resolves: the explicit one, else the default.
pub open spec fn resolved_flavor(c: Configuration) -> RuntimeFlavor {
    match c.flavor {
        Some(f) => f,
        None => c.default_flavor,
    }
}

/// The decision table over the resolved flavor, the presence of a worker
/// count and the availability of the multi-thread runtime.
pub open spec fn build_spec(c: Configuration) -> Result<FinalConfig, (Anchor, Seq<char>)> {
    match resolved_flavor(c) {
        RuntimeFlavor::CurrentThread => match c.worker_threads {
            Some((_, at)) => Err((Anchor::Entry(at), workers_need_multi_thread_message())),
            None => Ok(FinalConfig { flavor: RuntimeFlavor::CurrentThread, worker_threads: None }),
        },
        RuntimeFlavor::Threaded => if c.rt_multi_thread_available {
            Ok(
                FinalConfig {
                    flavor: RuntimeFlavor::Threaded,
                    worker_threads: match c.worker_threads {
                        Some((n, _)) => Some(n),
                        None => None,
                    },
                },
            )
        } else if c.flavor is None {
            Err((Anchor::CallSite, default_flavor_unavailable_message()))
        } else {
            Err((Anchor::CallSite, explicit_flavor_unavailable_message()))
        },
    }
}

/// What applying the entry at `index` does, `key` being its lower-cased name.
pub open spec fn apply_spec(c: Configuration, index: usize, e: AttrEntry, key: Seq<char>) -> Result<
    Configuration,
    (Anchor, Seq<char>),
> {
    match e {
        AttrEntry::NameValue { name, value } => if name is None {
            Err((Anchor::Entry(index), no_ident_message()))
        } else if key == "worker_threads"@ {
            match value {
                AttrValue::Lit(l) => set_worker_threads_spec(c, l, index),
                AttrValue::Expr => Err((Anchor::EntryValue(index), not_literal_message())),
            }
        } else if key == "flavor"@ {
            match value {
                AttrValue::Lit(l) => set_flavor_spec(c, l, index),
                AttrValue::Expr => Err((Anchor::EntryValue(index), not_literal_message())),
            }
        } else if key == "core_threads"@ {
            Err((Anchor::Entry(index), core_threads_message()))
        } else {
            Err((Anchor::Entry(index), unknown_attribute_message(key)))
        },
        AttrEntry::Flag { name } => if name is None {
            Err((Anchor::Entry(index), no_ident_message()))
        } else {
            Err((Anchor::Entry(index), flag_message(key)))
        },
        AttrEntry::Structured => Err((Anchor::Entry(index), structured_message())),
    }
}

/// The lower-cased name of an entry; empty where it has none.
pub open spec fn entry_key(e: AttrEntry) -> Seq<char> {
    match e {
        AttrEntry::NameValue { name: Some(n), .. } => lower_of(n@),
        AttrEntry::Flag { name: Some(n) } => lower_of(n@),
        _ => Seq::empty(),
    }
}

/// Applies the first `n` entries in order; the first error ends the scan.
pub open spec fn scan_spec(c: Configuration, es: Seq<AttrEntry>, n: nat) -> Result<
    Configuration,
    (Anchor, Seq<char>),
>
    decreases n,
{
    if n == 0 {
        Ok(c)
    } else {
        match scan_spec(c, es, (n - 1) as nat) {
            Err(d) => Err(d),
            Ok(c1) => apply_spec(c1, (n - 1) as usize, es[n - 1], entry_key(es[n - 1])),
        }
    }
}

/// Resolution of a whole attribute list.
pub open spec fn resolve_spec(es: Seq<AttrEntry>, is_test: bool, rt_multi_thread: bool) -> Result<
    FinalConfig,
    (Anchor, Seq<char>),
> {
    match scan_spec(initial_config(is_test, rt_multi_thread), es, es.len()) {
        Ok(c) => build_spec(c),
        Err(d) => Err(d),
    }
}

/// A step on the draft: on success the draft is `expected`'s, on failure the
/// diagnostic is `expected`'s and the draft is left as it was.
pub open spec fn step_outcome(
    r: Result<(), Diagnostic>,
    before: Configuration,
    after: Configuration,
    expected: Result<Configuration, (Anchor, Seq<char>)>,
) -> bool {
    match expected {
        Ok(c) => r is Ok && after == c,
        Err(d) => diag_view(r) == Err::<(), (Anchor, Seq<char>)>(d) && after == before,
    }
}

/// Once the scan has failed, scanning further entries keeps that failure.
pub proof fn lemma_scan_error_persists(c: Configuration, es: Seq<AttrEntry>, k: nat, n: nat)
    requires
        k <= n,
        scan_spec(c, es, k) is Err,
    ensures
        scan_spec(c, es, n) == scan_spec(c, es, k),
    decreases n - k,
{
    if k < n {
        lemma_scan_error_persists(c, es, k, (n - 1) as nat);
    }
}

fn count_error_text(e: CountError) -> (r: &'static str)
    ensures
        r@ == count_error_message(e),
{
    match e {
        CountError::Empty => "cannot parse integer from empty string",
        CountError::InvalidDigit => "invalid digit found in string",
        CountError::TooLarge => "number too large to fit in target type",
    }
}

/// Reads an integer literal as a count.
pub fn parse_int(lit: &Literal, index: usize, field: &str) -> (r: Result<usize, Diagnostic>)
    ensures
        diag_view(r) == parse_int_spec(*lit, index, field@),
{
    match lit {
        Literal::Int(digits) => match parse_decimal(digits.as_str()) {
            Ok(v) => Ok(v),
            Err(e) => {
                let mut m = concat3("Failed to parse ", field, " as integer: ");
                m.append(count_error_text(e));
                Err(Diagnostic::new(Anchor::Entry(index), m))
            },
        },
        _ => Err(
            Diagnostic::new(Anchor::Entry(index), concat3("Failed to parse ", field, " as integer.")),
        ),
    }
}

/// Reads a string literal, or a verbatim token, as its text.
pub fn parse_string(lit: &Literal, index: usize, field: &str) -> (r: Result<String, Diagnostic>)
    ensures
        match parse_string_spec(*lit, index, field@) {
            Ok(s) => r is Ok && r->Ok_0@ == s,
            Err(d) => r is Err && (r->Err_0)@ == d,
        },
{
    match lit {
        Literal::Text(s) => Ok(s.clone()),
        _ => Err(
            Diagnostic::new(Anchor::Entry(index), concat3("Failed to parse ", field, " as string.")),
        ),
    }
}

fn message(anchor: Anchor, text: &str) -> (r: Diagnostic)
    ensures
        r@ == (anchor, text@),
{
    Diagnostic::new(anchor, String::from_str(text))
}

impl Configuration {
    /// A fresh draft; the default flavor follows from the mode.
    pub fn new(is_test: bool, rt_multi_thread: bool) -> (r: Configuration)
        ensures
            r == initial_config(is_test, rt_multi_thread),
    {
        Configuration {
            rt_multi_thread_available: rt_multi_thread,
            default_flavor: if is_test {
                RuntimeFlavor::CurrentThread
            } else {
                RuntimeFlavor::Threaded
            },
            flavor: None,
            worker_threads: None,
        }
    }

    /// Sets the flavor from the literal of the entry at `index`.
    pub fn set_flavor(&mut self, lit: &Literal, index: usize) -> (r: Result<(), Diagnostic>)
        ensures
            step_outcome(r, *old(self), *final(self), set_flavor_spec(*old(self), *lit, index)),
    {
        if self.flavor.is_some() {
            return Err(message(Anchor::Entry(index), "`flavor` set multiple times."));
        }
        let text = match parse_string(lit, index, "flavor") {
            Ok(t) => t,
            Err(d) => return Err(d),
        };
        match RuntimeFlavor::from_str(text.as_str()) {
            Ok(f) => {
                self.flavor = Some(f);
                Ok(())
            },
            Err(m) => Err(Diagnostic::new(Anchor::Entry(index), m)),
        }
    }

    /// Sets the worker count from the literal of the entry at `index`.
    pub fn set_worker_threads(&mut self, lit: &Literal, index: usize) -> (r: Result<(), Diagnostic>)
        ensures
            step_outcome(r, *old(self), *final(self), set_worker_threads_spec(*old(self), *lit, index)),
    {
        if self.worker_threads.is_some() {
            return Err(message(Anchor::Entry(index), "`worker_threads` set multiple times."));
        }
        let n = match parse_int(lit, index, "worker_threads") {
            Ok(n) => n,
            Err(d) => return Err(d),
        };
        if n == 0 {
            return Err(message(Anchor::Entry(index), "`worker_threads` may not be 0."));
        }
        self.worker_threads = Some((n, index));
        Ok(())
    }

    /// Reconciles the draft with the default flavor and the cross-field rules.
    pub fn build(&self) -> (r: Result<FinalConfig, Diagnostic>)
        ensures
            diag_view(r) == build_spec(*self),
    {
        let flavor = match self.flavor {
            Some(f) => f,
            None => self.default_flavor,
        };
        match flavor {
            RuntimeFlavor::CurrentThread => match self.worker_threads {
                Some((_, at)) => Err(
                    message(
                        Anchor::Entry(at),
                        "The `worker_threads` option requires the `multi_thread` runtime flavor.",
                    ),
                ),
                None => Ok(FinalConfig { flavor: RuntimeFlavor::CurrentThread, worker_threads: None }),
            },
            RuntimeFlavor::Threaded => if self.rt_multi_thread_available {
                let worker_threads = match self.worker_threads {
                    Some((n, _)) => Some(n),
                    None => None,
                };
                Ok(FinalConfig { flavor: RuntimeFlavor::Threaded, worker_threads })
            } else if self.flavor.is_none() {
                Err(
                    message(
                        Anchor::CallSite,
                        "The default runtime flavor is `multi_thread`, but the `rt-multi-thread` feature is disabled.",
                    ),
                )
            } else {
                Err(
                    message(
                        Anchor::CallSite,
                        "The runtime flavor `multi_thread` requires the `rt-multi-thread` feature.",
                    ),
                )
            },
        }
    }

    /// Applies the entry at `index`, whose name lower-cased is `key`.
    pub fn apply_keyed(&mut self, index: usize, entry: &AttrEntry, key: &str) -> (r: Result<
        (),
        Diagnostic,
    >)
        ensures
            step_outcome(r, *old(self), *final(self), apply_spec(*old(self), index, *entry, key@)),
    {
        match entry {
            AttrEntry::NameValue { name, value } => {
                if name.is_none() {
                    return Err(message(Anchor::Entry(index), "Must have specified ident"));
                }
                if str_eq(key, "worker_threads") {
                    match value {
                        AttrValue::Lit(l) => self.set_worker_threads(l, index),
                        AttrValue::Expr => Err(
                            message(Anchor::EntryValue(index), "Expected a literal value"),
                        ),
                    }
                } else if str_eq(key, "flavor") {
                    match value {
                        AttrValue::Lit(l) => self.set_flavor(l, index),
                        AttrValue::Expr => Err(
                            message(Anchor::EntryValue(index), "Expected a literal value"),
                        ),
                    }
                } else if str_eq(key, "core_threads") {
                    Err(
                        message(
                            Anchor::Entry(index),
                            "Attribute `core_threads` is renamed to `worker_threads`",
                        ),
                    )
                } else {
                    Err(Diagnostic::new(Anchor::Entry(index), unknown_attribute_text(key)))
                }
            },
            AttrEntry::Flag { name } => {
                if name.is_none() {
                    return Err(message(Anchor::Entry(index), "Must have specified ident"));
                }
                Err(Diagnostic::new(Anchor::Entry(index), flag_text(key)))
            },
            AttrEntry::Structured => Err(
                message(Anchor::Entry(index), "Unknown attribute inside the macro"),
            ),
        }
    }

    /// Applies the entry at `index`, matching its name case-insensitively.
    pub fn apply_entry(&mut self, index: usize, entry: &AttrEntry) -> (r: Result<(), Diagnostic>)
        ensures
            step_outcome(
                r,
                *old(self),
                *final(self),
                apply_spec(*old(self), index, *entry, entry_key(*entry)),
            ),
    {
        let key = match entry {
            AttrEntry::NameValue { name: Some(n), .. } => lowercase(n.as_str()),
            AttrEntry::Flag { name: Some(n) } => lowercase(n.as_str()),
            _ => String::new(),
        };
        self.apply_keyed(index, entry, key.as_str())
    }
}

fn unknown_attribute_text(key: &str) -> (r: String)
    ensures
        r@ == unknown_attribute_message(key@),
{
    concat3(
        "Unknown attribute ",
        key,
        " is specified; expected one of: `flavor`, `worker_threads`",
    )
}

fn flag_text(key: &str) -> (r: String)
    ensures
        r@ == flag_message(key@),
{
    if str_eq(key, "threaded_scheduler") || str_eq(key, "multi_thread") {
        String::from_str(
            "Set the runtime flavor with #[pyo3_async_runtimes::tokio::main(flavor = \"multi_thread\")].",
        )
    } else if str_eq(key, "basic_scheduler") || str_eq(key, "current_thread") || str_eq(
        key,
        "single_threaded",
    ) {
        String::from_str(
            "Set the runtime flavor with #[pyo3_async_runtimes::tokio::main(flavor = \"current_thread\")].",
        )
    } else if str_eq(key, "flavor") || str_eq(key, "worker_threads") {
        concat3("The `", key, "` attribute requires an argument.")
    } else {
        unknown_attribute_text(key)
    }
}

/// Scans the entries in order and builds the final configuration; the first
/// failing entry ends resolution with its diagnostic.
pub fn resolve(entries: &Vec<AttrEntry>, is_test: bool, rt_multi_thread: bool) -> (r: Result<
    FinalConfig,
    Diagnostic,
>)
    ensures
        diag_view(r) == resolve_spec(entries@, is_test, rt_multi_thread),
{
    let mut config = Configuration::new(is_test, rt_multi_thread);
    let ghost c0 = config;
    let mut i: usize = 0;
    while i < entries.len()
        invariant
            0 <= i <= entries.len(),
            c0 == initial_config(is_test, rt_multi_thread),
            scan_spec(c0, entries@, i as nat) == Ok::<Configuration, (Anchor, Seq<char>)>(config),
        decreases entries.len() - i,
    {
        match config.apply_entry(i, &entries[i]) {
            Ok(()) => {},
            Err(d) => {
                proof {
                    lemma_scan_error_persists(c0, entries@, (i + 1) as nat, entries@.len());
                }
                return Err(d);
            },
        }
        i += 1;
    }
    config.build()
}

} // verus!
