//! The two scheduling topologies of the task runtime and the names by which an
//! attribute selects them.

use vstd::prelude::*;
use crate::text::{concat3, str_eq};

verus! {

/// Single dedicated thread, or a pool of worker threads.
#[derive(Clone, Copy, Debug, PartialEq, Eq, Structural)]
pub enum RuntimeFlavor {
    CurrentThread,
    Threaded,
}

pub open spec fn single_thread_message() -> Seq<char> {
    "The single threaded runtime flavor is called `current_thread`."@
}

pub open spec fn basic_scheduler_message() -> Seq<char> {
    "The `basic_scheduler` runtime flavor has been renamed to `current_thread`."@
}

pub open spec fn threaded_scheduler_message() -> Seq<char> {
    "The `threaded_scheduler` runtime flavor has been renamed to `multi_thread`."@
}

pub open spec fn unknown_flavor_message(s: Seq<char>) -> Seq<char> {
    "No such runtime flavor `"@ + s
        + "`. The runtime flavors are `current_thread` and `multi_thread`."@
}

/// The legacy names of a flavor, each answered with a corrective message.
pub open spec fn is_legacy_flavor_name(s: Seq<char>) -> bool {
    s == "single_thread"@ || s == "basic_scheduler"@ || s == "threaded_scheduler"@
}

/// The flavor a name selects, or the message that rejects it.
pub open spec fn flavor_from_name(s: Seq<char>) -> Result<RuntimeFlavor, Seq<char>> {
    if s == "current_thread"@ {
        Ok(RuntimeFlavor::CurrentThread)
    } else if s == "multi_thread"@ {
        Ok(RuntimeFlavor::Threaded)
    } else if s == "single_thread"@ {
        Err(single_thread_message())
    } else if s == "basic_scheduler"@ {
        Err(basic_scheduler_message())
    } else if s == "threaded_scheduler"@ {
        Err(threaded_scheduler_message())
    } else {
        Err(unknown_flavor_message(s))
    }
}

impl RuntimeFlavor {
    /// Looks a flavor up by its name.
    pub fn from_str(s: &str) -> (r: Result<RuntimeFlavor, String>)
        ensures
            match flavor_from_name(s@) {
                Ok(f) => r == Ok::<RuntimeFlavor, String>(f),
                Err(m) => r is Err && r->Err_0@ == m,
            },
    {
        if str_eq(s, "current_thread") {
            Ok(RuntimeFlavor::CurrentThread)
        } else if str_eq(s, "multi_thread") {
            Ok(RuntimeFlavor::Threaded)
        } else if str_eq(s, "single_thread") {
            Err(String::from_str("The single threaded runtime flavor is called `current_thread`."))
        } else if str_eq(s, "basic_scheduler") {
            Err(
                String::from_str(
                    "The `basic_scheduler` runtime flavor has been renamed to `current_thread`.",
                ),
            )
        } else if str_eq(s, "threaded_scheduler") {
            Err(
                String::from_str(
                    "The `threaded_scheduler` runtime flavor has been renamed to `multi_thread`.",
                ),
            )
        } else {
            Err(
                concat3(
                    "No such runtime flavor `",
                    s,
                    "`. The runtime flavors are `current_thread` and `multi_thread`.",
                ),
            )
        }
    }
}

} // verus!
