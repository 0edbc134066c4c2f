//! Diagnostics: a message and the place in the source it points at.

use vstd::prelude::*;

verus! {

/// Where a diagnostic is placed.
#[derive(Clone, Copy, Debug, PartialEq, Eq, Structural)]
pub enum Anchor {
    /// The attribute invocation as a whole.
    CallSite,
    /// The attribute entry at this position.
    Entry(usize),
    /// The value of the name/value entry at this position.
    EntryValue(usize),
    /// The `fn` keyword of the entry point.
    FnToken,
    /// The name of the entry point.
    FnName,
}

/// A terminal failure, with a single-sentence message.
#[derive(Debug)]
pub struct Diagnostic {
    pub anchor: Anchor,
    pub message: String,
}

impl View for Diagnostic {
    type V = (Anchor, Seq<char>);

    open spec fn view(&self) -> (Anchor, Seq<char>) {
        (self.anchor, self.message@)
    }
}

/// A result with its diagnostic seen through its view.
pub open spec fn diag_view<T>(r: Result<T, Diagnostic>) -> Result<T, (Anchor, Seq<char>)> {
    match r {
        Ok(v) => Ok(v),
        Err(d) => Err(d@),
    }
}

impl Diagnostic {
    pub fn new(anchor: Anchor, message: String) -> (r: Diagnostic)
        ensures
            r@ == (anchor, message@),
    {
        Diagnostic { anchor, message }
    }

    /// The message text.
    pub fn message(&self) -> (r: &str)
        ensures
            r@ == self.message@,
    {
        self.message.as_str()
    }
}

} // verus!
