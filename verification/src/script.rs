use vstd::prelude::*;

verus! {

/// The kind of value a global entry-point name resolves to inside the
/// interpreter's environment at a given instant.
///
/// The interpreter's values form a dynamically-typed sum; the host only ever
/// needs to know whether a binding is specifically a callable function, and,
/// when it is not, a description it can report.
#[derive(Debug, PartialEq, Eq)]
pub enum EntryKind {
    /// The name is bound to a callable function value.
    Callable,
    /// The name is bound, but to a non-callable value; the string describes
    /// the offending value.
    NotCallable(String),
    /// The name is not bound at all; the string is the interpreter's lookup
    /// diagnostic.
    Unbound(String),
}

impl EntryKind {
    /// Whether this binding satisfies the entry-point contract: only a value
    /// that is specifically callable does.
    pub fn is_callable(&self) -> (r: bool)
        ensures
            r == (self is Callable),
    {
        match self {
            EntryKind::Callable => true,
            EntryKind::NotCallable(_) => false,
            EntryKind::Unbound(_) => false,
        }
    }
}

/// Everything the loader needs to know about one attempt to evaluate a script
/// inside an interpreter scope: how far evaluation got, and, if it completed,
/// what the two required entry-point names resolve to afterwards.
///
/// The embedding layer produces one of these per load attempt; every decision
/// made from it is verified here.
#[derive(Debug, PartialEq, Eq)]
pub enum LoadProbe {
    /// The interpreter scope itself could not be entered or executed.
    ScopeFailed,
    /// The source is syntactically malformed; the string is the parser's
    /// diagnostic.
    ParseFailed(String),
    /// A top-level form raised during evaluation; the string is the
    /// interpreter's diagnostic.
    EvalFailed(String),
    /// All top-level forms evaluated; the two required entry points were then
    /// looked up in the global environment.
    Evaluated { update: EntryKind, render: EntryKind },
}

/// Why loading a script failed. Load-time errors abort startup; the caller
/// decides whether to retry with a different script or exit.
#[derive(Debug, PartialEq, Eq)]
pub enum LoadError {
    /// The script source is syntactically malformed.
    ParseError(String),
    /// A top-level form raised during initial evaluation; carries the
    /// interpreter's diagnostic.
    EvalError(String),
    /// A required entry point is absent or not callable after evaluation.
    /// `name` is the entry point's qualified name; `found` describes the
    /// non-callable value that was bound to it, or is `None` when the name
    /// was not bound at all.
    MissingEntryPoint { name: String, found: Option<String> },
    /// The interpreter scope itself could not be entered or executed.
    RuntimeFailure,
}

/// The qualified name of the per-frame update entry point that every script
/// must define.
pub fn update_entry_name() -> (r: &'static str)
    ensures
        r@ == "engine:update"@,
{
    "engine:update"
}

/// The qualified name of the per-frame render entry point that every script
/// must define.
pub fn render_entry_name() -> (r: &'static str)
    ensures
        r@ == "engine:render"@,
{
    "engine:render"
}

/// A load attempt succeeds exactly when evaluation completed and both
/// required entry points resolved to callable values.
pub open spec fn load_ok(p: LoadProbe) -> bool {
    &&& p matches LoadProbe::Evaluated { update, render }
    &&& update is Callable
    &&& render is Callable
}

} // verus!
