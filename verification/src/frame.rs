use vstd::prelude::*;

use crate::script::EntryKind;

verus! {

/// Everything the frame dispatcher needs to know about one attempt to invoke
/// an entry point inside an interpreter scope: whether the scope ran at all,
/// what the entry-point name resolved to, and, if a call was made, how it
/// ended.
///
/// The embedding layer produces one of these per frame tick; every decision
/// made from it is verified here.
#[derive(Debug, PartialEq, Eq)]
pub enum FrameProbe {
    /// The interpreter scope itself could not be entered or executed.
    ScopeFailed,
    /// The scope ran: the entry-point name was looked up and, exactly when it
    /// resolved to a callable, that callable was invoked with no arguments.
    /// `call_result` is `Some` with the call's outcome in that case — `Err`
    /// carries the interpreter's error text — and `None` when no call was
    /// made because the binding was missing or not callable.
    Ran { kind: EntryKind, call_result: Option<Result<(), String>> },
}

/// Why one frame's entry-point invocation was skipped. A skipped invocation
/// is a degraded condition, not a structural one: it is reported and the
/// frame loop keeps running.
#[derive(Debug, PartialEq, Eq)]
pub enum FrameInvocationFailure {
    /// The entry-point name is bound to a non-callable value; the string
    /// describes the offending value.
    NotCallable(String),
    /// The entry-point name is no longer bound — the environment is mutable
    /// and scripts may rebind or unbind names at runtime; the string is the
    /// interpreter's lookup diagnostic.
    Unbound(String),
    /// The callable was invoked and raised; the string is the interpreter's
    /// error text.
    CallFailed(String),
}

/// The outcome of one frame's entry-point dispatch, as reported to the
/// embedding layer.
#[derive(Debug, PartialEq, Eq)]
pub enum FrameOutcome {
    /// The entry point was resolved, was callable, and returned normally; its
    /// script-level return value is discarded.
    Invoked,
    /// This frame's invocation was skipped or failed; the frame loop
    /// continues, with that frame's update or render phase simply missing.
    Skipped(FrameInvocationFailure),
}

/// The interpreter scope itself could not be entered or executed during a
/// frame tick. Unlike a skipped invocation this is not recoverable: once the
/// interpreter's internal state is suspect, no further frame can be trusted,
/// and the embedding layer must halt the process.
#[derive(Debug, PartialEq, Eq)]
pub struct InterpreterUnavailable;

/// A frame probe is well-formed when a call was made exactly if the binding
/// resolved to a callable: the dispatcher never invokes a non-callable and
/// never skips a callable.
pub open spec fn frame_probe_consistent(p: FrameProbe) -> bool {
    p matches FrameProbe::Ran { kind, call_result } ==> ((kind is Callable) <==> (
    call_result is Some))
}

/// The dispatch of one frame succeeds exactly when the entry-point binding
/// was callable and the call returned normally.
pub open spec fn frame_success(p: FrameProbe) -> bool {
    &&& p matches FrameProbe::Ran { kind, call_result }
    &&& kind is Callable
    &&& call_result matches Some(res)
    &&& res is Ok
}

/// Decide one frame's dispatch verdict from what happened inside the
/// interpreter scope.
///
/// A scope that could not execute is fatal and is the only fatal case. In a
/// scope that ran, the invocation succeeded exactly when the binding was
/// callable and the call returned normally; otherwise the frame is skipped
/// with a report that carries the interpreter's own diagnostic verbatim.
pub fn frame_verdict(probe: FrameProbe) -> (r: Result<FrameOutcome, InterpreterUnavailable>)
    requires
        frame_probe_consistent(probe),
    ensures
        r is Err <==> probe is ScopeFailed,
        (r == Ok::<FrameOutcome, InterpreterUnavailable>(FrameOutcome::Invoked)) <==>
            frame_success(probe),
        probe matches FrameProbe::Ran { call_result: Some(Err(msg)), .. } ==> r == Ok::<
            FrameOutcome,
            InterpreterUnavailable,
        >(FrameOutcome::Skipped(FrameInvocationFailure::CallFailed(msg))),
        probe matches FrameProbe::Ran { kind: EntryKind::NotCallable(d), .. } ==> r == Ok::<
            FrameOutcome,
            InterpreterUnavailable,
        >(FrameOutcome::Skipped(FrameInvocationFailure::NotCallable(d))),
        probe matches FrameProbe::Ran { kind: EntryKind::Unbound(m), .. } ==> r == Ok::<
            FrameOutcome,
            InterpreterUnavailable,
        >(FrameOutcome::Skipped(FrameInvocationFailure::Unbound(m))),
{
    match probe {
        FrameProbe::ScopeFailed => Err(InterpreterUnavailable),
        FrameProbe::Ran { kind, call_result } => match (kind, call_result) {
            (EntryKind::Callable, Some(Ok(()))) => Ok(FrameOutcome::Invoked),
            (EntryKind::Callable, Some(Err(msg))) => Ok(FrameOutcome::Skipped(
                FrameInvocationFailure::CallFailed(msg),
            )),
            (EntryKind::Callable, None) => {
                // a callable binding always comes with a call result, by
                // frame_probe_consistent
                proof {
                    assert(false);
                }
                Ok(FrameOutcome::Invoked)
            },
            (EntryKind::NotCallable(d), _) => Ok(FrameOutcome::Skipped(
                FrameInvocationFailure::NotCallable(d),
            )),
            (EntryKind::Unbound(m), _) => Ok(FrameOutcome::Skipped(
                FrameInvocationFailure::Unbound(m),
            )),
        },
    }
}

} // verus!
