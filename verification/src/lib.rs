//! A thin host core for a frame-driven application scripted by an embedded,
//! dynamically-typed interpreter.
//!
//! A game author supplies one script defining two entry points, a per-frame
//! update routine named `engine:update` and a per-frame render routine named
//! `engine:render`. This crate holds the script-runtime lifecycle and
//! frame-dispatch core: the configuration builder, the load-time validation of
//! the required entry points, and the per-frame decision of whether an entry
//! point may be invoked and how its outcome is reported.
//!
//! The interpreter itself, the windowing framework and the renderer live
//! outside this crate; an embedding layer runs them and hands the results of
//! each interpreter scope back here as plain values, so that every decision
//! made from those results is verified.

pub mod config;
pub mod frame;
pub mod script;

pub use config::Clog;
pub use frame::FrameInvocationFailure;
pub use frame::FrameOutcome;
pub use frame::FrameProbe;
pub use frame::InterpreterUnavailable;
pub use script::EntryKind;
pub use script::LoadError;
pub use script::LoadProbe;
