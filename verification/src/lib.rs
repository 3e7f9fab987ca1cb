//! Non-allocating polymorphic containers over a fixed set of variant types.
//!
//! A container holds exactly one value drawn from a declared list of concrete
//! types and exposes it through a shared interface, without a heap allocation
//! and without a separate discriminant tag stored beside the value: the only
//! extra state is a handle to the dispatch table captured when the container
//! was constructed.
//!
//! The crate has two halves:
//!
//! * a build-time half — [`decl`], [`checker`], [`layout`] and [`compiler`] —
//!   that consumes a structured union declaration, checks every declared
//!   variant against the interface bound, and emits the description of the
//!   container (its layout, its dispatch capability, one conformance witness
//!   per variant);
//! * a run-time half — [`adapter`], [`variants`] and [`container`] — the
//!   container itself: an inline byte region paired with a dispatch-table
//!   handle, with construction, interface access, replacement and explicit
//!   destruction, all proved against the erase/unerase round trip.

pub mod adapter;
pub mod checker;
pub mod compiler;
pub mod container;
pub mod decl;
pub mod variants;
pub mod layout;
