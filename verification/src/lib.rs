//! A memory-safe wrapper layer for a native version-control engine.
//!
//! The engine itself (object database, reference resolution, commit graph) is
//! an external collaborator reached over a C-style interface; nothing of it is
//! reimplemented here. What this crate holds is the logic that surrounds those
//! calls, stated and proved over plain values:
//!
//! - translating a native status code plus the engine's last-error record into
//!   a structured [`error::Error`] value;
//! - preparing null-terminated byte strings and rejecting embedded null bytes
//!   before any native call is attempted;
//! - the process-wide initialization guard, proved to request exactly one
//!   native initialization however many times it is invoked;
//! - handle-owning value types for repositories, commits and author
//!   signatures;
//! - the whole control flow of the command-line tool as a state machine whose
//!   transitions are verified, including the theorem that every native handle
//!   the session accepts is released exactly once on every path, failing ones
//!   included.
//!
//! The unverified shell that performs the foreign calls drives the state
//! machine: it executes each emitted [`session::Action`] and feeds the
//! outcome back as a [`session::Event`].

pub mod error;
pub mod lifecycle;
pub mod repo;
pub mod session;
pub mod text;
