//! Core logic of a small "keep me awake" desktop application.
//!
//! The library verifies the two parts of the application that carry real
//! invariants: the inhibition controller, which owns at most one pair of
//! resource tokens (a process keep-alive token and a session inhibition
//! cookie) and applies level changes idempotently, and the global-shortcut
//! session, which negotiates, binds and tears down a session with an
//! external shortcut-activation service without leaking its keep-alive
//! token or activation listener.
//!
//! All interaction with the desktop session, the portal service and the
//! user interface happens outside the library: callers perform the
//! requested actions and hand the outcomes back as plain values.

pub mod config;
pub mod inhibit;
pub mod inhibitor;
pub mod shortcuts;
