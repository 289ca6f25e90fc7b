//! Client-side synchronization and notification core of the Bitum messaging
//! frontend: the notification queue rendered through a portal host, the
//! cancelable polling sessions that refresh view state, the reconciler that
//! replaces resource snapshots wholesale, and the session guard that resolves
//! the current identity once and gates protected views.

pub mod actions;
pub mod api;
pub mod display;
pub mod guard;
pub mod notify;
pub mod numfmt;
pub mod polling;
pub mod reconcile;
pub mod texts;
