//! State lifecycle manager for per-display lock-screen surfaces.
//!
//! During a session lock the host creates one interactive surface per
//! connected display and reports each one as it opens. This crate tracks
//! the interaction state of every surface independently, applies the
//! message protocol that mutates that state, and recognises the terminal
//! user action that asks the host session controller to end the lock.
//!
//! The host windowing and session-lock transport are collaborators outside
//! this crate: they deliver events and accept the single unlock request.
//! Everything in here is in-memory, single-threaded and lives for one lock
//! session.

pub mod surface;
pub mod registry;
pub mod message;
pub mod router;
pub mod manager;
pub mod laws;
